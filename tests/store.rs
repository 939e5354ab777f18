use ccash_market::commodity::CommodityUID;
use ccash_market::config::Config;
use ccash_market::offer::{Offer, OfferKind};
use ccash_market::orders::{CreateAsk, CreateBid};
use ccash_market::query::{OfferQueryParams, OfferSortBy};
use ccash_market::state::{AppState, Data, MarketError};
use ccash_market::user::UserUID;

fn empty_state() -> AppState {
    AppState::from_config(&Config::default(), Data::new())
}

#[test]
fn get_or_add_user_twice_gives_same_id() {
    let mut state = empty_state();
    let a = state.get_or_add_user("alice");
    let b = state.get_or_add_user("alice");
    assert_eq!(a, b);
    let c = state.get_or_add_user("bob");
    assert_ne!(a, c);
    assert_eq!(state.lookup_user(a).unwrap().get_username(), "alice");
}

#[test]
fn get_or_add_user_is_case_sensitive() {
    let mut state = empty_state();
    let a = state.get_or_add_user("alice");
    let b = state.get_or_add_user("Alice");
    assert_ne!(a, b);
}

#[test]
fn get_or_add_commodity_keeps_first_size() {
    let mut state = empty_state();
    let u1 = state.get_or_add_user("u1");
    let u2 = state.get_or_add_user("u2");
    let first = state.get_or_add_commodity("Iron", 10, u1);
    let second = state.get_or_add_commodity("Iron", 5, u2);
    assert_eq!(first, second);
    let iron = state.lookup_commodity(first).unwrap();
    assert_eq!(iron.size, 10);
    assert_eq!(iron.get_name(), "Iron");
    assert_eq!(iron.get_owner_ids(), vec![u1.0]);
}

#[test]
fn add_ask_and_add_bid_give_fresh_ids() {
    let mut state = empty_state();
    let u = state.get_or_add_user("u");
    let c = state.get_or_add_commodity("Iron", 1, u);
    let a1 = state.add_ask(c, u, 3, 4);
    let a2 = state.add_ask(c, u, 3, 4);
    let b1 = state.add_bid(c, u, 3, 4);
    let b2 = state.add_bid(c, u, 3, 4);
    let ids = [a1, a2, b1, b2];
    for i in 0..ids.len() {
        for j in 0..ids.len() {
            if i != j {
                assert_ne!(ids[i], ids[j]);
            }
        }
    }
}

#[test]
fn lookup_of_unknown_ids_is_not_found() {
    let state = empty_state();
    assert_eq!(state.lookup_user(UserUID(7)).err(), Some(MarketError::NotFound));
    assert_eq!(state.lookup_commodity(CommodityUID(7)).err(), Some(MarketError::NotFound));
}

#[test]
fn list_offers_for_unknown_user_is_not_found() {
    let state = empty_state();
    let params = OfferQueryParams::default();
    assert_eq!(state.list_offers(OfferKind::Any, Some("nobody"), &params).err(), Some(MarketError::NotFound));
}

#[test]
fn create_ask_with_zero_price_is_invalid() {
    let mut state = empty_state();
    let req = CreateAsk { commodity_name: "Iron".to_string(), total_cost: 100, cost_per_item: 0 };
    assert_eq!(state.create_ask("alice", &req).err(), Some(MarketError::InvalidRequest));
    let params = OfferQueryParams::default();
    assert!(state.list_offers(OfferKind::Any, None, &params).unwrap().is_empty());
}

#[test]
fn create_bid_records_offer_on_user_and_commodity() {
    let mut state = empty_state();
    let req = CreateBid { commodity_name: "Iron".to_string(), total_cost: 100, cost_per_item: 7 };
    let resp = state.create_bid("alice", &req).unwrap();
    assert_eq!(resp.message, "Bid for 14 \"Iron\" item(s) at 7 CSH each by alice");
    let params = OfferQueryParams { limit: None, sort_by: Some(OfferSortBy::TotalCostAscending) };
    let offers = state.list_offers(OfferKind::Bid, Some("alice"), &params).unwrap();
    assert_eq!(offers.len(), 1);
    match offers[0] {
        Offer::Bid { item_amount, price_per_item, .. } => {
            assert_eq!(item_amount, 14);
            assert_eq!(price_per_item, 7);
        }
        Offer::Ask { .. } => panic!("expected a bid"),
    }
    assert!(state.list_offers(OfferKind::Ask, Some("alice"), &params).unwrap().is_empty());
}
