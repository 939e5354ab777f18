use ccash_market::commodity::CommodityUID;
use ccash_market::config::Config;
use ccash_market::offer::{Offer, OfferKind};
use ccash_market::query::{
    clamp_limit, offer_sort, select_offers, total_cost, OfferQueryParams, OfferSortBy,
    MAX_OFFER_RESPONSE,
};
use ccash_market::state::{AppState, Data};
use ccash_market::user::UserUID;
use std::cmp::Ordering;

fn ask(timestamp: i64, item_amount: u64, price_per_item: u64) -> Offer {
    Offer::Ask {
        user_id: UserUID(1),
        commodity_id: CommodityUID(2),
        timestamp,
        item_amount,
        price_per_item,
    }
}

fn bid(timestamp: i64, item_amount: u64, price_per_item: u64) -> Offer {
    Offer::Bid {
        user_id: UserUID(1),
        commodity_id: CommodityUID(2),
        timestamp,
        item_amount,
        price_per_item,
    }
}

fn totals(offers: &[Offer]) -> Vec<u64> {
    offers.iter().map(total_cost).collect()
}

fn empty_state() -> AppState {
    AppState::from_config(&Config::default(), Data::new())
}

#[test]
fn total_cost_descending_and_ascending() {
    let offers = vec![ask(1, 10, 10), ask(2, 5, 10), ask(3, 20, 10)];
    let down = select_offers(&offers, OfferSortBy::TotalCostDescending, 10);
    assert_eq!(totals(&down), vec![200, 100, 50]);
    let up = select_offers(&offers, OfferSortBy::TotalCostAscending, 10);
    assert_eq!(totals(&up), vec![50, 100, 200]);
}

#[test]
fn total_cost_sorting_through_the_store() {
    let mut state = empty_state();
    state.add_offer(ask(1, 10, 10));
    state.add_offer(ask(2, 5, 10));
    state.add_offer(ask(3, 20, 10));
    let params = OfferQueryParams { limit: None, sort_by: Some(OfferSortBy::TotalCostDescending) };
    let down = state.list_offers(OfferKind::Ask, None, &params).unwrap();
    assert_eq!(totals(&down), vec![200, 100, 50]);
    let params = OfferQueryParams { limit: None, sort_by: Some(OfferSortBy::TotalCostAscending) };
    let up = state.list_offers(OfferKind::Any, None, &params).unwrap();
    assert_eq!(totals(&up), vec![50, 100, 200]);
}

#[test]
fn date_orders() {
    let offers = vec![ask(20, 1, 1), bid(10, 1, 1), ask(30, 1, 1)];
    let newest = select_offers(&offers, OfferSortBy::DateDescending, 3);
    let stamps: Vec<i64> = newest.iter().map(|o| o.timestamp()).collect();
    assert_eq!(stamps, vec![30, 20, 10]);
    let oldest = select_offers(&offers, OfferSortBy::DateAscending, 2);
    let stamps: Vec<i64> = oldest.iter().map(|o| o.timestamp()).collect();
    assert_eq!(stamps, vec![10, 20]);
}

#[test]
fn total_cost_saturates() {
    assert_eq!(total_cost(&ask(0, u64::MAX, 2)), u64::MAX);
    assert_eq!(total_cost(&ask(0, 1 << 32, 1 << 32)), u64::MAX);
    assert_eq!(total_cost(&ask(0, 7, 6)), 42);
    let huge = ask(0, u64::MAX, u64::MAX);
    let big = ask(1, u64::MAX, 1);
    assert_eq!(offer_sort(OfferSortBy::TotalCostAscending, &huge, &big), Ordering::Equal);
}

#[test]
fn offer_sort_orders() {
    let old = ask(1, 1, 100);
    let new = bid(2, 1, 1);
    assert_eq!(offer_sort(OfferSortBy::DateDescending, &old, &new), Ordering::Greater);
    assert_eq!(offer_sort(OfferSortBy::DateAscending, &old, &new), Ordering::Less);
    assert_eq!(offer_sort(OfferSortBy::TotalCostDescending, &old, &new), Ordering::Less);
    assert_eq!(offer_sort(OfferSortBy::TotalCostAscending, &old, &new), Ordering::Greater);
    assert_eq!(offer_sort(OfferSortBy::DateAscending, &old, &old), Ordering::Equal);
}

#[test]
fn limit_clamping() {
    assert_eq!(clamp_limit(Some(0)), MAX_OFFER_RESPONSE);
    assert_eq!(clamp_limit(Some(5000)), 1000);
    assert_eq!(clamp_limit(Some(1000)), 1000);
    assert_eq!(clamp_limit(Some(1001)), 1000);
    assert_eq!(clamp_limit(Some(3)), 3);
    assert_eq!(clamp_limit(None), 100);
}

#[test]
fn limit_three_of_ten() {
    let mut state = empty_state();
    for t in 0..10 {
        state.add_offer(ask(t, 1, 1));
    }
    let params = OfferQueryParams { limit: Some(3), sort_by: None };
    let page = state.list_offers(OfferKind::Any, None, &params).unwrap();
    let stamps: Vec<i64> = page.iter().map(|o| o.timestamp()).collect();
    assert_eq!(stamps, vec![9, 8, 7]);
}

#[test]
fn limit_zero_and_above_maximum_give_a_thousand() {
    let offers: Vec<Offer> = (0..1005).map(|t| bid(t, 1, 1)).collect();
    let mut state = empty_state();
    for o in &offers {
        state.add_offer(*o);
    }
    let zero = OfferQueryParams { limit: Some(0), sort_by: None };
    assert_eq!(state.list_offers(OfferKind::Bid, None, &zero).unwrap().len(), 1000);
    let above = OfferQueryParams { limit: Some(5000), sort_by: None };
    assert_eq!(state.list_offers(OfferKind::Bid, None, &above).unwrap().len(), 1000);
    let default = OfferQueryParams::default();
    assert_eq!(state.list_offers(OfferKind::Bid, None, &default).unwrap().len(), 100);
    assert!(state.list_offers(OfferKind::Ask, None, &default).unwrap().is_empty());
}

#[test]
fn kind_filter_and_user_filter() {
    let mut state = empty_state();
    let alice = state.get_or_add_user("alice");
    let bob = state.get_or_add_user("bob");
    let iron = state.get_or_add_commodity("Iron", 4, alice);
    let a = state.add_ask(iron, alice, 2, 3);
    state.attach_offer_to_user(alice, a);
    let b = state.add_bid(iron, bob, 5, 6);
    state.attach_offer_to_user(bob, b);
    let params = OfferQueryParams::default();
    let alices = state.list_offers(OfferKind::Any, Some("alice"), &params).unwrap();
    assert_eq!(alices.len(), 1);
    assert!(matches!(alices[0], Offer::Ask { item_amount: 2, price_per_item: 3, .. }));
    let bobs_asks = state.list_offers(OfferKind::Ask, Some("bob"), &params).unwrap();
    assert!(bobs_asks.is_empty());
    let bids = state.list_offers(OfferKind::Bid, None, &params).unwrap();
    assert_eq!(bids.len(), 1);
    assert_eq!(state.lookup_user(alice).unwrap().get_offer_ids(), vec![a.0]);
}

#[test]
fn empty_listing() {
    let state = empty_state();
    let params = OfferQueryParams::default();
    assert!(state.list_offers(OfferKind::Any, None, &params).unwrap().is_empty());
    assert!(select_offers(&Vec::new(), OfferSortBy::DateDescending, 5).is_empty());
}
