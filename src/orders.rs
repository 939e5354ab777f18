//! Placing asks and bids on behalf of a user.
use crate::state::{
    commodity_resolved, offer_added, user_resolved, with_commodity_owner, with_user_offer, AppState,
    MarketError, StoreView,
};
use vstd::prelude::*;
use vstd::string::StringExecFns;

verus! {

/// A request to sell: `total_cost / cost_per_item` items of a commodity at
/// `cost_per_item` each.
#[derive(Clone, Debug, PartialEq, Eq)]
pub struct CreateAsk {
    pub commodity_name: String,
    pub total_cost: u64,
    pub cost_per_item: u64,
}

/// A request to buy: `total_cost / cost_per_item` items of a commodity at
/// `cost_per_item` each.
#[derive(Clone, Debug, PartialEq, Eq)]
pub struct CreateBid {
    pub commodity_name: String,
    pub total_cost: u64,
    pub cost_per_item: u64,
}

/// What a placed offer is answered with.
#[derive(Clone, Debug, PartialEq, Eq)]
pub struct OfferResponse {
    pub message: String,
}

/// The character of the decimal digit `d`.
pub open spec fn digit_char(d: nat) -> char {
    if d == 0 {
        '0'
    } else if d == 1 {
        '1'
    } else if d == 2 {
        '2'
    } else if d == 3 {
        '3'
    } else if d == 4 {
        '4'
    } else if d == 5 {
        '5'
    } else if d == 6 {
        '6'
    } else if d == 7 {
        '7'
    } else if d == 8 {
        '8'
    } else {
        '9'
    }
}

/// `n` written in decimal, without leading zeros.
pub open spec fn decimal(n: nat) -> Seq<char>
    decreases n,
{
    if n < 10 {
        seq![digit_char(n)]
    } else {
        decimal(n / 10) + seq![digit_char(n % 10)]
    }
}

/// The answer to a placed offer.
pub open spec fn offer_message(is_ask: bool, items: u64, commodity_name: Seq<char>, cost_per_item: u64, username: Seq<char>) -> Seq<char> {
    (if is_ask {
        "Ask for "@
    } else {
        "Bid for "@
    }) + decimal(items as nat) + " \""@ + commodity_name + "\" item(s) at "@ + decimal(cost_per_item as nat)
        + " CSH each by "@ + username
}

/// Whether `new` is what placing an offer of `items` items of the commodity
/// `commodity_name` at `cost_per_item` each, by the user `username`, makes of
/// `old`: the user and the commodity are resolved by name (the commodity
/// created with `items` as its size), the offer is added, and the user and the
/// commodity record it.
pub open spec fn offer_placed(
    old: StoreView,
    is_ask: bool,
    username: Seq<char>,
    commodity_name: Seq<char>,
    items: u64,
    cost_per_item: u64,
    new: StoreView,
) -> bool {
    exists|uid: u128, cid: u128, oid: u128, s1: StoreView, s2: StoreView, s3: StoreView|
        #![trigger user_resolved(old, username, uid, s1), commodity_resolved(s1, commodity_name, items, uid, cid, s2), offer_added(s2, oid, s3)]
        {
            &&& user_resolved(old, username, uid, s1)
            &&& commodity_resolved(s1, commodity_name, items, uid, cid, s2)
            &&& offer_added(s2, oid, s3)
            &&& s3.offers[oid].item_amount_spec() == items
            &&& s3.offers[oid].price_per_item_spec() == cost_per_item
            &&& (is_ask <==> s3.offers[oid] is Ask)
            &&& new == with_commodity_owner(with_user_offer(s3, uid, oid), cid, uid)
        }
}

fn digit_str(d: u64) -> (r: &'static str)
    requires
        d < 10,
    ensures
        r@ == seq![digit_char(d as nat)],
{
    proof {
        reveal_strlit("0");
        reveal_strlit("1");
        reveal_strlit("2");
        reveal_strlit("3");
        reveal_strlit("4");
        reveal_strlit("5");
        reveal_strlit("6");
        reveal_strlit("7");
        reveal_strlit("8");
        reveal_strlit("9");
    }
    if d == 0 {
        "0"
    } else if d == 1 {
        "1"
    } else if d == 2 {
        "2"
    } else if d == 3 {
        "3"
    } else if d == 4 {
        "4"
    } else if d == 5 {
        "5"
    } else if d == 6 {
        "6"
    } else if d == 7 {
        "7"
    } else if d == 8 {
        "8"
    } else {
        "9"
    }
}

/// `n` written in decimal.
pub fn decimal_string(n: u64) -> (r: String)
    ensures
        r@ == decimal(n as nat),
    decreases n,
{
    if n < 10 {
        String::from_str(digit_str(n))
    } else {
        let mut s = decimal_string(n / 10);
        s.append(digit_str(n % 10));
        s
    }
}

/// The answer to a placed offer.
pub fn format_offer_message(is_ask: bool, items: u64, commodity_name: &str, cost_per_item: u64, username: &str) -> (r: String)
    ensures
        r@ == offer_message(is_ask, items, commodity_name@, cost_per_item, username@),
{
    let mut m = if is_ask {
        String::from_str("Ask for ")
    } else {
        String::from_str("Bid for ")
    };
    let items_text = decimal_string(items);
    m.append(items_text.as_str());
    m.append(" \"");
    m.append(commodity_name);
    m.append("\" item(s) at ");
    let cost_text = decimal_string(cost_per_item);
    m.append(cost_text.as_str());
    m.append(" CSH each by ");
    m.append(username);
    m
}

impl AppState {
    fn place_offer(&mut self, is_ask: bool, username: &str, commodity_name: &str, total_cost: u64, cost_per_item: u64) -> (r: Result<OfferResponse, MarketError>)
        ensures
            AppState::same_settings(final(self), old(self)),
            cost_per_item == 0 ==> r is Err && r->Err_0 == MarketError::InvalidRequest && final(self).data@ == old(self).data@,
            cost_per_item != 0 ==> r is Ok && offer_placed(
                old(self).data@,
                is_ask,
                username@,
                commodity_name@,
                total_cost / cost_per_item,
                cost_per_item,
                final(self).data@,
            ) && r->Ok_0.message@ == offer_message(is_ask, total_cost / cost_per_item, commodity_name@, cost_per_item, username@),
    {
        let items = match total_cost.checked_div(cost_per_item) {
            Some(items) => items,
            None => {
                return Err(MarketError::InvalidRequest);
            },
        };
        let ghost s0 = self.data@;
        let user_id = self.get_or_add_user(username);
        let ghost s1 = self.data@;
        let commodity_id = self.get_or_add_commodity(commodity_name, items, user_id);
        let ghost s2 = self.data@;
        let offer_id = if is_ask {
            self.add_ask(commodity_id, user_id, items, cost_per_item)
        } else {
            self.add_bid(commodity_id, user_id, items, cost_per_item)
        };
        let ghost s3 = self.data@;
        self.attach_offer_to_user(user_id, offer_id);
        self.attach_owner_to_commodity(commodity_id, user_id);
        assert(user_resolved(s0, username@, user_id.0, s1));
        assert(commodity_resolved(s1, commodity_name@, items, user_id.0, commodity_id.0, s2));
        assert(offer_added(s2, offer_id.0, s3));
        let message = format_offer_message(is_ask, items, commodity_name, cost_per_item, username);
        Ok(OfferResponse { message })
    }

    /// Places an ask by the user `username`: fails with `InvalidRequest`,
    /// changing nothing, where the price per item is zero.
    pub fn create_ask(&mut self, username: &str, request: &CreateAsk) -> (r: Result<OfferResponse, MarketError>)
        ensures
            AppState::same_settings(final(self), old(self)),
            request.cost_per_item == 0 ==> r is Err && r->Err_0 == MarketError::InvalidRequest && final(self).data@ == old(self).data@,
            request.cost_per_item != 0 ==> r is Ok && offer_placed(
                old(self).data@,
                true,
                username@,
                request.commodity_name@,
                request.total_cost / request.cost_per_item,
                request.cost_per_item,
                final(self).data@,
            ) && r->Ok_0.message@ == offer_message(
                true,
                request.total_cost / request.cost_per_item,
                request.commodity_name@,
                request.cost_per_item,
                username@,
            ),
    {
        self.place_offer(true, username, request.commodity_name.as_str(), request.total_cost, request.cost_per_item)
    }

    /// Places a bid by the user `username`: fails with `InvalidRequest`,
    /// changing nothing, where the price per item is zero.
    pub fn create_bid(&mut self, username: &str, request: &CreateBid) -> (r: Result<OfferResponse, MarketError>)
        ensures
            AppState::same_settings(final(self), old(self)),
            request.cost_per_item == 0 ==> r is Err && r->Err_0 == MarketError::InvalidRequest && final(self).data@ == old(self).data@,
            request.cost_per_item != 0 ==> r is Ok && offer_placed(
                old(self).data@,
                false,
                username@,
                request.commodity_name@,
                request.total_cost / request.cost_per_item,
                request.cost_per_item,
                final(self).data@,
            ) && r->Ok_0.message@ == offer_message(
                false,
                request.total_cost / request.cost_per_item,
                request.commodity_name@,
                request.cost_per_item,
                username@,
            ),
    {
        self.place_offer(false, username, request.commodity_name.as_str(), request.total_cost, request.cost_per_item)
    }
}

} // verus!
