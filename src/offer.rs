//! Offers: asks (to sell) and bids (to buy).
use crate::commodity::CommodityUID;
use crate::user::UserUID;
use vstd::prelude::*;

verus! {

/// The identifier of an offer.
#[derive(Clone, Copy, Debug, PartialEq, Eq, Hash, Structural)]
pub struct OfferUID(pub u128);

/// An offer. `timestamp` is the time of creation in microseconds since the
/// Unix epoch.
#[derive(Clone, Copy, Debug, PartialEq, Eq, Structural)]
pub enum Offer {
    Ask {
        user_id: UserUID,
        commodity_id: CommodityUID,
        timestamp: i64,
        item_amount: u64,
        price_per_item: u64,
    },
    Bid {
        user_id: UserUID,
        commodity_id: CommodityUID,
        timestamp: i64,
        item_amount: u64,
        price_per_item: u64,
    },
}

/// Which offers a listing takes.
#[derive(Clone, Copy, Debug, PartialEq, Eq, Structural)]
pub enum OfferKind {
    Ask,
    Bid,
    Any,
}

impl Offer {
    pub open spec fn timestamp_spec(self) -> i64 {
        match self {
            Offer::Ask { timestamp, .. } => timestamp,
            Offer::Bid { timestamp, .. } => timestamp,
        }
    }

    pub open spec fn item_amount_spec(self) -> u64 {
        match self {
            Offer::Ask { item_amount, .. } => item_amount,
            Offer::Bid { item_amount, .. } => item_amount,
        }
    }

    pub open spec fn price_per_item_spec(self) -> u64 {
        match self {
            Offer::Ask { price_per_item, .. } => price_per_item,
            Offer::Bid { price_per_item, .. } => price_per_item,
        }
    }

    /// Whether the offer is of the given kind.
    pub open spec fn is_kind(self, kind: OfferKind) -> bool {
        match kind {
            OfferKind::Ask => self is Ask,
            OfferKind::Bid => self is Bid,
            OfferKind::Any => true,
        }
    }

    pub fn timestamp(&self) -> (r: i64)
        ensures
            r == self.timestamp_spec(),
    {
        match self {
            Offer::Ask { timestamp, .. } => *timestamp,
            Offer::Bid { timestamp, .. } => *timestamp,
        }
    }

    pub fn item_amount(&self) -> (r: u64)
        ensures
            r == self.item_amount_spec(),
    {
        match self {
            Offer::Ask { item_amount, .. } => *item_amount,
            Offer::Bid { item_amount, .. } => *item_amount,
        }
    }

    pub fn price_per_item(&self) -> (r: u64)
        ensures
            r == self.price_per_item_spec(),
    {
        match self {
            Offer::Ask { price_per_item, .. } => *price_per_item,
            Offer::Bid { price_per_item, .. } => *price_per_item,
        }
    }

    pub fn matches_kind(&self, kind: OfferKind) -> (r: bool)
        ensures
            r == self.is_kind(kind),
    {
        match kind {
            OfferKind::Ask => matches!(self, Offer::Ask { .. }),
            OfferKind::Bid => matches!(self, Offer::Bid { .. }),
            OfferKind::Any => true,
        }
    }
}

} // verus!
