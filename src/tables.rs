//! The concurrent collections of `dashmap` that hold the store's records, and
//! the operations on them that the store relies on.
use crate::commodity::Commodity;
use crate::offer::Offer;
use crate::user::User;
use dashmap::{DashMap, DashSet};
use vstd::prelude::*;

verus! {

#[verifier::external_type_specification]
#[verifier::external_body]
#[verifier::reject_recursive_types(K)]
#[verifier::reject_recursive_types(V)]
#[verifier::reject_recursive_types(S)]
pub struct ExDashMap<K, V, S>(DashMap<K, V, S>);

#[verifier::external_type_specification]
#[verifier::external_body]
#[verifier::reject_recursive_types(K)]
#[verifier::reject_recursive_types(S)]
pub struct ExDashSet<K, S>(DashSet<K, S>);

/// A table of users, by identifier.
pub type UserTable = DashMap<u128, User>;

/// A table of commodities, by identifier.
pub type CommodityTable = DashMap<u128, Commodity>;

/// A table of offers, by identifier.
pub type OfferTable = DashMap<u128, Offer>;

/// The identifiers that a set of identifiers holds.
pub uninterp spec fn id_set(s: DashSet<u128>) -> Set<u128>;

/// The user records that a user table holds, by identifier.
pub uninterp spec fn user_table(m: UserTable) -> Map<u128, User>;

/// The commodity records that a commodity table holds, by identifier.
pub uninterp spec fn commodity_table(m: CommodityTable) -> Map<u128, Commodity>;

/// The offers that an offer table holds, by identifier.
pub uninterp spec fn offer_table(m: OfferTable) -> Map<u128, Offer>;

/// Relies on `DashSet::new`: a new set is empty.
#[verifier::external_body]
pub(crate) fn new_id_set() -> (r: DashSet<u128>)
    ensures
        id_set(r) == Set::<u128>::empty(),
{
    DashSet::new()
}

/// Relies on `DashSet::insert`: the key is in the set afterwards, and nothing
/// else changes.
#[verifier::external_body]
pub(crate) fn id_set_insert(s: &mut DashSet<u128>, k: u128)
    ensures
        id_set(*final(s)) == id_set(*old(s)).insert(k),
{
    s.insert(k);
}

/// Relies on `DashSet::iter`: each member is visited once.
#[verifier::external_body]
pub(crate) fn id_set_members(s: &DashSet<u128>) -> (r: Vec<u128>)
    ensures
        r@.no_duplicates(),
        r@.to_set() == id_set(*s),
{
    s.iter().map(|e| *e.key()).collect()
}

/// Relies on `DashMap::new`: a new map is empty.
#[verifier::external_body]
pub(crate) fn new_user_table() -> (r: UserTable)
    ensures
        user_table(r).dom() == Set::<u128>::empty(),
{
    DashMap::new()
}

/// Relies on `DashMap::insert`: the key maps to the value afterwards, and no
/// other entry changes.
#[verifier::external_body]
pub(crate) fn user_table_insert(m: &mut UserTable, k: u128, v: User)
    ensures
        user_table(*final(m)) == user_table(*old(m)).insert(k, v),
{
    m.insert(k, v);
}

/// Relies on `DashMap::get`; the record is copied with `User::clone`.
#[verifier::external_body]
pub(crate) fn user_table_get(m: &UserTable, k: u128) -> (r: Option<User>)
    ensures
        r is Some <==> user_table(*m).contains_key(k),
        r is Some ==> r->0@ == user_table(*m)[k]@,
{
    m.get(&k).map(|e| e.value().clone())
}

/// Relies on `DashMap::iter`: each key is visited once.
#[verifier::external_body]
pub(crate) fn user_table_keys(m: &UserTable) -> (r: Vec<u128>)
    ensures
        r@.no_duplicates(),
        r@.to_set() == user_table(*m).dom(),
{
    m.iter().map(|e| *e.key()).collect()
}

/// Relies on `DashMap::new`: a new map is empty.
#[verifier::external_body]
pub(crate) fn new_commodity_table() -> (r: CommodityTable)
    ensures
        commodity_table(r).dom() == Set::<u128>::empty(),
{
    DashMap::new()
}

/// Relies on `DashMap::insert`: the key maps to the value afterwards, and no
/// other entry changes.
#[verifier::external_body]
pub(crate) fn commodity_table_insert(m: &mut CommodityTable, k: u128, v: Commodity)
    ensures
        commodity_table(*final(m)) == commodity_table(*old(m)).insert(k, v),
{
    m.insert(k, v);
}

/// Relies on `DashMap::get`; the record is copied with `Commodity::clone`.
#[verifier::external_body]
pub(crate) fn commodity_table_get(m: &CommodityTable, k: u128) -> (r: Option<Commodity>)
    ensures
        r is Some <==> commodity_table(*m).contains_key(k),
        r is Some ==> r->0@ == commodity_table(*m)[k]@,
{
    m.get(&k).map(|e| e.value().clone())
}

/// Relies on `DashMap::iter`: each key is visited once.
#[verifier::external_body]
pub(crate) fn commodity_table_keys(m: &CommodityTable) -> (r: Vec<u128>)
    ensures
        r@.no_duplicates(),
        r@.to_set() == commodity_table(*m).dom(),
{
    m.iter().map(|e| *e.key()).collect()
}

/// Relies on `DashMap::new`: a new map is empty.
#[verifier::external_body]
pub(crate) fn new_offer_table() -> (r: OfferTable)
    ensures
        offer_table(r).dom() == Set::<u128>::empty(),
{
    DashMap::new()
}

/// Relies on `DashMap::insert`: the key maps to the value afterwards, and no
/// other entry changes.
#[verifier::external_body]
pub(crate) fn offer_table_insert(m: &mut OfferTable, k: u128, v: Offer)
    ensures
        offer_table(*final(m)) == offer_table(*old(m)).insert(k, v),
{
    m.insert(k, v);
}

/// Relies on `DashMap::get`.
#[verifier::external_body]
pub(crate) fn offer_table_get(m: &OfferTable, k: u128) -> (r: Option<Offer>)
    ensures
        r is Some <==> offer_table(*m).contains_key(k),
        r is Some ==> r->0 == offer_table(*m)[k],
{
    m.get(&k).map(|e| *e.value())
}

/// Relies on `DashMap::iter`: each key is visited once.
#[verifier::external_body]
pub(crate) fn offer_table_keys(m: &OfferTable) -> (r: Vec<u128>)
    ensures
        r@.no_duplicates(),
        r@.to_set() == offer_table(*m).dom(),
{
    m.iter().map(|e| *e.key()).collect()
}

} // verus!
