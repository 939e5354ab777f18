//! Tradable commodities.
use crate::tables::{id_set, id_set_insert, id_set_members, new_id_set};
use crate::user::copy_id_set;
use dashmap::DashSet;
use vstd::prelude::*;

verus! {

/// The identifier of a commodity.
#[derive(Clone, Copy, Debug, PartialEq, Eq, Hash, Structural)]
pub struct CommodityUID(pub u128);

/// A commodity: its name, the quantity recorded when it was first seen, and
/// the users who placed offers on it.
#[derive(Debug)]
pub struct Commodity {
    pub name: String,
    pub size: u64,
    pub owners: DashSet<u128>,
}

/// What a commodity record holds.
pub ghost struct CommodityView {
    pub name: Seq<char>,
    pub size: u64,
    pub owners: Set<u128>,
}

impl View for Commodity {
    type V = CommodityView;

    open spec fn view(&self) -> CommodityView {
        CommodityView { name: self.name@, size: self.size, owners: id_set(self.owners) }
    }
}

impl Clone for Commodity {
    fn clone(&self) -> (r: Commodity)
        ensures
            r@ == self@,
    {
        Commodity { name: self.name.clone(), size: self.size, owners: copy_id_set(&self.owners) }
    }
}

impl Commodity {
    /// A commodity with the given name; the size and the owners default to
    /// zero and to none.
    pub fn new(name: &str, initial_amount: Option<u64>, owner_ids: Option<DashSet<u128>>) -> (r: Commodity)
        ensures
            r@.name == name@,
            r@.size == (match initial_amount {
                Some(a) => a,
                None => 0,
            }),
            r@.owners == (match owner_ids {
                Some(s) => id_set(s),
                None => Set::<u128>::empty(),
            }),
    {
        let size = match initial_amount {
            Some(a) => a,
            None => 0,
        };
        let owners = match owner_ids {
            Some(s) => s,
            None => new_id_set(),
        };
        Commodity { name: name.to_owned(), size, owners }
    }

    /// The users who placed offers on the commodity, each once, in no
    /// particular order.
    pub fn get_owner_ids(&self) -> (r: Vec<u128>)
        ensures
            r@.no_duplicates(),
            r@.to_set() == self@.owners,
    {
        id_set_members(&self.owners)
    }

    pub fn get_name(&self) -> (r: &str)
        ensures
            r@ == self@.name,
    {
        self.name.as_str()
    }

    /// Records that the given user placed an offer on the commodity.
    pub fn add_owner_id(&mut self, user_id: u128)
        ensures
            final(self)@ == (CommodityView {
                name: old(self)@.name,
                size: old(self)@.size,
                owners: old(self)@.owners.insert(user_id),
            }),
    {
        id_set_insert(&mut self.owners, user_id);
    }
}

} // verus!
