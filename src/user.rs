//! Users of the market.
use crate::tables::{id_set, id_set_insert, id_set_members, new_id_set};
use dashmap::DashSet;
use vstd::prelude::*;

verus! {

/// The identifier of a user.
#[derive(Clone, Copy, Debug, PartialEq, Eq, Hash, Structural)]
pub struct UserUID(pub u128);

/// A user: a name, and the offers that the user has placed.
#[derive(Debug)]
pub struct User {
    pub username: String,
    pub offer_ids: DashSet<u128>,
}

/// What a user record holds.
pub ghost struct UserView {
    pub username: Seq<char>,
    pub offer_ids: Set<u128>,
}

impl View for User {
    type V = UserView;

    open spec fn view(&self) -> UserView {
        UserView { username: self.username@, offer_ids: id_set(self.offer_ids) }
    }
}

/// A set holding the same identifiers as the given one.
pub fn copy_id_set(s: &DashSet<u128>) -> (r: DashSet<u128>)
    ensures
        id_set(r) == id_set(*s),
{
    let members = id_set_members(s);
    id_set_from(&members)
}

/// A set holding the identifiers of `members`.
pub fn id_set_from(members: &Vec<u128>) -> (r: DashSet<u128>)
    ensures
        id_set(r) == members@.to_set(),
{
    let mut r = new_id_set();
    let mut i: usize = 0;
    while i < members.len()
        invariant
            i <= members@.len(),
            id_set(r) == members@.subrange(0, i as int).to_set(),
        decreases members@.len() - i,
    {
        id_set_insert(&mut r, members[i]);
        proof {
            let done = members@.subrange(0, i as int);
            assert(members@.subrange(0, i + 1) == done.push(members@[i as int]));
            done.lemma_push_to_set_commute(members@[i as int]);
        }
        i = i + 1;
    }
    assert(members@.subrange(0, i as int) == members@);
    r
}

impl Clone for User {
    fn clone(&self) -> (r: User)
        ensures
            r@ == self@,
    {
        User { username: self.username.clone(), offer_ids: copy_id_set(&self.offer_ids) }
    }
}

impl User {
    /// A user with the given name and no offers.
    pub fn new(username: &str) -> (r: User)
        ensures
            r@.username == username@,
            r@.offer_ids == Set::<u128>::empty(),
    {
        User { username: username.to_owned(), offer_ids: new_id_set() }
    }

    pub fn get_username(&self) -> (r: &str)
        ensures
            r@ == self@.username,
    {
        self.username.as_str()
    }

    /// Records that the user placed the given offer.
    pub fn add_offer_id(&mut self, offer_id: u128)
        ensures
            final(self)@ == (UserView {
                username: old(self)@.username,
                offer_ids: old(self)@.offer_ids.insert(offer_id),
            }),
    {
        id_set_insert(&mut self.offer_ids, offer_id);
    }

    /// The offers that the user placed, each once, in no particular order.
    pub fn get_offer_ids(&self) -> (r: Vec<u128>)
        ensures
            r@.no_duplicates(),
            r@.to_set() == self@.offer_ids,
    {
        id_set_members(&self.offer_ids)
    }
}

} // verus!
