//! The store as plain records, the form in which it is saved and read back.
use crate::commodity::{Commodity, CommodityView};
use crate::offer::Offer;
use crate::state::{Data, StoreView};
use crate::tables::{
    commodity_table, commodity_table_get, commodity_table_insert, commodity_table_keys,
    new_commodity_table, new_offer_table, new_user_table, offer_table, offer_table_get,
    offer_table_insert, offer_table_keys, user_table, user_table_get, user_table_insert,
    user_table_keys,
};
use crate::user::{id_set_from, User, UserView};
use vstd::prelude::*;

verus! {

/// A user and its identifier.
#[derive(Clone, Debug, PartialEq, Eq)]
pub struct UserRecord {
    pub id: u128,
    pub username: String,
    pub offer_ids: Vec<u128>,
}

/// A commodity and its identifier.
#[derive(Clone, Debug, PartialEq, Eq)]
pub struct CommodityRecord {
    pub id: u128,
    pub name: String,
    pub size: u64,
    pub owners: Vec<u128>,
}

/// An offer and its identifier.
#[derive(Clone, Copy, Debug, PartialEq, Eq)]
pub struct OfferRecord {
    pub id: u128,
    pub offer: Offer,
}

/// The whole store as records.
#[derive(Clone, Debug, PartialEq, Eq)]
pub struct Snapshot {
    pub users: Vec<UserRecord>,
    pub commodities: Vec<CommodityRecord>,
    pub offers: Vec<OfferRecord>,
}

pub open spec fn user_record_view(r: UserRecord) -> UserView {
    UserView { username: r.username@, offer_ids: r.offer_ids@.to_set() }
}

pub open spec fn commodity_record_view(r: CommodityRecord) -> CommodityView {
    CommodityView { name: r.name@, size: r.size, owners: r.owners@.to_set() }
}

/// The users that the records `rs` give, a later record of an identifier
/// replacing an earlier one.
pub open spec fn users_of_records(rs: Seq<UserRecord>) -> Map<u128, UserView>
    decreases rs.len(),
{
    if rs.len() == 0 {
        Map::empty()
    } else {
        users_of_records(rs.drop_last()).insert(rs.last().id, user_record_view(rs.last()))
    }
}

/// The commodities that the records `rs` give, a later record of an
/// identifier replacing an earlier one.
pub open spec fn commodities_of_records(rs: Seq<CommodityRecord>) -> Map<u128, CommodityView>
    decreases rs.len(),
{
    if rs.len() == 0 {
        Map::empty()
    } else {
        commodities_of_records(rs.drop_last()).insert(rs.last().id, commodity_record_view(rs.last()))
    }
}

/// The offers that the records `rs` give, a later record of an identifier
/// replacing an earlier one.
pub open spec fn offers_of_records(rs: Seq<OfferRecord>) -> Map<u128, Offer>
    decreases rs.len(),
{
    if rs.len() == 0 {
        Map::empty()
    } else {
        offers_of_records(rs.drop_last()).insert(rs.last().id, rs.last().offer)
    }
}

/// The store that a snapshot describes.
pub open spec fn snapshot_view(s: Snapshot) -> StoreView {
    StoreView {
        users: users_of_records(s.users@),
        commodities: commodities_of_records(s.commodities@),
        offers: offers_of_records(s.offers@),
    }
}

/// The entries of `m` whose keys are among the first `i` of `keys`.
pub open spec fn first_entries<V>(m: Map<u128, V>, keys: Seq<u128>, i: int) -> Map<u128, V> {
    Map::new(|k: u128| keys.subrange(0, i).contains(k), |k: u128| m[k])
}

proof fn lemma_first_entries_step<V>(m: Map<u128, V>, keys: Seq<u128>, i: int)
    requires
        0 <= i < keys.len(),
    ensures
        first_entries(m, keys, i + 1) == first_entries(m, keys, i).insert(keys[i], m[keys[i]]),
{
    let before = keys.subrange(0, i);
    let after = keys.subrange(0, i + 1);
    assert(after == before.push(keys[i]));
    assert forall|k: u128| after.contains(k) <==> before.contains(k) || k == keys[i] by {
        vstd::seq_lib::lemma_seq_contains_after_push(before, keys[i], k);
    }
    assert(first_entries(m, keys, i + 1) =~= first_entries(m, keys, i).insert(keys[i], m[keys[i]]));
}

proof fn lemma_first_entries_all<V>(m: Map<u128, V>, keys: Seq<u128>)
    requires
        keys.to_set() == m.dom(),
    ensures
        first_entries(m, keys, keys.len() as int) == m,
{
    assert(keys.subrange(0, keys.len() as int) == keys);
    assert(first_entries(m, keys, keys.len() as int) =~= m);
}

impl Data {
    /// The store as records, one for each user, commodity and offer.
    pub fn to_snapshot(&self) -> (r: Snapshot)
        ensures
            snapshot_view(r) == self@,
    {
        let keys = user_table_keys(&self.users);
        let mut users: Vec<UserRecord> = Vec::new();
        let mut i: usize = 0;
        while i < keys.len()
            invariant
                i <= keys@.len(),
                keys@.to_set() == user_table(self.users).dom(),
                users_of_records(users@) == first_entries(self@.users, keys@, i as int),
            decreases keys@.len() - i,
        {
            let id = keys[i];
            assert(keys@.to_set().contains(id));
            let u = user_table_get(&self.users, id).unwrap();
            let rec = UserRecord { id, username: u.username.clone(), offer_ids: u.get_offer_ids() };
            proof {
                lemma_first_entries_step(self@.users, keys@, i as int);
                assert(users@.push(rec).drop_last() == users@);
            }
            users.push(rec);
            i = i + 1;
        }
        proof {
            assert(self@.users.dom() =~= user_table(self.users).dom());
            lemma_first_entries_all(self@.users, keys@);
        }
        let keys = commodity_table_keys(&self.commodities);
        let mut commodities: Vec<CommodityRecord> = Vec::new();
        let mut i: usize = 0;
        while i < keys.len()
            invariant
                i <= keys@.len(),
                keys@.to_set() == commodity_table(self.commodities).dom(),
                commodities_of_records(commodities@) == first_entries(self@.commodities, keys@, i as int),
            decreases keys@.len() - i,
        {
            let id = keys[i];
            assert(keys@.to_set().contains(id));
            let c = commodity_table_get(&self.commodities, id).unwrap();
            let rec = CommodityRecord { id, name: c.name.clone(), size: c.size, owners: c.get_owner_ids() };
            proof {
                lemma_first_entries_step(self@.commodities, keys@, i as int);
                assert(commodities@.push(rec).drop_last() == commodities@);
            }
            commodities.push(rec);
            i = i + 1;
        }
        proof {
            assert(self@.commodities.dom() =~= commodity_table(self.commodities).dom());
            lemma_first_entries_all(self@.commodities, keys@);
        }
        let keys = offer_table_keys(&self.offers);
        let mut offers: Vec<OfferRecord> = Vec::new();
        let mut i: usize = 0;
        while i < keys.len()
            invariant
                i <= keys@.len(),
                keys@.to_set() == offer_table(self.offers).dom(),
                offers_of_records(offers@) == first_entries(self@.offers, keys@, i as int),
            decreases keys@.len() - i,
        {
            let id = keys[i];
            assert(keys@.to_set().contains(id));
            let o = offer_table_get(&self.offers, id).unwrap();
            let rec = OfferRecord { id, offer: o };
            proof {
                lemma_first_entries_step(self@.offers, keys@, i as int);
                assert(offers@.push(rec).drop_last() == offers@);
            }
            offers.push(rec);
            i = i + 1;
        }
        proof {
            lemma_first_entries_all(self@.offers, keys@);
        }
        Snapshot { users, commodities, offers }
    }

    /// The store that the records of `s` describe.
    pub fn from_snapshot(s: &Snapshot) -> (r: Data)
        ensures
            r@ == snapshot_view(*s),
    {
        let mut users = new_user_table();
        let mut i: usize = 0;
        assert(user_table(users).map_values(|u: User| u@) =~= users_of_records(s.users@.subrange(0, 0)));
        while i < s.users.len()
            invariant
                i <= s.users@.len(),
                user_table(users).map_values(|u: User| u@) == users_of_records(s.users@.subrange(0, i as int)),
            decreases s.users@.len() - i,
        {
            let rec = &s.users[i];
            let u = User { username: rec.username.clone(), offer_ids: id_set_from(&rec.offer_ids) };
            user_table_insert(&mut users, rec.id, u);
            assert(s.users@.subrange(0, i + 1).drop_last() == s.users@.subrange(0, i as int));
            assert(user_table(users).map_values(|u: User| u@) =~= users_of_records(s.users@.subrange(0, i + 1)));
            i = i + 1;
        }
        assert(s.users@.subrange(0, i as int) == s.users@);
        let mut commodities = new_commodity_table();
        let mut i: usize = 0;
        assert(commodity_table(commodities).map_values(|c: Commodity| c@) =~= commodities_of_records(s.commodities@.subrange(0, 0)));
        while i < s.commodities.len()
            invariant
                i <= s.commodities@.len(),
                commodity_table(commodities).map_values(|c: Commodity| c@) == commodities_of_records(s.commodities@.subrange(0, i as int)),
            decreases s.commodities@.len() - i,
        {
            let rec = &s.commodities[i];
            let c = Commodity { name: rec.name.clone(), size: rec.size, owners: id_set_from(&rec.owners) };
            commodity_table_insert(&mut commodities, rec.id, c);
            assert(s.commodities@.subrange(0, i + 1).drop_last() == s.commodities@.subrange(0, i as int));
            assert(commodity_table(commodities).map_values(|c: Commodity| c@) =~= commodities_of_records(s.commodities@.subrange(0, i + 1)));
            i = i + 1;
        }
        assert(s.commodities@.subrange(0, i as int) == s.commodities@);
        let mut offers = new_offer_table();
        let mut i: usize = 0;
        assert(offer_table(offers) =~= offers_of_records(s.offers@.subrange(0, 0)));
        while i < s.offers.len()
            invariant
                i <= s.offers@.len(),
                offer_table(offers) == offers_of_records(s.offers@.subrange(0, i as int)),
            decreases s.offers@.len() - i,
        {
            let rec = s.offers[i];
            offer_table_insert(&mut offers, rec.id, rec.offer);
            assert(s.offers@.subrange(0, i + 1).drop_last() == s.offers@.subrange(0, i as int));
            i = i + 1;
        }
        assert(s.offers@.subrange(0, i as int) == s.offers@);
        Data { commodities, offers, users }
    }
}

/// Reading back the records that a store was saved as gives the same store.
pub proof fn lemma_snapshot_round_trip(saved: StoreView, s: Snapshot, restored: StoreView)
    requires
        snapshot_view(s) == saved,
        restored == snapshot_view(s),
    ensures
        restored == saved,
{
}

} // verus!
