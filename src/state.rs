//! The store: users, commodities and offers, with get-or-create on the
//! natural keys and the back-references between them.
use crate::commodity::{Commodity, CommodityUID, CommodityView};
use crate::config::Config;
use crate::ids::{fresh_id, now_micros};
use crate::offer::{Offer, OfferKind, OfferUID};
use crate::query::{
    clamp_limit, effective_limit, effective_sort, is_top, select_offers, OfferQueryParams,
    OfferSortBy,
};
use crate::tables::{
    commodity_table, commodity_table_get, commodity_table_insert, commodity_table_keys,
    new_commodity_table, new_id_set, new_offer_table, new_user_table, offer_table,
    offer_table_insert, offer_table_keys, user_table, user_table_get, user_table_insert,
    user_table_keys, id_set_insert, offer_table_get, CommodityTable, OfferTable, UserTable,
};
use crate::user::{User, UserUID, UserView};
use vstd::prelude::*;
use vstd::seq_lib::lemma_seq_contains_after_push;

verus! {

/// What the store holds.
pub ghost struct StoreView {
    pub users: Map<u128, UserView>,
    pub commodities: Map<u128, CommodityView>,
    pub offers: Map<u128, Offer>,
}

/// The three collections of the store.
#[derive(Debug)]
pub struct Data {
    pub commodities: CommodityTable,
    pub offers: OfferTable,
    pub users: UserTable,
}

impl View for Data {
    type V = StoreView;

    open spec fn view(&self) -> StoreView {
        StoreView {
            users: user_table(self.users).map_values(|u: User| u@),
            commodities: commodity_table(self.commodities).map_values(|c: Commodity| c@),
            offers: offer_table(self.offers),
        }
    }
}

/// Whether `id` is a user called `name`.
pub open spec fn user_named(s: StoreView, id: u128, name: Seq<char>) -> bool {
    s.users.contains_key(id) && s.users[id].username == name
}

/// Whether some user is called `name`.
pub open spec fn has_user_named(s: StoreView, name: Seq<char>) -> bool {
    exists|id: u128| user_named(s, id, name)
}

/// Whether `id` is a commodity called `name`.
pub open spec fn commodity_named(s: StoreView, id: u128, name: Seq<char>) -> bool {
    s.commodities.contains_key(id) && s.commodities[id].name == name
}

/// Whether some commodity is called `name`.
pub open spec fn has_commodity_named(s: StoreView, name: Seq<char>) -> bool {
    exists|id: u128| commodity_named(s, id, name)
}

/// The store after `offer` was given the fresh identifier `id`.
pub open spec fn with_offer(s: StoreView, id: u128, offer: Offer) -> StoreView {
    StoreView { users: s.users, commodities: s.commodities, offers: s.offers.insert(id, offer) }
}

/// The store after the user `user_id`, where there is one, recorded the offer
/// `offer_id`.
pub open spec fn with_user_offer(s: StoreView, user_id: u128, offer_id: u128) -> StoreView {
    if s.users.contains_key(user_id) {
        StoreView {
            users: s.users.insert(
                user_id,
                UserView {
                    username: s.users[user_id].username,
                    offer_ids: s.users[user_id].offer_ids.insert(offer_id),
                },
            ),
            commodities: s.commodities,
            offers: s.offers,
        }
    } else {
        s
    }
}

/// The store after the commodity `commodity_id`, where there is one, recorded
/// the owner `owner_id`.
pub open spec fn with_commodity_owner(s: StoreView, commodity_id: u128, owner_id: u128) -> StoreView {
    if s.commodities.contains_key(commodity_id) {
        StoreView {
            users: s.users,
            commodities: s.commodities.insert(
                commodity_id,
                CommodityView {
                    name: s.commodities[commodity_id].name,
                    size: s.commodities[commodity_id].size,
                    owners: s.commodities[commodity_id].owners.insert(owner_id),
                },
            ),
            offers: s.offers,
        }
    } else {
        s
    }
}

impl Default for Data {
    fn default() -> (r: Data)
        ensures
            r@.users.dom() == Set::<u128>::empty(),
            r@.commodities.dom() == Set::<u128>::empty(),
            r@.offers.dom() == Set::<u128>::empty(),
    {
        Data::new()
    }
}

impl Data {
    /// The store that a snapshot read at start-up gives: the snapshot's
    /// contents where it could be read, else an empty store.
    pub fn restore(snapshot: Option<Data>) -> (r: Data)
        ensures
            match snapshot {
                Some(d) => r@ == d@,
                None => r@.users.dom() == Set::<u128>::empty() && r@.commodities.dom() == Set::<u128>::empty()
                    && r@.offers.dom() == Set::<u128>::empty(),
            },
    {
        match snapshot {
            Some(d) => d,
            None => Data::new(),
        }
    }

    /// An empty store.
    pub fn new() -> (r: Data)
        ensures
            r@.users.dom() == Set::<u128>::empty(),
            r@.commodities.dom() == Set::<u128>::empty(),
            r@.offers.dom() == Set::<u128>::empty(),
    {
        let r = Data {
            commodities: new_commodity_table(),
            offers: new_offer_table(),
            users: new_user_table(),
        };
        assert(r@.users =~= Map::<u128, UserView>::empty());
        assert(r@.commodities =~= Map::<u128, CommodityView>::empty());
        assert(r@.offers =~= Map::<u128, Offer>::empty());
        r
    }

    /// The candidate offers of `from` of kind `kind`: their identifiers, each
    /// once, and the offers.
    pub fn gather(&self, from: &Vec<u128>, kind: OfferKind) -> (r: (Vec<u128>, Vec<Offer>))
        requires
            from@.no_duplicates(),
        ensures
            r.0@.no_duplicates(),
            r.0@.to_set() == candidates(self@, from@.to_set(), kind),
            r.1@ == offers_at(self@, r.0@),
    {
        let mut ids: Vec<u128> = Vec::new();
        let mut offers: Vec<Offer> = Vec::new();
        let mut i: usize = 0;
        while i < from.len()
            invariant
                i <= from@.len(),
                from@.no_duplicates(),
                ids@.no_duplicates(),
                forall|x: u128| #[trigger] ids@.contains(x) <==> (from@.subrange(0, i as int).contains(x)
                    && candidates(self@, from@.to_set(), kind).contains(x)),
                offers@ == offers_at(self@, ids@),
            decreases from@.len() - i,
        {
            let id = from[i];
            assert(from@.to_set().contains(id));
            assert(!ids@.contains(id)) by {
                if ids@.contains(id) {
                    let before = from@.subrange(0, i as int);
                    let j = choose|j: int| 0 <= j < before.len() && before[j] == id;
                    assert(from@[j] == from@[i as int]);
                }
            }
            let found = offer_table_get(&self.offers, id);
            let take = match found {
                Some(o) => o.matches_kind(kind),
                None => false,
            };
            assert(take == candidates(self@, from@.to_set(), kind).contains(id));
            let ghost old_ids = ids@;
            if take {
                let o = found.unwrap();
                ids.push(id);
                offers.push(o);
                assert(offers@ =~= offers_at(self@, ids@));
            }
            assert forall|x: u128| #[trigger] ids@.contains(x) <==> (from@.subrange(0, i + 1).contains(x)
                && candidates(self@, from@.to_set(), kind).contains(x)) by {
                let before = from@.subrange(0, i as int);
                let after = from@.subrange(0, i + 1);
                if take {
                    assert(ids@ == old_ids.push(id));
                    lemma_seq_contains_after_push(old_ids, id, x);
                } else {
                    assert(ids@ == old_ids);
                }
                if after.contains(x) && x != id {
                    let j = choose|j: int| 0 <= j < after.len() && after[j] == x;
                    assert(before[j] == x);
                }
                if before.contains(x) {
                    let j = choose|j: int| 0 <= j < before.len() && before[j] == x;
                    assert(after[j] == x);
                }
                if x == id {
                    assert(after[i as int] == x);
                }
            }
            i = i + 1;
        }
        assert(from@.subrange(0, i as int) == from@);
        assert(ids@.to_set() =~= candidates(self@, from@.to_set(), kind));
        (ids, offers)
    }

    /// The user called `name`, where there is one.
    pub fn find_user(&self, name: &String) -> (r: Option<UserUID>)
        ensures
            match r {
                Some(id) => user_named(self@, id.0, name@),
                None => !has_user_named(self@, name@),
            },
    {
        let keys = user_table_keys(&self.users);
        let mut i: usize = 0;
        while i < keys.len()
            invariant
                i <= keys@.len(),
                keys@.to_set() == user_table(self.users).dom(),
                forall|j: int| 0 <= j < i ==> !user_named(self@, #[trigger] keys@[j], name@),
            decreases keys@.len() - i,
        {
            let id = keys[i];
            assert(keys@.to_set().contains(id));
            let u = user_table_get(&self.users, id);
            if let Some(u) = u {
                if u.username == *name {
                    return Some(UserUID(id));
                }
            }
            i = i + 1;
        }
        assert forall|id: u128| !user_named(self@, id, name@) by {
            if self@.users.contains_key(id) {
                assert(keys@.to_set().contains(id));
                let j = choose|j: int| 0 <= j < keys@.len() && keys@[j] == id;
                assert(!user_named(self@, keys@[j], name@));
            }
        }
        None
    }

    /// The commodity called `name`, where there is one.
    pub fn find_commodity(&self, name: &String) -> (r: Option<CommodityUID>)
        ensures
            match r {
                Some(id) => commodity_named(self@, id.0, name@),
                None => !has_commodity_named(self@, name@),
            },
    {
        let keys = commodity_table_keys(&self.commodities);
        let mut i: usize = 0;
        while i < keys.len()
            invariant
                i <= keys@.len(),
                keys@.to_set() == commodity_table(self.commodities).dom(),
                forall|j: int| 0 <= j < i ==> !commodity_named(self@, #[trigger] keys@[j], name@),
            decreases keys@.len() - i,
        {
            let id = keys[i];
            assert(keys@.to_set().contains(id));
            let c = commodity_table_get(&self.commodities, id);
            if let Some(c) = c {
                if c.name == *name {
                    return Some(CommodityUID(id));
                }
            }
            i = i + 1;
        }
        assert forall|id: u128| !commodity_named(self@, id, name@) by {
            if self@.commodities.contains_key(id) {
                assert(keys@.to_set().contains(id));
                let j = choose|j: int| 0 <= j < keys@.len() && keys@[j] == id;
                assert(!commodity_named(self@, keys@[j], name@));
            }
        }
        None
    }
}

/// The store after a new user `name` was given the fresh identifier `id`.
pub open spec fn with_user(s: StoreView, id: u128, name: Seq<char>) -> StoreView {
    StoreView {
        users: s.users.insert(id, UserView { username: name, offer_ids: Set::empty() }),
        commodities: s.commodities,
        offers: s.offers,
    }
}

/// The store after a new commodity `name` of size `size`, owned by `owner`,
/// was given the fresh identifier `id`.
pub open spec fn with_commodity(s: StoreView, id: u128, name: Seq<char>, size: u64, owner: u128) -> StoreView {
    StoreView {
        users: s.users,
        commodities: s.commodities.insert(
            id,
            CommodityView { name, size, owners: Set::empty().insert(owner) },
        ),
        offers: s.offers,
    }
}

/// The offers that a listing from the identifiers `from` takes: those that
/// are in the store and of kind `kind`.
pub open spec fn candidates(s: StoreView, from: Set<u128>, kind: OfferKind) -> Set<u128> {
    Set::new(|id: u128| from.contains(id) && s.offers.contains_key(id) && s.offers[id].is_kind(kind))
}

/// The offers stored under `ids`, in that order.
pub open spec fn offers_at(s: StoreView, ids: Seq<u128>) -> Seq<Offer> {
    ids.map_values(|id: u128| s.offers[id])
}

/// Whether `r` is a page of at most `k` of the candidate offers of `from`,
/// first in the order `sort_by`.
pub open spec fn is_listing(s: StoreView, from: Set<u128>, kind: OfferKind, sort_by: OfferSortBy, k: nat, r: Seq<Offer>) -> bool {
    exists|ids: Seq<u128>|
        ids.no_duplicates() && ids.to_set() == candidates(s, from, kind) && is_top(#[trigger] offers_at(s, ids), r, sort_by, k)
}

/// Whether `new`, with the result `r`, is what resolving the user `name` in
/// `old` gives: the identifier of a user of that name where there is one, the
/// store unchanged; else a new user of that name under an identifier not yet
/// in use.
pub open spec fn user_resolved(old: StoreView, name: Seq<char>, r: u128, new: StoreView) -> bool {
    if has_user_named(old, name) {
        user_named(old, r, name) && new == old
    } else {
        !old.users.contains_key(r) && new == with_user(old, r, name)
    }
}

/// Whether `new`, with the result `r`, is what resolving the commodity `name`
/// in `old` gives: the identifier of a commodity of that name where there is
/// one, the store unchanged; else a new commodity of that name, of size
/// `amount` and owned by `owner`, under an identifier not yet in use.
pub open spec fn commodity_resolved(old: StoreView, name: Seq<char>, amount: u64, owner: u128, r: u128, new: StoreView) -> bool {
    if has_commodity_named(old, name) {
        commodity_named(old, r, name) && new == old
    } else {
        !old.commodities.contains_key(r) && new == with_commodity(old, r, name, amount, owner)
    }
}

/// Whether `new` is `old` with one more offer, under the identifier `r` that
/// `old` did not use.
pub open spec fn offer_added(old: StoreView, r: u128, new: StoreView) -> bool {
    !old.offers.contains_key(r) && new == with_offer(old, r, new.offers[r])
}

/// Whether no two users share a name.
pub open spec fn usernames_unique(s: StoreView) -> bool {
    forall|a: u128, b: u128|
        #[trigger] s.users.contains_key(a) && #[trigger] s.users.contains_key(b) && s.users[a].username
            == s.users[b].username ==> a == b
}

/// Whether no two commodities share a name.
pub open spec fn commodity_names_unique(s: StoreView) -> bool {
    forall|a: u128, b: u128|
        #[trigger] s.commodities.contains_key(a) && #[trigger] s.commodities.contains_key(b)
            && s.commodities[a].name == s.commodities[b].name ==> a == b
}

/// Resolving a user name keeps user names unique.
pub proof fn lemma_user_resolved_keeps_names_unique(s0: StoreView, name: Seq<char>, r: u128, s1: StoreView)
    requires
        usernames_unique(s0),
        user_resolved(s0, name, r, s1),
    ensures
        usernames_unique(s1),
{
    if !has_user_named(s0, name) {
        assert forall|a: u128, b: u128|
            #[trigger] s1.users.contains_key(a) && #[trigger] s1.users.contains_key(b) && s1.users[a].username
                == s1.users[b].username implies a == b by {
            if a != r && b != r {
                assert(s0.users.contains_key(a) && s0.users.contains_key(b));
            } else if a != r {
                assert(user_named(s0, a, name));
            } else if b != r {
                assert(user_named(s0, b, name));
            }
        }
    }
}

/// Resolving a commodity name keeps commodity names unique.
pub proof fn lemma_commodity_resolved_keeps_names_unique(
    s0: StoreView,
    name: Seq<char>,
    amount: u64,
    owner: u128,
    r: u128,
    s1: StoreView,
)
    requires
        commodity_names_unique(s0),
        commodity_resolved(s0, name, amount, owner, r, s1),
    ensures
        commodity_names_unique(s1),
{
    if !has_commodity_named(s0, name) {
        assert forall|a: u128, b: u128|
            #[trigger] s1.commodities.contains_key(a) && #[trigger] s1.commodities.contains_key(b)
                && s1.commodities[a].name == s1.commodities[b].name implies a == b by {
            if a != r && b != r {
                assert(s0.commodities.contains_key(a) && s0.commodities.contains_key(b));
            } else if a != r {
                assert(commodity_named(s0, a, name));
            } else if b != r {
                assert(commodity_named(s0, b, name));
            }
        }
    }
}

/// Resolving the same user name twice in a row gives the same identifier,
/// and the second time changes nothing, where names were unique before.
pub proof fn lemma_user_resolved_twice(s0: StoreView, s1: StoreView, s2: StoreView, name: Seq<char>, r1: u128, r2: u128)
    requires
        usernames_unique(s0),
        user_resolved(s0, name, r1, s1),
        user_resolved(s1, name, r2, s2),
    ensures
        r1 == r2,
        s2 == s1,
        user_named(s2, r2, name),
        usernames_unique(s2),
{
    lemma_user_resolved_keeps_names_unique(s0, name, r1, s1);
    if !has_user_named(s0, name) {
        assert(user_named(s1, r1, name));
    }
}

/// Resolving the same commodity name twice in a row gives the same
/// identifier, changes nothing the second time, and keeps the size that the
/// commodity was created with, where names were unique before.
pub proof fn lemma_commodity_resolved_twice(
    s0: StoreView,
    s1: StoreView,
    s2: StoreView,
    name: Seq<char>,
    amount1: u64,
    owner1: u128,
    amount2: u64,
    owner2: u128,
    r1: u128,
    r2: u128,
)
    requires
        commodity_names_unique(s0),
        commodity_resolved(s0, name, amount1, owner1, r1, s1),
        commodity_resolved(s1, name, amount2, owner2, r2, s2),
    ensures
        r1 == r2,
        s2 == s1,
        commodity_named(s2, r2, name),
        !has_commodity_named(s0, name) ==> s2.commodities[r2].size == amount1,
        has_commodity_named(s0, name) ==> s2.commodities[r2].size == s0.commodities[r2].size,
        commodity_names_unique(s2),
{
    lemma_commodity_resolved_keeps_names_unique(s0, name, amount1, owner1, r1, s1);
    if !has_commodity_named(s0, name) {
        assert(commodity_named(s1, r1, name));
    }
}

/// Two offers added one after the other get distinct identifiers, neither of
/// them in use before, and both are kept.
pub proof fn lemma_offers_added_distinct(s0: StoreView, s1: StoreView, s2: StoreView, r1: u128, r2: u128)
    requires
        offer_added(s0, r1, s1),
        offer_added(s1, r2, s2),
    ensures
        r1 != r2,
        !s0.offers.contains_key(r1),
        !s0.offers.contains_key(r2),
        s2.offers.contains_key(r1),
        s2.offers.contains_key(r2),
        s2.offers[r1] == s1.offers[r1],
{
    assert(s1.offers.contains_key(r1));
}

/// Why a request on the store fails.
#[derive(Clone, Copy, Debug, PartialEq, Eq, Structural)]
pub enum MarketError {
    /// A user, commodity or offer that the request names is not in the store.
    NotFound,
    /// The request itself is malformed (a price of zero per item).
    InvalidRequest,
}

/// A read-only summary of the market.
#[derive(Debug)]
pub struct AppProperties {
    pub ledger_host: String,
    pub market_username: String,
}

/// The state of the market: its settings and its store.
#[derive(Debug)]
pub struct AppState {
    pub ledger_host: String,
    pub market_user_uid: Option<UserUID>,
    pub market_user_details: (String, String),
    pub data: Data,
}

impl AppState {
    /// Whether `a` and `b` have the same settings.
    pub open spec fn same_settings(a: &AppState, b: &AppState) -> bool {
        &&& a.ledger_host@ == b.ledger_host@
        &&& a.market_user_uid == b.market_user_uid
        &&& a.market_user_details.0@ == b.market_user_details.0@
        &&& a.market_user_details.1@ == b.market_user_details.1@
    }

    /// The market's state before it has registered its own account: the ledger
    /// host of `config` (`Unset` where it has none), its account details, and
    /// the store `data`.
    pub fn from_config(config: &Config, data: Data) -> (r: AppState)
        ensures
            r.ledger_host@ == match config.ledger_host {
                Some(h) => h@,
                None => "Unset"@,
            },
            r.market_user_uid is None,
            r.market_user_details.0@ == config.market_username@,
            r.market_user_details.1@ == config.market_password@,
            r.data@ == data@,
    {
        let ledger_host = match config.get_ledger_host() {
            Some(h) => h.clone(),
            None => "Unset".to_owned(),
        };
        AppState {
            ledger_host,
            market_user_uid: None,
            market_user_details: (config.market_username.clone(), config.market_password.clone()),
            data,
        }
    }

    /// The name of the market's own account, where it is registered and in the
    /// store.
    pub open spec fn market_name(&self) -> Option<Seq<char>> {
        match self.market_user_uid {
            Some(uid) => if self.data@.users.contains_key(uid.0) {
                Some(self.data@.users[uid.0].username)
            } else {
                None
            },
            None => None,
        }
    }

    /// The market's own account, where it is registered and in the store.
    pub fn get_market_user(&self) -> (r: Option<User>)
        ensures
            match self.market_user_uid {
                Some(uid) => match r {
                    Some(u) => self.data@.users.contains_key(uid.0) && u@ == self.data@.users[uid.0],
                    None => !self.data@.users.contains_key(uid.0),
                },
                None => r is None,
            },
    {
        match self.market_user_uid {
            Some(uid) => user_table_get(&self.data.users, uid.0),
            None => None,
        }
    }

    /// The ledger host and the name of the market's account (`Unknown` where
    /// it is not registered).
    pub fn as_properties(&self) -> (r: AppProperties)
        ensures
            r.ledger_host@ == self.ledger_host@,
            r.market_username@ == match self.market_name() {
                Some(n) => n,
                None => "Unknown"@,
            },
    {
        let market_username = match self.get_market_user() {
            Some(u) => u.username,
            None => "Unknown".to_owned(),
        };
        AppProperties { ledger_host: self.ledger_host.clone(), market_username }
    }

    /// Registers the market's own account in the store, by its name: the user
    /// of that name where there is one, else a new one; and remembers it.
    pub fn register_market_user(&mut self) -> (r: UserUID)
        ensures
            final(self).ledger_host@ == old(self).ledger_host@,
            final(self).market_user_details.0@ == old(self).market_user_details.0@,
            final(self).market_user_details.1@ == old(self).market_user_details.1@,
            final(self).market_user_uid == Some(r),
            user_resolved(old(self).data@, old(self).market_user_details.0@, r.0, final(self).data@),
    {
        let name = self.market_user_details.0.clone();
        let uid = self.get_or_add_user(name.as_str());
        self.market_user_uid = Some(uid);
        uid
    }

    /// The identifier of the user called `username`, where there is one; else
    /// a new user of that name with no offers, under a fresh identifier.
    pub fn get_or_add_user(&mut self, username: &str) -> (r: UserUID)
        ensures
            Self::same_settings(final(self), old(self)),
            user_resolved(old(self).data@, username@, r.0, final(self).data@),
    {
        let name = username.to_owned();
        match self.data.find_user(&name) {
            Some(id) => id,
            None => {
                let keys = user_table_keys(&self.data.users);
                let id = fresh_id(&keys);
                let user = User::new(username);
                user_table_insert(&mut self.data.users, id, user);
                assert(self.data@.users =~= old(self).data@.users.insert(id, user@));
                assert(user@ =~= (UserView { username: username@, offer_ids: Set::empty() }));
                UserUID(id)
            },
        }
    }

    /// The identifier of the commodity called `commodity_name`, where there is
    /// one (its size and owners are left as they are); else a new commodity of
    /// that name, of size `amount` and owned by `owner_id`, under a fresh
    /// identifier.
    pub fn get_or_add_commodity(&mut self, commodity_name: &str, amount: u64, owner_id: UserUID) -> (r: CommodityUID)
        ensures
            Self::same_settings(final(self), old(self)),
            commodity_resolved(old(self).data@, commodity_name@, amount, owner_id.0, r.0, final(self).data@),
    {
        let name = commodity_name.to_owned();
        match self.data.find_commodity(&name) {
            Some(id) => id,
            None => {
                let keys = commodity_table_keys(&self.data.commodities);
                let id = fresh_id(&keys);
                let mut owners = new_id_set();
                id_set_insert(&mut owners, owner_id.0);
                let commodity = Commodity::new(commodity_name, Some(amount), Some(owners));
                commodity_table_insert(&mut self.data.commodities, id, commodity);
                assert(self.data@.commodities =~= old(self).data@.commodities.insert(id, commodity@));
                assert(commodity@ =~= (CommodityView {
                    name: commodity_name@,
                    size: amount,
                    owners: Set::empty().insert(owner_id.0),
                }));
                CommodityUID(id)
            },
        }
    }

    /// Stores `offer` under a fresh identifier.
    pub fn add_offer(&mut self, offer: Offer) -> (r: OfferUID)
        ensures
            Self::same_settings(final(self), old(self)),
            !old(self).data@.offers.contains_key(r.0),
            final(self).data@ == with_offer(old(self).data@, r.0, offer),
    {
        let keys = offer_table_keys(&self.data.offers);
        let id = fresh_id(&keys);
        offer_table_insert(&mut self.data.offers, id, offer);
        OfferUID(id)
    }

    /// Stores a new ask, stamped with the current time, under a fresh
    /// identifier.
    pub fn add_ask(&mut self, commodity_id: CommodityUID, user_id: UserUID, amount: u64, price_per_item: u64) -> (r: OfferUID)
        ensures
            Self::same_settings(final(self), old(self)),
            offer_added(old(self).data@, r.0, final(self).data@),
            final(self).data@.offers[r.0] == (Offer::Ask {
                user_id,
                commodity_id,
                timestamp: final(self).data@.offers[r.0].timestamp_spec(),
                item_amount: amount,
                price_per_item,
            }),
    {
        let timestamp = now_micros();
        self.add_offer(Offer::Ask { user_id, commodity_id, timestamp, item_amount: amount, price_per_item })
    }

    /// Stores a new bid, stamped with the current time, under a fresh
    /// identifier.
    pub fn add_bid(&mut self, commodity_id: CommodityUID, user_id: UserUID, amount: u64, price_per_item: u64) -> (r: OfferUID)
        ensures
            Self::same_settings(final(self), old(self)),
            offer_added(old(self).data@, r.0, final(self).data@),
            final(self).data@.offers[r.0] == (Offer::Bid {
                user_id,
                commodity_id,
                timestamp: final(self).data@.offers[r.0].timestamp_spec(),
                item_amount: amount,
                price_per_item,
            }),
    {
        let timestamp = now_micros();
        self.add_offer(Offer::Bid { user_id, commodity_id, timestamp, item_amount: amount, price_per_item })
    }

    /// Records the offer `offer_id` on the user `user_id`; nothing changes
    /// where there is no such user.
    pub fn attach_offer_to_user(&mut self, user_id: UserUID, offer_id: OfferUID)
        ensures
            Self::same_settings(final(self), old(self)),
            final(self).data@ == with_user_offer(old(self).data@, user_id.0, offer_id.0),
    {
        if let Some(mut user) = user_table_get(&self.data.users, user_id.0) {
            user.add_offer_id(offer_id.0);
            user_table_insert(&mut self.data.users, user_id.0, user);
            assert(self.data@.users =~= with_user_offer(old(self).data@, user_id.0, offer_id.0).users);
        }
    }

    /// Records the owner `owner_id` on the commodity `commodity_id`; nothing
    /// changes where there is no such commodity.
    pub fn attach_owner_to_commodity(&mut self, commodity_id: CommodityUID, owner_id: UserUID)
        ensures
            Self::same_settings(final(self), old(self)),
            final(self).data@ == with_commodity_owner(old(self).data@, commodity_id.0, owner_id.0),
    {
        if let Some(mut commodity) = commodity_table_get(&self.data.commodities, commodity_id.0) {
            commodity.add_owner_id(owner_id.0);
            commodity_table_insert(&mut self.data.commodities, commodity_id.0, commodity);
            assert(self.data@.commodities =~= with_commodity_owner(old(self).data@, commodity_id.0, owner_id.0).commodities);
        }
    }

    /// A page of the offers of kind `kind` (of the user called `username`,
    /// where one is given), first in the requested order, at most the
    /// requested number of them.
    pub fn list_offers(&self, kind: OfferKind, username: Option<&str>, params: &OfferQueryParams) -> (r: Result<Vec<Offer>, MarketError>)
        ensures
            match username {
                None => r is Ok && is_listing(
                    self.data@,
                    self.data@.offers.dom(),
                    kind,
                    effective_sort(params.sort_by),
                    effective_limit(params.limit) as nat,
                    r->Ok_0@,
                ),
                Some(name) => {
                    &&& r is Err <==> !has_user_named(self.data@, name@)
                    &&& r is Err ==> r->Err_0 == MarketError::NotFound
                    &&& r is Ok ==> exists|uid: u128| #[trigger] user_named(self.data@, uid, name@) && is_listing(
                        self.data@,
                        self.data@.users[uid].offer_ids,
                        kind,
                        effective_sort(params.sort_by),
                        effective_limit(params.limit) as nat,
                        r->Ok_0@,
                    )
                },
            },
    {
        let limit = clamp_limit(params.limit);
        let sort_by = match params.sort_by {
            Some(s) => s,
            None => OfferSortBy::DateDescending,
        };
        let ghost from: Set<u128>;
        let ghost mut uid: u128 = 0;
        let source = match username {
            None => {
                let keys = offer_table_keys(&self.data.offers);
                proof {
                    from = self.data@.offers.dom();
                }
                keys
            },
            Some(name) => {
                let name = name.to_owned();
                match self.data.find_user(&name) {
                    None => {
                        return Err(MarketError::NotFound);
                    },
                    Some(id) => match user_table_get(&self.data.users, id.0) {
                        None => {
                            return Err(MarketError::NotFound);
                        },
                        Some(user) => {
                            proof {
                                uid = id.0;
                                from = self.data@.users[uid].offer_ids;
                            }
                            user.get_offer_ids()
                        },
                    },
                }
            },
        };
        let (ids, offers) = self.data.gather(&source, kind);
        let page = select_offers(&offers, sort_by, limit);
        assert(is_top(offers_at(self.data@, ids@), page@, sort_by, limit as nat));
        proof {
            if username is Some {
                assert(user_named(self.data@, uid, username->0@));
            }
        }
        Ok(page)
    }

    /// The user `id`.
    pub fn lookup_user(&self, id: UserUID) -> (r: Result<User, MarketError>)
        ensures
            match r {
                Ok(u) => self.data@.users.contains_key(id.0) && u@ == self.data@.users[id.0],
                Err(e) => !self.data@.users.contains_key(id.0) && e == MarketError::NotFound,
            },
    {
        match user_table_get(&self.data.users, id.0) {
            Some(u) => Ok(u),
            None => Err(MarketError::NotFound),
        }
    }

    /// The commodity `id`.
    pub fn lookup_commodity(&self, id: CommodityUID) -> (r: Result<Commodity, MarketError>)
        ensures
            match r {
                Ok(c) => self.data@.commodities.contains_key(id.0) && c@ == self.data@.commodities[id.0],
                Err(e) => !self.data@.commodities.contains_key(id.0) && e == MarketError::NotFound,
            },
    {
        match commodity_table_get(&self.data.commodities, id.0) {
            Some(c) => Ok(c),
            None => Err(MarketError::NotFound),
        }
    }
}

} // verus!
