//! Listing offers: filtering, ordering and bounded pages.
use crate::offer::Offer;
use std::cmp::Ordering;
use vstd::prelude::*;

verus! {

/// The largest number of offers that one listing returns.
pub const MAX_OFFER_RESPONSE: usize = 1000;

/// The number of offers that a listing returns when none is asked for.
pub const DEFAULT_OFFER_LIMIT: usize = 100;

/// The order of a listing.
#[derive(Clone, Copy, Debug, PartialEq, Eq, Structural)]
pub enum OfferSortBy {
    DateAscending,
    DateDescending,
    TotalCostAscending,
    TotalCostDescending,
}

impl Default for OfferSortBy {
    fn default() -> (r: OfferSortBy)
        ensures
            r == OfferSortBy::DateDescending,
    {
        OfferSortBy::DateDescending
    }
}

/// What a listing request may say of its page.
#[derive(Clone, Copy, Debug, PartialEq, Eq, Structural)]
pub struct OfferQueryParams {
    pub limit: Option<usize>,
    pub sort_by: Option<OfferSortBy>,
}

impl Default for OfferQueryParams {
    fn default() -> (r: OfferQueryParams)
        ensures
            r.limit == Some(DEFAULT_OFFER_LIMIT),
            r.sort_by == Some(OfferSortBy::DateDescending),
    {
        OfferQueryParams { limit: Some(DEFAULT_OFFER_LIMIT), sort_by: Some(OfferSortBy::DateDescending) }
    }
}

/// `item_amount * price_per_item`, or the largest `u64` where the product
/// does not fit.
pub open spec fn total_cost_spec(o: Offer) -> u64 {
    if o.item_amount_spec() * o.price_per_item_spec() <= u64::MAX {
        (o.item_amount_spec() * o.price_per_item_spec()) as u64
    } else {
        u64::MAX
    }
}

/// The value that `sort_by` compares.
pub open spec fn sort_key(sort_by: OfferSortBy, o: Offer) -> int {
    match sort_by {
        OfferSortBy::DateAscending | OfferSortBy::DateDescending => o.timestamp_spec() as int,
        OfferSortBy::TotalCostAscending | OfferSortBy::TotalCostDescending => total_cost_spec(o) as int,
    }
}

/// Whether `a` comes strictly before `b` in the order `sort_by`.
pub open spec fn precedes(sort_by: OfferSortBy, a: Offer, b: Offer) -> bool {
    match sort_by {
        OfferSortBy::DateAscending | OfferSortBy::TotalCostAscending => sort_key(sort_by, a) < sort_key(sort_by, b),
        OfferSortBy::DateDescending | OfferSortBy::TotalCostDescending => sort_key(sort_by, a) > sort_key(sort_by, b),
    }
}

/// The number of offers that a listing with the requested `limit` returns at
/// most: the default where none is given, and the largest page where the
/// request is zero or above it.
pub open spec fn effective_limit(limit: Option<usize>) -> usize {
    let l = match limit {
        Some(l) => l,
        None => DEFAULT_OFFER_LIMIT,
    };
    if l == 0 || l > MAX_OFFER_RESPONSE {
        MAX_OFFER_RESPONSE
    } else {
        l
    }
}

/// The order that a listing uses.
pub open spec fn effective_sort(sort_by: Option<OfferSortBy>) -> OfferSortBy {
    match sort_by {
        Some(s) => s,
        None => OfferSortBy::DateDescending,
    }
}

/// Whether `r`, listed from `c`, is made of the entries of `c` at the
/// distinct positions `idx`, in order, and no entry of `c` left out comes
/// before an entry of `r`.
pub open spec fn selected_at(c: Seq<Offer>, r: Seq<Offer>, idx: Seq<int>, sort_by: OfferSortBy) -> bool {
    &&& idx.len() == r.len()
    &&& idx.no_duplicates()
    &&& forall|i: int| 0 <= i < idx.len() ==> 0 <= #[trigger] idx[i] < c.len() && r[i] == c[idx[i]]
    &&& forall|i: int, j: int| 0 <= i < j < r.len() ==> !precedes(sort_by, #[trigger] r[j], #[trigger] r[i])
    &&& forall|j: int, i: int|
        0 <= j < c.len() && !idx.contains(j) && 0 <= i < r.len() ==> !precedes(sort_by, #[trigger] c[j], #[trigger] r[i])
}

/// Whether `r` is a first page of `c` in the order `sort_by`: the first
/// `min(k, |c|)` entries of some ordering of `c`.
pub open spec fn is_top(c: Seq<Offer>, r: Seq<Offer>, sort_by: OfferSortBy, k: nat) -> bool {
    &&& r.len() == if k < c.len() { k } else { c.len() }
    &&& exists|idx: Seq<int>| selected_at(c, r, idx, sort_by)
}

/// `item_amount * price_per_item`, saturating at the largest `u64`.
pub fn total_cost(o: &Offer) -> (r: u64)
    ensures
        r == total_cost_spec(*o),
{
    let a = o.item_amount();
    let p = o.price_per_item();
    let a_wide = a as u128;
    let p_wide = p as u128;
    assert(a_wide * p_wide <= u64::MAX as int * u64::MAX as int) by (nonlinear_arith)
        requires
            a_wide <= u64::MAX,
            p_wide <= u64::MAX,
    ;
    let t = a_wide * p_wide;
    if t > u64::MAX as u128 {
        u64::MAX
    } else {
        t as u64
    }
}

fn key_of(sort_by: OfferSortBy, o: &Offer) -> (r: i128)
    ensures
        r == sort_key(sort_by, *o),
{
    match sort_by {
        OfferSortBy::DateAscending | OfferSortBy::DateDescending => o.timestamp() as i128,
        OfferSortBy::TotalCostAscending | OfferSortBy::TotalCostDescending => total_cost(o) as i128,
    }
}

/// Whether `a` comes strictly before `b` in the order `sort_by`.
pub fn comes_before(sort_by: OfferSortBy, a: &Offer, b: &Offer) -> (r: bool)
    ensures
        r == precedes(sort_by, *a, *b),
{
    let ka = key_of(sort_by, a);
    let kb = key_of(sort_by, b);
    match sort_by {
        OfferSortBy::DateAscending | OfferSortBy::TotalCostAscending => ka < kb,
        OfferSortBy::DateDescending | OfferSortBy::TotalCostDescending => ka > kb,
    }
}

/// How `a` and `b` compare in the order `sort_by`: newer or older first by
/// creation time, dearer or cheaper first by total cost.
pub fn offer_sort(sort_by: OfferSortBy, a: &Offer, b: &Offer) -> (r: Ordering)
    ensures
        r == Ordering::Less <==> precedes(sort_by, *a, *b),
        r == Ordering::Greater <==> precedes(sort_by, *b, *a),
{
    if comes_before(sort_by, a, b) {
        Ordering::Less
    } else if comes_before(sort_by, b, a) {
        Ordering::Greater
    } else {
        Ordering::Equal
    }
}

/// The number of offers that a listing with the requested `limit` returns at
/// most.
pub fn clamp_limit(limit: Option<usize>) -> (r: usize)
    ensures
        r == effective_limit(limit),
{
    let l = match limit {
        Some(l) => l,
        None => DEFAULT_OFFER_LIMIT,
    };
    if l == 0 || l > MAX_OFFER_RESPONSE {
        MAX_OFFER_RESPONSE
    } else {
        l
    }
}

/// The first `k` offers of `c` in the order `sort_by`; offers that compare
/// equal may come in any order.
pub fn select_offers(c: &Vec<Offer>, sort_by: OfferSortBy, k: usize) -> (r: Vec<Offer>)
    ensures
        is_top(c@, r@, sort_by, k as nat),
{
    let n = c.len();
    let m = if k < n {
        k
    } else {
        n
    };
    let mut v: Vec<Offer> = Vec::new();
    let mut t: usize = 0;
    while t < n
        invariant
            t <= n,
            n == c@.len(),
            v@ == c@.subrange(0, t as int),
        decreases n - t,
    {
        v.push(c[t]);
        assert(v@ == c@.subrange(0, t + 1));
        t = t + 1;
    }
    assert(v@ == c@);
    let ghost mut p: Seq<int> = Seq::new(n as nat, |t: int| t);
    let ghost mut q: Seq<int> = Seq::new(n as nat, |t: int| t);
    let mut i: usize = 0;
    while i < m
        invariant
            m <= n,
            n == c@.len(),
            v@.len() == n,
            i <= m,
            p.len() == n,
            q.len() == n,
            forall|t: int| 0 <= t < n ==> 0 <= #[trigger] p[t] < n && q[p[t]] == t,
            forall|t: int| 0 <= t < n ==> 0 <= #[trigger] q[t] < n && p[q[t]] == t,
            forall|t: int| 0 <= t < n ==> #[trigger] v@[t] == c@[p[t]],
            forall|s: int, t: int| 0 <= s < t < i ==> !precedes(sort_by, #[trigger] v@[t], #[trigger] v@[s]),
            forall|s: int, t: int| 0 <= s < i <= t < n ==> !precedes(sort_by, #[trigger] v@[t], #[trigger] v@[s]),
        decreases m - i,
    {
        let mut best: usize = i;
        let mut j: usize = i + 1;
        while j < n
            invariant
                i < m <= n,
                v@.len() == n,
                i <= best < n,
                best < j <= n,
                forall|t: int| i <= t < j ==> !precedes(sort_by, #[trigger] v@[t], v@[best as int]),
            decreases n - j,
        {
            if comes_before(sort_by, &v[j], &v[best]) {
                best = j;
            }
            j = j + 1;
        }
        let a = v[i];
        let b = v[best];
        v.set(i, b);
        v.set(best, a);
        proof {
            let pi = p[i as int];
            let pb = p[best as int];
            p = p.update(i as int, pb).update(best as int, pi);
            q = q.update(pi, best as int).update(pb, i as int);
        }
        i = i + 1;
    }
    let mut r: Vec<Offer> = Vec::new();
    let mut t: usize = 0;
    while t < m
        invariant
            t <= m <= n,
            v@.len() == n,
            r@ == v@.subrange(0, t as int),
        decreases m - t,
    {
        r.push(v[t]);
        assert(r@ == v@.subrange(0, t + 1));
        t = t + 1;
    }
    proof {
        let idx = p.subrange(0, m as int);
        assert forall|a: int, b: int| 0 <= a < idx.len() && 0 <= b < idx.len() && a != b
            implies idx[a] != idx[b] by {
            assert(q[p[a]] == a);
            assert(q[p[b]] == b);
        }
        assert forall|j: int, s: int|
            0 <= j < c@.len() && !idx.contains(j) && 0 <= s < r@.len()
            implies !precedes(sort_by, #[trigger] c@[j], #[trigger] r@[s]) by {
            let u = q[j];
            if u < m {
                assert(idx[u] == j);
            }
            assert(c@[j] == v@[u]);
        }
        assert(selected_at(c@, r@, idx, sort_by));
    }
    r
}

} // verus!
