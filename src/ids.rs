//! Fresh identifiers and the clock.
use vstd::prelude::*;
use vstd::set_lib::lemma_len_subset;
use vstd::seq_lib::seq_to_set_is_finite;

verus! {

/// Relies on `uuid::Uuid::new_v4`: a random 128-bit identifier. Nothing is
/// known of its value.
#[verifier::external_body]
fn random_id() -> (r: u128) {
    uuid::Uuid::new_v4().as_u128()
}

/// Relies on `chrono::Utc::now`: the current time, in microseconds since the
/// Unix epoch. Nothing is known of its value.
#[verifier::external_body]
pub(crate) fn now_micros() -> (r: i64) {
    chrono::Utc::now().timestamp_micros()
}

/// The `j`-th value after `start`, wrapping round at the top of the range.
pub open spec fn probe(start: u128, j: int) -> u128 {
    if start + j <= u128::MAX {
        (start + j) as u128
    } else {
        (start + j - u128::MAX - 1) as u128
    }
}

/// Whether `ids` holds `x`.
pub fn contains_id(ids: &Vec<u128>, x: u128) -> (r: bool)
    ensures
        r == ids@.contains(x),
{
    let mut i: usize = 0;
    while i < ids.len()
        invariant
            i <= ids@.len(),
            forall|j: int| 0 <= j < i ==> ids@[j] != x,
        decreases ids@.len() - i,
    {
        if ids[i] == x {
            return true;
        }
        i = i + 1;
    }
    false
}

/// An identifier that `taken` does not hold: a random one, or, where that one
/// is taken, the first free value after it.
pub fn fresh_id(taken: &Vec<u128>) -> (r: u128)
    ensures
        !taken@.contains(r),
{
    let n = taken.len();
    let start = random_id();
    let mut cand = start;
    let mut i: usize = 0;
    let ghost mut tried: Seq<u128> = Seq::empty();
    while contains_id(taken, cand)
        invariant
            i <= taken@.len(),
            n == taken@.len(),
            tried.len() == i,
            cand == probe(start, i as int),
            forall|j: int| 0 <= j < i ==> tried[j] == probe(start, j),
            forall|j: int| 0 <= j < i ==> taken@.contains(#[trigger] tried[j]),
        decreases taken@.len() - i,
    {
        proof {
            let next = tried.push(cand);
            assert(next.no_duplicates()) by {
                assert forall|a: int, b: int| 0 <= a < next.len() && 0 <= b < next.len() && a != b
                    implies next[a] != next[b] by {
                    assert(next[a] == probe(start, a));
                    assert(next[b] == probe(start, b));
                }
            }
            next.unique_seq_to_set();
            assert(next.to_set().subset_of(taken@.to_set()));
            seq_to_set_is_finite(taken@);
            lemma_len_subset(next.to_set(), taken@.to_set());
            taken@.lemma_cardinality_of_set();
            assert(next.len() <= n);
            tried = next;
        }
        cand = if cand == u128::MAX {
            0
        } else {
            cand + 1
        };
        i = i + 1;
    }
    cand
}

} // verus!
