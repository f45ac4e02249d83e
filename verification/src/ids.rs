//! Correlation-identifier allocation.
//!
//! Invocation ids and stream ids come from a collision-resistant random
//! generator, so that concurrent invocations on one connection do not need
//! any shared mutable state to stay distinct.  Within one invocation,
//! distinctness is not left to chance: [`allocate_id`] checks the candidate
//! against every id already recorded and, in the (practically unreachable)
//! case of a collision, extends it until it differs from all of them, so a
//! caller holds an unconditional guarantee of freshness.

use vstd::prelude::*;
use vstd::string::StringExecFns;

verus! {

/// Relies on `uuid::Uuid::new_v4` and its `Display` form: draws a random
/// version-4 UUID and renders it as its hyphenated text.  The result is
/// random; nothing is promised of it.
#[verifier::external_body]
fn random_correlation_id() -> String {
    uuid::Uuid::new_v4().to_string()
}

/// The length of the longest id in `ids` (0 when `ids` is empty).
pub open spec fn max_id_len(ids: Seq<Seq<char>>) -> int
    decreases ids.len(),
{
    if ids.len() == 0 {
        0
    } else {
        let rest = max_id_len(ids.drop_first());
        if ids.first().len() > rest {
            ids.first().len() as int
        } else {
            rest
        }
    }
}

/// Every member of `ids` is at most `max_id_len(ids)` long.
proof fn lemma_max_id_len(ids: Seq<Seq<char>>, x: Seq<char>)
    requires
        ids.contains(x),
    ensures
        x.len() <= max_id_len(ids),
    decreases ids.len(),
{
    let i = choose|i: int| 0 <= i < ids.len() && ids[i] == x;
    if i == 0 {
        assert(ids.first() == x);
    } else {
        assert(ids.drop_first()[i - 1] == x);
        assert(ids.drop_first().contains(x));
        lemma_max_id_len(ids.drop_first(), x);
    }
}

/// Reports whether `candidate` differs from every id in `existing`.
pub fn is_fresh_id(existing: &Vec<String>, candidate: &String) -> (r: bool)
    ensures
        r == !existing.deep_view().contains(candidate@),
{
    let mut i: usize = 0;
    while i < existing.len()
        invariant
            i <= existing@.len(),
            forall|j: int| 0 <= j < i ==> existing.deep_view()[j] != candidate@,
        decreases existing@.len() - i,
    {
        if existing[i] == *candidate {
            assert(existing.deep_view()[i as int] == candidate@);
            return false;
        }
        i += 1;
    }
    assert(forall|j: int|
        0 <= j < existing.deep_view().len() ==> existing.deep_view()[j] != candidate@);
    true
}

/// Extends `candidate` until it differs from every id in `existing`.
///
/// A string longer than the longest member of `existing` cannot be a
/// member, so each extension step brings the candidate closer to that
/// length bound and the search terminates.
fn grow_until_fresh(existing: &Vec<String>, candidate: String) -> (r: String)
    ensures
        !existing.deep_view().contains(r@),
    decreases max_id_len(existing.deep_view()) + 1 - candidate@.len(),
{
    if is_fresh_id(existing, &candidate) {
        candidate
    } else {
        proof {
            lemma_max_id_len(existing.deep_view(), candidate@);
            reveal_strlit("x");
        }
        let mut extended = candidate;
        extended.append("x");
        grow_until_fresh(existing, extended)
    }
}

/// Allocates a correlation id that differs from every id in `existing`.
///
/// The id is drawn from the random generator; the freshness guarantee is
/// established by an explicit check, not by the statistics of the draw.
pub fn allocate_id(existing: &Vec<String>) -> (r: String)
    ensures
        !existing.deep_view().contains(r@),
{
    let candidate = random_correlation_id();
    grow_until_fresh(existing, candidate)
}

} // verus!
