//! The idempotency guard: a set of transaction ids whose delivery has
//! already been processed, with an atomic test-and-insert.

use std::collections::HashSet;
use vstd::prelude::*;

verus! {

broadcast use vstd::std_specs::hash::group_hash_axioms;

/// One test-and-insert on the seen set: the set afterwards, and whether the
/// id was new.
pub open spec fn mark_step(seen: Set<i64>, transaction_id: i64) -> (Set<i64>, bool) {
    (seen.insert(transaction_id), !seen.contains(transaction_id))
}

/// The set after a series of deliveries.
pub open spec fn seen_after(seen: Set<i64>, ids: Seq<i64>) -> Set<i64>
    decreases ids.len(),
{
    if ids.len() == 0 {
        seen
    } else {
        seen_after(mark_step(seen, ids[0]).0, ids.drop_first())
    }
}

/// How many deliveries of `transaction_id`, in a series of deliveries of any
/// ids, report it as new.
pub open spec fn new_count(seen: Set<i64>, ids: Seq<i64>, transaction_id: i64) -> nat
    decreases ids.len(),
{
    if ids.len() == 0 {
        0
    } else {
        let (next, is_new) = mark_step(seen, ids[0]);
        (if ids[0] == transaction_id && is_new {
            1nat
        } else {
            0nat
        }) + new_count(next, ids.drop_first(), transaction_id)
    }
}

/// How often `transaction_id` occurs in a series of deliveries.
pub open spec fn delivery_count(ids: Seq<i64>, transaction_id: i64) -> nat
    decreases ids.len(),
{
    if ids.len() == 0 {
        0
    } else {
        (if ids[0] == transaction_id {
            1nat
        } else {
            0nat
        }) + delivery_count(ids.drop_first(), transaction_id)
    }
}

/// However the deliveries of an id are interleaved with others, exactly one
/// of them reports it new when it was not seen before (none when it was),
/// and all the others report it as already processed.
pub proof fn lemma_exactly_once(seen: Set<i64>, ids: Seq<i64>, transaction_id: i64)
    ensures
        new_count(seen, ids, transaction_id) == (if seen.contains(transaction_id)
            || delivery_count(ids, transaction_id) == 0 {
            0nat
        } else {
            1nat
        }),
        new_count(seen, ids, transaction_id) <= delivery_count(ids, transaction_id),
        seen_after(seen, ids).contains(transaction_id) <==> (seen.contains(transaction_id)
            || delivery_count(ids, transaction_id) > 0),
    decreases ids.len(),
{
    if ids.len() > 0 {
        lemma_exactly_once(mark_step(seen, ids[0]).0, ids.drop_first(), transaction_id);
    }
}

/// The ids already processed.
pub struct ProcessedSet {
    seen: HashSet<i64>,
}

impl View for ProcessedSet {
    type V = Set<i64>;

    closed spec fn view(&self) -> Set<i64> {
        self.seen@
    }
}

impl ProcessedSet {
    pub fn new() -> (r: ProcessedSet)
        ensures
            r@ == Set::<i64>::empty(),
    {
        ProcessedSet { seen: HashSet::new() }
    }

    /// Inserts `transaction_id` and reports whether it was absent: `true`
    /// for the first delivery of an id only.
    pub fn mark_if_new(&mut self, transaction_id: i64) -> (is_new: bool)
        ensures
            (final(self)@, is_new) == mark_step(old(self)@, transaction_id),
    {
        self.seen.insert(transaction_id)
    }

    pub fn contains(&self, transaction_id: i64) -> (r: bool)
        ensures
            r == self@.contains(transaction_id),
    {
        self.seen.contains(&transaction_id)
    }
}

} // verus!
