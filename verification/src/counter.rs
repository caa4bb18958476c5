//! The counter record as the store keeps it, and what atomic increments do
//! to it. The store applies each increment as one indivisible step, so any
//! number of concurrent visits reaches the record as a sequence of steps.

use vstd::prelude::*;

verus! {

/// The count that a record stands for. A record that does not exist yet
/// counts as zero: the first increment creates it.
pub open spec fn count_of(visits: Option<nat>) -> nat {
    match visits {
        Some(n) => n,
        None => 0,
    }
}

/// The record after one increment.
pub open spec fn incremented(visits: Option<nat>) -> Option<nat> {
    Some(count_of(visits) + 1)
}

/// The record after `n` increments, applied one after another.
pub open spec fn after_visits(visits: Option<nat>, n: nat) -> Option<nat>
    decreases n,
{
    if n == 0 {
        visits
    } else {
        incremented(after_visits(visits, (n - 1) as nat))
    }
}

/// The value that the increment with index `k` observes, counting the
/// increments from zero in the order in which the store applies them.
pub open spec fn observed_by(visits: Option<nat>, k: nat) -> nat {
    count_of(after_visits(visits, k + 1))
}

/// After `n` increments that all succeeded, the count is the initial count
/// plus `n`.
pub proof fn lemma_visits_add_up(visits: Option<nat>, n: nat)
    ensures
        count_of(after_visits(visits, n)) == count_of(visits) + n,
    decreases n,
{
    if n > 0 {
        lemma_visits_add_up(visits, (n - 1) as nat);
    }
}

/// The count never decreases: after more increments it is at least what it
/// was after fewer.
pub proof fn lemma_count_never_decreases(visits: Option<nat>, fewer: nat, more: nat)
    requires
        fewer <= more,
    ensures
        count_of(after_visits(visits, fewer)) <= count_of(after_visits(visits, more)),
{
    lemma_visits_add_up(visits, fewer);
    lemma_visits_add_up(visits, more);
}

/// An increment observes a value at least one greater than any increment
/// that the store applied before it.
pub proof fn lemma_later_visit_observes_more(visits: Option<nat>, earlier: nat, later: nat)
    requires
        earlier < later,
    ensures
        observed_by(visits, earlier) + 1 <= observed_by(visits, later),
{
    lemma_visits_add_up(visits, earlier + 1);
    lemma_visits_add_up(visits, later + 1);
}

/// A counter record held in memory, for callers that need one in place of
/// the store.
#[derive(Clone, Copy, Debug, PartialEq, Eq, Structural)]
pub struct CounterRecord {
    /// The count, or `None` while the record does not exist.
    pub visits: Option<u64>,
}

impl View for CounterRecord {
    type V = Option<nat>;

    open spec fn view(&self) -> Option<nat> {
        match self.visits {
            Some(n) => Some(n as nat),
            None => None,
        }
    }
}

impl CounterRecord {
    /// A store in which the record does not exist yet.
    pub fn new() -> (record: CounterRecord)
        ensures
            record@ is None,
    {
        CounterRecord { visits: None }
    }

    /// Adds one to the count and returns the new value, in one step. A
    /// count that a `u64` cannot hold is refused, and the record stays as
    /// it was.
    pub fn increment(&mut self) -> (observed: Option<u64>)
        ensures
            count_of(old(self)@) < u64::MAX ==> final(self)@ == incremented(old(self)@)
                && observed == Some(count_of(final(self)@) as u64),
            count_of(old(self)@) >= u64::MAX ==> *final(self) == *old(self) && observed is None,
    {
        let current: u64 = match self.visits {
            Some(n) => n,
            None => 0,
        };
        if current == u64::MAX {
            return None;
        }
        let next: u64 = current + 1;
        self.visits = Some(next);
        Some(next)
    }
}

} // verus!
