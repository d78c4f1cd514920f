//! The per-user warning ledger.
//!
//! `WarnLedger` owns every warning counter. A counter is read and written
//! only through the ledger's methods, and `increment` mutates it as a single
//! atomic unit behind `&mut self`: exclusive access for the whole
//! read-increment-write makes lost updates impossible, whatever the
//! interleaving of message events. `lemma_no_lost_updates` states that
//! guarantee over any sequence of increments.

use std::collections::HashMap;
use vstd::prelude::*;

verus! {

broadcast use vstd::std_specs::hash::group_hash_axioms;

/// The warning count a ledger state holds for a user: the stored count, or
/// zero when the user has no record yet.
pub open spec fn ledger_count(m: Map<u64, u64>, user_id: u64) -> u64 {
    if m.contains_key(user_id) {
        m[user_id]
    } else {
        0
    }
}

/// One increment of a user's counter, applied to a ledger state.
pub open spec fn bump(m: Map<u64, u64>, user_id: u64) -> Map<u64, u64> {
    m.insert(user_id, (ledger_count(m, user_id) + 1) as u64)
}

/// A sequence of increments, one per event, applied in order.
pub open spec fn apply_increments(m: Map<u64, u64>, events: Seq<u64>) -> Map<u64, u64>
    decreases events.len(),
{
    if events.len() == 0 {
        m
    } else {
        apply_increments(bump(m, events[0]), events.drop_first())
    }
}

/// How many of the events concern the given user.
pub open spec fn occurrences(events: Seq<u64>, user_id: u64) -> nat
    decreases events.len(),
{
    if events.len() == 0 {
        0
    } else {
        (if events[0] == user_id {
            1nat
        } else {
            0nat
        }) + occurrences(events.drop_first(), user_id)
    }
}

/// One user's row of the warning ledger, as handed to the persistence
/// store: the user and the count on record.
#[derive(Clone, Copy, PartialEq, Eq, Structural, Debug)]
pub struct WarnRecord {
    pub user_id: u64,
    pub warn_count: u64,
}

/// The per-user persisted violation counter.
///
/// Counts start at zero, never go negative, and move only through
/// `increment` and `reset`.
pub struct WarnLedger {
    counts: HashMap<u64, u64>,
}

impl View for WarnLedger {
    type V = Map<u64, u64>;

    closed spec fn view(&self) -> Map<u64, u64> {
        self.counts@
    }
}

impl WarnLedger {
    /// The warning count currently on record for a user.
    pub open spec fn spec_current(self, user_id: u64) -> u64 {
        ledger_count(self@, user_id)
    }

    /// An empty ledger: no user has a warning yet.
    pub fn new() -> (l: Self)
        ensures
            l@ == Map::<u64, u64>::empty(),
            forall|u: u64| l.spec_current(u) == 0,
    {
        WarnLedger { counts: HashMap::new() }
    }

    /// Read-only query of a user's count; zero when no record exists.
    pub fn current(&self, user_id: u64) -> (c: u64)
        ensures
            c == self.spec_current(user_id),
    {
        match self.counts.get(&user_id) {
            Some(c) => *c,
            None => 0,
        }
    }

    /// Atomically increments a user's counter and returns the new count,
    /// creating the record with count one on a first violation.
    ///
    /// The read and the write form one unit behind the exclusive borrow: two
    /// increments for the same user can never lose an update, whichever
    /// lands first.
    pub fn increment(&mut self, user_id: u64) -> (c: u64)
        requires
            old(self).spec_current(user_id) < u64::MAX,
        ensures
            c == old(self).spec_current(user_id) + 1,
            final(self)@ == bump(old(self)@, user_id),
            final(self).spec_current(user_id) == c,
            forall|v: u64|
                v != user_id ==> final(self).spec_current(v) == old(self).spec_current(v),
    {
        let prior: u64 = match self.counts.get(&user_id) {
            Some(c) => *c,
            None => 0,
        };
        let next: u64 = prior + 1;
        self.counts.insert(user_id, next);
        next
    }

    /// The row to hand to the persistence store for a user: the user and
    /// the count currently on record.
    pub fn record_for(&self, user_id: u64) -> (rec: WarnRecord)
        ensures
            rec.user_id == user_id,
            rec.warn_count == self.spec_current(user_id),
    {
        WarnRecord { user_id, warn_count: self.current(user_id) }
    }

    /// Sets a user's count back to zero; used for administrative resets.
    pub fn reset(&mut self, user_id: u64)
        ensures
            final(self)@ == old(self)@.insert(user_id, 0),
            final(self).spec_current(user_id) == 0,
            forall|v: u64|
                v != user_id ==> final(self).spec_current(v) == old(self).spec_current(v),
    {
        self.counts.insert(user_id, 0);
    }
}

/// No lost updates: after any sequence of increments, a user's count has
/// grown by exactly the number of increments addressed to that user, for any
/// interleaving with other users' events.
///
/// Each `increment` call holds the ledger exclusively for its whole
/// read-increment-write, so any concurrent schedule of increments lands as
/// some such sequence; this lemma says every order gives the same count.
pub proof fn lemma_no_lost_updates(m: Map<u64, u64>, events: Seq<u64>, user_id: u64)
    requires
        ledger_count(m, user_id) + occurrences(events, user_id) <= u64::MAX,
    ensures
        ledger_count(apply_increments(m, events), user_id) == ledger_count(m, user_id)
            + occurrences(events, user_id),
    decreases events.len(),
{
    if events.len() > 0 {
        lemma_no_lost_updates(bump(m, events[0]), events.drop_first(), user_id);
    }
}

/// Calling `increment(U)` N times, starting from a fresh ledger and in any
/// interleaving with other users' increments, leaves `current(U) == N`.
pub proof fn lemma_fresh_ledger_counts_every_increment(events: Seq<u64>, user_id: u64)
    requires
        occurrences(events, user_id) <= u64::MAX,
    ensures
        ledger_count(apply_increments(Map::<u64, u64>::empty(), events), user_id)
            == occurrences(events, user_id),
{
    lemma_no_lost_updates(Map::<u64, u64>::empty(), events, user_id);
}

} // verus!
