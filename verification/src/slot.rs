//! Consensus slots and the node parameters they are derived from.

use std::cmp::Ordering;
use vstd::prelude::*;

verus! {

/// A discrete consensus round-slot: a period and a thread within it. Slots
/// are ordered by period, and within a period by thread.
#[derive(Clone, Copy, Debug, PartialEq, Eq, Ord, Hash)]
pub struct Slot {
    pub period: u64,
    pub thread: u8,
}

impl Slot {
    /// The slot of `thread` in `period`.
    pub fn new(period: u64, thread: u8) -> (slot: Slot)
        ensures
            slot == (Slot { period, thread }),
    {
        Slot { period, thread }
    }

    /// Whether this slot comes strictly before `other`.
    pub open spec fn precedes(self, other: Slot) -> bool {
        self.period < other.period || (self.period == other.period && self.thread < other.thread)
    }
}

impl PartialOrd for Slot {
    fn partial_cmp(&self, other: &Slot) -> (order: Option<Ordering>) {
        if self.period < other.period {
            Some(Ordering::Less)
        } else if self.period > other.period {
            Some(Ordering::Greater)
        } else if self.thread < other.thread {
            Some(Ordering::Less)
        } else if self.thread > other.thread {
            Some(Ordering::Greater)
        } else {
            Some(Ordering::Equal)
        }
    }
}

impl vstd::std_specs::cmp::PartialOrdSpecImpl for Slot {
    open spec fn obeys_partial_cmp_spec() -> bool {
        true
    }

    open spec fn partial_cmp_spec(&self, other: &Slot) -> Option<Ordering> {
        if self.precedes(*other) {
            Some(Ordering::Less)
        } else if other.precedes(*self) {
            Some(Ordering::Greater)
        } else {
            Some(Ordering::Equal)
        }
    }
}

/// Of two slots exactly one holds: the first comes before the second, they
/// are the same slot, or the second comes before the first.
pub proof fn lemma_slot_order_total(a: Slot, b: Slot)
    ensures
        a.precedes(b) || a == b || b.precedes(a),
        !(a.precedes(b) && b.precedes(a)),
        !a.precedes(a),
{
}

/// The order of slots is transitive.
pub proof fn lemma_slot_order_transitive(a: Slot, b: Slot, c: Slot)
    requires
        a.precedes(b),
        b.precedes(c),
    ensures
        a.precedes(c),
{
}

/// The consensus parameters of a node that an operation build reads. They
/// do not change during a node session and are fetched anew for each build.
#[derive(Clone, Copy, Debug, PartialEq, Eq)]
pub struct NodeConfig {
    /// Number of parallel block-production threads.
    pub thread_count: u8,
    /// Duration of a period, in milliseconds.
    pub t0: u64,
    /// Time of the first slot, in milliseconds since the Unix epoch.
    pub genesis_timestamp: u64,
    /// Number of periods an operation stays valid.
    pub operation_validity_periods: u64,
}

} // verus!
