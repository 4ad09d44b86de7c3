//! The mathematical model of the statistics counters: an unbounded quintuple
//! of counts, the effect a single event has on it, and the effect of a whole
//! sequence of events.
use crate::events::AllocAction;
use crate::events::Layout;
use vstd::prelude::*;

verus! {

/// The five running counters, over unbounded integers. This is the
/// specification-level view of a counters snapshot: call counts for alloc,
/// dealloc and realloc, and cumulative byte counts allocated and deallocated.
pub ghost struct Counters {
    /// Number of calls to alloc and alloc_zeroed.
    pub alloc: int,
    /// Number of calls to dealloc.
    pub dealloc: int,
    /// Number of calls to realloc.
    pub realloc: int,
    /// Total bytes requested by alloc, alloc_zeroed and realloc.
    pub bytes_alloc: int,
    /// Total bytes given up through dealloc and realloc.
    pub bytes_dealloc: int,
}

impl Counters {
    /// The all-zero counters, the initial state of every aggregator.
    pub open spec fn zero() -> Counters {
        Counters { alloc: 0, dealloc: 0, realloc: 0, bytes_alloc: 0, bytes_dealloc: 0 }
    }

    /// Field-wise sum.
    pub open spec fn plus(self, other: Counters) -> Counters {
        Counters {
            alloc: self.alloc + other.alloc,
            dealloc: self.dealloc + other.dealloc,
            realloc: self.realloc + other.realloc,
            bytes_alloc: self.bytes_alloc + other.bytes_alloc,
            bytes_dealloc: self.bytes_dealloc + other.bytes_dealloc,
        }
    }

    /// Field-wise difference: the activity between two snapshots.
    pub open spec fn minus(self, other: Counters) -> Counters {
        Counters {
            alloc: self.alloc - other.alloc,
            dealloc: self.dealloc - other.dealloc,
            realloc: self.realloc - other.realloc,
            bytes_alloc: self.bytes_alloc - other.bytes_alloc,
            bytes_dealloc: self.bytes_dealloc - other.bytes_dealloc,
        }
    }

    /// Whether every counter fits in a machine word, so that a concrete
    /// snapshot can hold this value.
    pub open spec fn fits(self) -> bool {
        &&& 0 <= self.alloc <= usize::MAX
        &&& 0 <= self.dealloc <= usize::MAX
        &&& 0 <= self.realloc <= usize::MAX
        &&& 0 <= self.bytes_alloc <= usize::MAX
        &&& 0 <= self.bytes_dealloc <= usize::MAX
    }

    /// Field-wise order: `self` is no counter ahead of `other`.
    pub open spec fn le(self, other: Counters) -> bool {
        &&& self.alloc <= other.alloc
        &&& self.dealloc <= other.dealloc
        &&& self.realloc <= other.realloc
        &&& self.bytes_alloc <= other.bytes_alloc
        &&& self.bytes_dealloc <= other.bytes_dealloc
    }
}

/// `x`, capped at the largest value a machine word can hold.
pub open spec fn cap_at_usize(x: int) -> int {
    if x > usize::MAX {
        usize::MAX as int
    } else {
        x
    }
}

impl Counters {
    /// Field-wise sum, each field capped at the largest machine word.
    pub open spec fn saturating_plus(self, other: Counters) -> Counters {
        Counters {
            alloc: cap_at_usize(self.alloc + other.alloc),
            dealloc: cap_at_usize(self.dealloc + other.dealloc),
            realloc: cap_at_usize(self.realloc + other.realloc),
            bytes_alloc: cap_at_usize(self.bytes_alloc + other.bytes_alloc),
            bytes_dealloc: cap_at_usize(self.bytes_dealloc + other.bytes_dealloc),
        }
    }
}

/// The effect of one event on the counters. Only the "before" events count:
/// every countable quantity is already known when the call is announced, so
/// the `*Result` events change nothing.
pub open spec fn effect(layout: Layout, action: AllocAction) -> Counters {
    match action {
        AllocAction::Alloc | AllocAction::AllocZeroed => Counters {
            alloc: 1,
            dealloc: 0,
            realloc: 0,
            bytes_alloc: layout.size as int,
            bytes_dealloc: 0,
        },
        AllocAction::Dealloc { .. } => Counters {
            alloc: 0,
            dealloc: 1,
            realloc: 0,
            bytes_alloc: 0,
            bytes_dealloc: layout.size as int,
        },
        AllocAction::Realloc { ptr: _, new_size } => Counters {
            alloc: 0,
            dealloc: 0,
            realloc: 1,
            bytes_alloc: new_size as int,
            bytes_dealloc: layout.size as int,
        },
        _ => Counters::zero(),
    }
}

/// Whether the event announces an alloc or alloc_zeroed call.
pub open spec fn is_alloc_call(action: AllocAction) -> bool {
    action is Alloc || action is AllocZeroed
}

/// Whether the event announces a dealloc call.
pub open spec fn is_dealloc_call(action: AllocAction) -> bool {
    action is Dealloc
}

/// Whether the event announces a realloc call.
pub open spec fn is_realloc_call(action: AllocAction) -> bool {
    action is Realloc
}

/// The counters reached from `c` after observing one event.
pub open spec fn apply(c: Counters, layout: Layout, action: AllocAction) -> Counters {
    c.plus(effect(layout, action))
}

/// The counters reached from `c` after observing a whole sequence of events
/// in order, each event a descriptor together with an action.
pub open spec fn apply_all(c: Counters, events: Seq<(Layout, AllocAction)>) -> Counters
    decreases events.len(),
{
    if events.len() == 0 {
        c
    } else {
        apply(apply_all(c, events.drop_last()), events.last().0, events.last().1)
    }
}

/// The combined effect of a sequence of events, starting from zero.
pub open spec fn total_effect(events: Seq<(Layout, AllocAction)>) -> Counters
    decreases events.len(),
{
    apply_all(Counters::zero(), events)
}

/// How many events of the sequence announce an alloc or alloc_zeroed call.
pub open spec fn alloc_calls(events: Seq<(Layout, AllocAction)>) -> int
    decreases events.len(),
{
    if events.len() == 0 {
        0
    } else {
        alloc_calls(events.drop_last()) + if is_alloc_call(events.last().1) {
            1int
        } else {
            0int
        }
    }
}

/// How many events of the sequence announce a dealloc call.
pub open spec fn dealloc_calls(events: Seq<(Layout, AllocAction)>) -> int
    decreases events.len(),
{
    if events.len() == 0 {
        0
    } else {
        dealloc_calls(events.drop_last()) + if is_dealloc_call(events.last().1) {
            1int
        } else {
            0int
        }
    }
}

/// How many events of the sequence announce a realloc call.
pub open spec fn realloc_calls(events: Seq<(Layout, AllocAction)>) -> int
    decreases events.len(),
{
    if events.len() == 0 {
        0
    } else {
        realloc_calls(events.drop_last()) + if is_realloc_call(events.last().1) {
            1int
        } else {
            0int
        }
    }
}

/// The bytes requested over the sequence: the sizes asked of alloc and
/// alloc_zeroed, plus the new sizes asked of realloc.
pub open spec fn bytes_requested(events: Seq<(Layout, AllocAction)>) -> int
    decreases events.len(),
{
    if events.len() == 0 {
        0
    } else {
        bytes_requested(events.drop_last()) + match events.last().1 {
            AllocAction::Alloc | AllocAction::AllocZeroed => events.last().0.size as int,
            AllocAction::Realloc { ptr: _, new_size } => new_size as int,
            _ => 0int,
        }
    }
}

/// The bytes given up over the sequence: the sizes handed to dealloc, plus
/// the old sizes superseded by realloc.
pub open spec fn bytes_released(events: Seq<(Layout, AllocAction)>) -> int
    decreases events.len(),
{
    if events.len() == 0 {
        0
    } else {
        bytes_released(events.drop_last()) + match events.last().1 {
            AllocAction::Dealloc { .. } => events.last().0.size as int,
            AllocAction::Realloc { .. } => events.last().0.size as int,
            _ => 0int,
        }
    }
}

/// After any sequence of observed events with no interference, each counter
/// is exactly its starting value plus the matching count or byte sum of the
/// sequence: alloc counts the alloc and alloc_zeroed calls, dealloc the
/// dealloc calls, realloc the realloc calls, bytes_alloc the requested
/// sizes, and bytes_dealloc the released sizes.
pub proof fn lemma_sequence_totals(c: Counters, events: Seq<(Layout, AllocAction)>)
    ensures
        apply_all(c, events).alloc == c.alloc + alloc_calls(events),
        apply_all(c, events).dealloc == c.dealloc + dealloc_calls(events),
        apply_all(c, events).realloc == c.realloc + realloc_calls(events),
        apply_all(c, events).bytes_alloc == c.bytes_alloc + bytes_requested(events),
        apply_all(c, events).bytes_dealloc == c.bytes_dealloc + bytes_released(events),
    decreases events.len(),
{
    if events.len() > 0 {
        lemma_sequence_totals(c, events.drop_last());
    }
}

/// Observing a sequence of events adds exactly the sequence's combined
/// effect, wherever the counters started.
pub proof fn lemma_apply_all_is_plus_total(c: Counters, events: Seq<(Layout, AllocAction)>)
    ensures
        apply_all(c, events) == c.plus(total_effect(events)),
    decreases events.len(),
{
    if events.len() > 0 {
        lemma_apply_all_is_plus_total(c, events.drop_last());
    }
}

/// Additivity of the delta: the difference between the counters after a
/// sequence of events and the counters before it is exactly the combined
/// effect of those events, with no double counting.
pub proof fn lemma_delta_is_total_effect(c: Counters, events: Seq<(Layout, AllocAction)>)
    ensures
        apply_all(c, events).minus(c) == total_effect(events),
{
    lemma_apply_all_is_plus_total(c, events);
}

} // verus!
