//! The statistics aggregators: a concrete counters snapshot and the
//! event-to-counter arithmetic shared by the shared (lock-protected) and the
//! thread-scoped aggregator.
use crate::events::AllocAction;
use crate::events::AllocMonitor;
use crate::events::Layout;
use crate::counters::Counters;
use crate::counters::cap_at_usize;
use crate::counters::effect;
use std::collections::HashMap;
use vstd::prelude::*;

verus! {

broadcast use vstd::std_specs::hash::group_hash_axioms;

/// A snapshot of the five running counters at one instant.
#[derive(Clone, Copy, Debug, Hash, PartialEq, Eq, Structural)]
pub struct AllocInfo {
    /// Number of calls to alloc (and alloc_zeroed)
    pub alloc: usize,
    /// Number of calls to dealloc
    pub dealloc: usize,
    /// Number of calls to realloc
    pub realloc: usize,
    /// Total bytes allocated
    pub bytes_alloc: usize,
    /// Total bytes deallocated
    pub bytes_dealloc: usize,
}

impl View for AllocInfo {
    type V = Counters;

    open spec fn view(&self) -> Counters {
        Counters {
            alloc: self.alloc as int,
            dealloc: self.dealloc as int,
            realloc: self.realloc as int,
            bytes_alloc: self.bytes_alloc as int,
            bytes_dealloc: self.bytes_dealloc as int,
        }
    }
}

impl AllocInfo {
    /// The all-zero snapshot, as a specification value.
    pub open spec fn spec_zero() -> AllocInfo {
        AllocInfo { alloc: 0, dealloc: 0, realloc: 0, bytes_alloc: 0, bytes_dealloc: 0 }
    }

    /// The all-zero snapshot.
    pub fn new() -> (r: AllocInfo)
        ensures
            r == AllocInfo::spec_zero(),
            r@ == Counters::zero(),
    {
        AllocInfo { alloc: 0, dealloc: 0, realloc: 0, bytes_alloc: 0, bytes_dealloc: 0 }
    }
}

/// `a + b`, capped at the largest value a machine word can hold.
fn saturating_sum(a: usize, b: usize) -> (r: usize)
    ensures
        r == cap_at_usize(a + b),
{
    if a <= usize::MAX - b {
        a + b
    } else {
        usize::MAX
    }
}

impl AllocInfo {
    /// The snapshot after one more observed event: the counters advance by
    /// the event's effect. The caller must know that no counter overflows;
    /// `saturating_after_call` is the total variant.
    pub fn after_call(&self, layout: Layout, action: AllocAction) -> (r: AllocInfo)
        requires
            self@.plus(effect(layout, action)).fits(),
        ensures
            r@ == self@.plus(effect(layout, action)),
            self@.le(r@),
    {
        let mut info = *self;
        match action {
            AllocAction::Alloc | AllocAction::AllocZeroed => {
                info.alloc = info.alloc + 1;
                info.bytes_alloc = info.bytes_alloc + layout.size;
            },
            AllocAction::Dealloc { ptr: _ } => {
                info.dealloc = info.dealloc + 1;
                info.bytes_dealloc = info.bytes_dealloc + layout.size;
            },
            AllocAction::Realloc { ptr: _, new_size } => {
                info.realloc = info.realloc + 1;
                info.bytes_alloc = info.bytes_alloc + new_size;
                info.bytes_dealloc = info.bytes_dealloc + layout.size;
            },
            _ => {},
        }
        info
    }

    /// The snapshot after one more observed event, total over all inputs:
    /// each counter advances by the event's effect, sticking at the largest
    /// machine word instead of overflowing. Wherever no counter would
    /// overflow, this agrees exactly with `after_call`.
    pub fn saturating_after_call(&self, layout: Layout, action: AllocAction) -> (r: AllocInfo)
        ensures
            r@ == self@.saturating_plus(effect(layout, action)),
            self@.plus(effect(layout, action)).fits() ==> r@ == self@.plus(
                effect(layout, action),
            ),
            self@.le(r@),
    {
        let mut info = *self;
        match action {
            AllocAction::Alloc | AllocAction::AllocZeroed => {
                info.alloc = saturating_sum(info.alloc, 1);
                info.bytes_alloc = saturating_sum(info.bytes_alloc, layout.size);
            },
            AllocAction::Dealloc { ptr: _ } => {
                info.dealloc = saturating_sum(info.dealloc, 1);
                info.bytes_dealloc = saturating_sum(info.bytes_dealloc, layout.size);
            },
            AllocAction::Realloc { ptr: _, new_size } => {
                info.realloc = saturating_sum(info.realloc, 1);
                info.bytes_alloc = saturating_sum(info.bytes_alloc, new_size);
                info.bytes_dealloc = saturating_sum(info.bytes_dealloc, layout.size);
            },
            _ => {},
        }
        info
    }

    /// The activity between two snapshots of the same aggregator: this
    /// snapshot minus `origin`, field by field. The caller must know that
    /// `origin` was taken no later than `self`, so that no field underflows;
    /// that is an explicit precondition, not handled here.
    pub fn relative_to(&self, origin: &AllocInfo) -> (r: AllocInfo)
        requires
            origin@.le(self@),
        ensures
            r@ == self@.minus(origin@),
    {
        AllocInfo {
            alloc: self.alloc - origin.alloc,
            dealloc: self.dealloc - origin.dealloc,
            realloc: self.realloc - origin.realloc,
            bytes_alloc: self.bytes_alloc - origin.bytes_alloc,
            bytes_dealloc: self.bytes_dealloc - origin.bytes_dealloc,
        }
    }
}

impl Default for AllocInfo {
    fn default() -> (r: AllocInfo)
        ensures
            r@ == Counters::zero(),
    {
        AllocInfo::new()
    }
}

#[verifier::external_type_specification]
#[verifier::external_body]
#[verifier::reject_recursive_types(R)]
#[verifier::reject_recursive_types(T)]
pub struct ExRwLock<R, T: ?Sized>(lock_api::RwLock<R, T>);

#[verifier::external_type_specification]
#[verifier::external_body]
pub struct ExRawRwLock(parking_lot::RawRwLock);

/// Relies on lock_api::RwLock::new (instantiated with parking_lot's
/// RawRwLock): returns a fresh, unlocked reader/writer lock whose protected
/// cell initially holds `init`. The cell is shared and mutable through the
/// lock thereafter, so nothing is stated of its later contents.
#[verifier::external_body]
fn new_locked_cell(init: AllocInfo) -> lock_api::RwLock<parking_lot::RawRwLock, AllocInfo> {
    lock_api::RwLock::new(init)
}

/// Relies on lock_api::RwLock::read: blocks until shared read access is
/// granted, then copies the protected snapshot between two sequentially
/// consistent fences and releases the lock when the guard drops. Other
/// threads may overwrite the cell before or after this critical section, so
/// nothing is stated of the value read.
#[verifier::external_body]
fn read_locked_cell(cell: &lock_api::RwLock<parking_lot::RawRwLock, AllocInfo>) -> AllocInfo {
    let guard = cell.read();
    core::sync::atomic::fence(core::sync::atomic::Ordering::SeqCst);
    let info = *guard;
    core::sync::atomic::fence(core::sync::atomic::Ordering::SeqCst);
    info
}

/// Relies on lock_api::RwLock::write: blocks until exclusive write access is
/// granted, excluding all concurrent readers and writers, then replaces the
/// protected snapshot between two sequentially consistent fences and
/// releases the lock when the guard drops. The protected cell is not part of
/// Verus's view of the lock, so no clause speaks of it.
#[verifier::external_body]
fn overwrite_locked_cell(
    cell: &lock_api::RwLock<parking_lot::RawRwLock, AllocInfo>,
    new_info: AllocInfo,
) {
    let mut guard = cell.write();
    core::sync::atomic::fence(core::sync::atomic::Ordering::SeqCst);
    *guard = new_info;
    core::sync::atomic::fence(core::sync::atomic::Ordering::SeqCst);
}

/// One counters snapshot shared by all threads, protected by a
/// reader/writer lock: any number of threads may read concurrently, a write
/// excludes everyone else.
///
/// `monitor` is deliberately not atomic as a whole: the read and the
/// overwrite are two independent lock acquisitions with an unguarded gap
/// between them, exactly as cheap as the lock allows. Two threads observing
/// events concurrently can both read the same prior snapshot and the second
/// overwrite can then clobber the first, losing one update. Callers who need
/// exact totals under contention must serialise their calls themselves.
pub struct StatsMonitor {
    lock: lock_api::RwLock<parking_lot::RawRwLock, AllocInfo>,
}

impl StatsMonitor {
    /// New instance of this monitor, with all counters zero.
    pub fn new() -> StatsMonitor {
        StatsMonitor { lock: new_locked_cell(AllocInfo::new()) }
    }

    /// The current shared snapshot: a copy taken under the shared lock,
    /// between two sequentially consistent fences. Concurrent writers may
    /// change the cell at any point outside the critical section, so the
    /// value is whatever the latest overwrite left there.
    pub fn info(&self) -> AllocInfo {
        read_locked_cell(&self.lock)
    }

    /// Replaces the shared snapshot with `new_info` under the exclusive
    /// lock, between two sequentially consistent fences.
    pub fn write_info(&self, new_info: AllocInfo) {
        overwrite_locked_cell(&self.lock, new_info)
    }
}

impl AllocMonitor for StatsMonitor {
    fn monitor(&self, layout: Layout, action: AllocAction) {
        let info = self.info();
        self.write_info(info.saturating_after_call(layout, action));
    }
}

/// Thread-scoped statistics on memory usage: an association from thread
/// identity to a private counters snapshot, lazily zero-initialized on a
/// thread's first access. Each slot belongs to exactly one thread; callers
/// pass their own identity and must never pass another thread's, which is
/// what makes every operation free of cross-thread interference.
pub struct ThreadMonitor {
    slots: HashMap<u64, AllocInfo>,
}

impl ThreadMonitor {
    /// The snapshot held for `thread`: its slot if one was ever written,
    /// the all-zero snapshot otherwise.
    pub closed spec fn spec_info(self, thread: u64) -> AllocInfo {
        if self.slots@.contains_key(thread) {
            self.slots@[thread]
        } else {
            AllocInfo::spec_zero()
        }
    }

    /// A new association with no slots: every thread starts at zero.
    pub fn new() -> (r: ThreadMonitor)
        ensures
            forall|t: u64| r.spec_info(t) == AllocInfo::spec_zero(),
    {
        ThreadMonitor { slots: HashMap::new() }
    }

    /// Returns the snapshot with information only related to the calling
    /// thread, which identifies itself as `thread`. Reading touches no other
    /// thread's slot and needs no lock.
    pub fn info(&self, thread: u64) -> (r: AllocInfo)
        ensures
            r == self.spec_info(thread),
    {
        match self.slots.get(&thread) {
            Some(info) => *info,
            None => AllocInfo::new(),
        }
    }

    /// Writes to the history of the calling thread only: afterwards
    /// `thread`'s slot holds exactly `info`, and every other thread's
    /// snapshot is untouched.
    pub fn write_info(&mut self, thread: u64, info: AllocInfo)
        ensures
            final(self).spec_info(thread) == info,
            forall|t: u64| t != thread ==> final(self).spec_info(t) == old(self).spec_info(t),
    {
        self.slots.insert(thread, info);
    }

    /// Observes one event for the calling thread: reads the thread's own
    /// snapshot, applies the event's effect (sticking at the largest machine
    /// word instead of overflowing), and writes it back. Confined to one
    /// slot, so no other thread's snapshot changes.
    pub fn monitor(&mut self, thread: u64, layout: Layout, action: AllocAction)
        ensures
            final(self).spec_info(thread)@ == old(self).spec_info(thread)@.saturating_plus(
                effect(layout, action),
            ),
            old(self).spec_info(thread)@.plus(effect(layout, action)).fits()
                ==> final(self).spec_info(thread)@ == old(self).spec_info(thread)@.plus(
                effect(layout, action),
            ),
            old(self).spec_info(thread)@.le(final(self).spec_info(thread)@),
            forall|t: u64| t != thread ==> final(self).spec_info(t) == old(self).spec_info(t),
    {
        let info = self.info(thread);
        self.write_info(thread, info.saturating_after_call(layout, action));
    }
}

} // verus!
