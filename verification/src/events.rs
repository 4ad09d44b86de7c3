//! The event model of the interception layer: which allocator call happened,
//! whether the event was emitted before or after the real work, and the
//! size/alignment descriptor that every event carries.
use vstd::prelude::*;

verus! {

/// The size and alignment of a memory block, as requested from the allocator.
/// Immutable once created; carried by every allocation-related event.
#[derive(Clone, Copy, Debug, PartialEq, Eq, Structural)]
pub struct Layout {
    /// Requested size of the block, in bytes.
    pub size: usize,
    /// Requested alignment of the block, in bytes.
    pub align: usize,
}

impl Layout {
    /// A descriptor for a block of `size` bytes aligned to `align` bytes.
    pub fn from_size_align(size: usize, align: usize) -> (r: Layout)
        ensures
            r.size == size,
            r.align == align,
    {
        Layout { size, align }
    }
}

/// An action that an allocator can take, reported either right before or
/// right after it happens. Pointers are carried as plain addresses.
#[derive(Clone, Copy, Debug, PartialEq, Eq, Structural)]
pub enum AllocAction {
    /// alloc was called
    Alloc,
    /// alloc returned a pointer
    AllocResult { ptr: usize },
    /// alloc_zeroed was called
    AllocZeroed,
    /// alloc_zeroed returned a pointer
    AllocZeroedResult { ptr: usize },
    /// dealloc was called on a pointer
    Dealloc { ptr: usize },
    /// dealloc finished execution
    DeallocResult,
    /// realloc was called on a pointer
    Realloc { ptr: usize, new_size: usize },
    /// realloc returned a pointer
    ReallocResult { ptr: usize, new_size: usize },
}

/// Before or after the allocation call itself is executed.
#[derive(Clone, Copy, Debug, PartialEq, Eq, Structural)]
pub enum AllocRel {
    Before,
    After,
}

impl AllocAction {
    /// Whether this action is reported before or after the real call:
    /// `Alloc`, `AllocZeroed`, `Dealloc` and `Realloc` announce a call that
    /// is about to run, the `*Result` variants report one that finished.
    pub open spec fn spec_relation(self) -> AllocRel {
        match self {
            AllocAction::Alloc => AllocRel::Before,
            AllocAction::AllocZeroed => AllocRel::Before,
            AllocAction::Dealloc { .. } => AllocRel::Before,
            AllocAction::Realloc { .. } => AllocRel::Before,
            _ => AllocRel::After,
        }
    }

    /// Whether the action is before or after the action itself.
    pub fn relation(&self) -> (r: AllocRel)
        ensures
            r == self.spec_relation(),
    {
        match self {
            AllocAction::Alloc | AllocAction::AllocZeroed => AllocRel::Before,
            AllocAction::Dealloc { ptr: _ } => AllocRel::Before,
            AllocAction::Realloc { ptr: _, new_size: _ } => AllocRel::Before,
            _ => AllocRel::After,
        }
    }
}

/// An observer of allocator events. When attached to an `InterAlloc`
/// instance, `monitor` is called right before and right after every call to
/// the inner allocator, synchronously on the calling thread; the surrounding
/// sequentially consistent fences keep the real call's memory effects between
/// the two events.
///
/// Hard contract on implementors: `monitor` runs inside every allocation in
/// the process, so it must not itself allocate from the wrapped allocator
/// (that would re-enter the wrapper and can deadlock or recurse without
/// bound), must not block indefinitely, and must not panic.
pub trait AllocMonitor {
    /// The api to the monitor. This method is called right before and right
    /// after allocations happen.
    fn monitor(&self, layout: Layout, act: AllocAction);
}

/// An allocator wrapper that watches the calls to its API, sends them to an
/// observer, and then makes the calls. It owns the inner allocator and holds
/// a non-owning reference to one composed observer; it is a transparent
/// pass-through that introduces no behaviour of its own.
pub struct InterAlloc<'a, T, F> where F: AllocMonitor {
    /// Inner allocator
    pub inner: T,
    /// Monitor on the calls to the allocator
    pub monitor: &'a F,
}

impl<'a, T, F> InterAlloc<'a, T, F> where F: AllocMonitor {
    /// A new instance of the wrapper around `base`, reporting to `monitor`.
    pub fn new(base: T, monitor: &'a F) -> (r: Self)
        ensures
            r.inner == base,
            r.monitor == monitor,
    {
        Self { inner: base, monitor }
    }

    /// Call the monitor function.
    #[allow(dead_code)]
    fn monitor_(&self, layout: Layout, act: AllocAction) {
        self.monitor.monitor(layout, act);
    }
}

} // verus!
