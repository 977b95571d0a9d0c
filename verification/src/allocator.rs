//! The instrumented allocator and the capability that it wraps.

use vstd::prelude::*;
use crate::event::{AllocationEvent, EventKind};
use crate::hook::TraceHook;

verus! {

/// The capability to reserve and release raw memory blocks, given a size and
/// an alignment. Addresses are plain integers; zero is the null address.
///
/// Every call is one step of the allocator, from the value it was before to
/// the value it is after. The two relations say which steps an allocator may
/// make; one that does not say otherwise allows every step.
pub trait RawAllocator: Sized {
    /// Whether the allocator, being `self`, may answer a request for `size`
    /// bytes aligned to `align` with `address` and be `next` afterwards.
    open spec fn grants(&self, size: usize, align: usize, address: usize, next: &Self) -> bool {
        true
    }

    /// Whether the allocator, being `self`, may be handed back the block at
    /// `address` with this size and alignment and be `next` afterwards.
    open spec fn releases(&self, address: usize, size: usize, align: usize, next: &Self) -> bool {
        true
    }

    /// Reserves a block. The result is the null address on failure.
    fn allocate(&mut self, size: usize, align: usize) -> (address: usize)
        ensures
            old(self).grants(size, align, address, final(self)),
    ;

    /// Releases a block.
    fn dealloc(&mut self, address: usize, size: usize, align: usize)
        ensures
            old(self).releases(address, size, align, final(self)),
    ;
}

/// An allocator that reports every request to a trace hook.
///
/// It owns the allocator that it wraps and keeps no other state. It never
/// owns the memory that passes through it: it relays addresses between the
/// caller and the wrapped allocator, and replaces one only by what the hook
/// answered.
pub struct RsprofAllocator<T> {
    pub allocator: T,
}

impl<T: RawAllocator> RsprofAllocator<T> {
    /// Whether an allocation of `size` bytes aligned to `align` may return
    /// `answer`, take the shim from `self` to `after` and the hook from
    /// `hook` to `hook_after`.
    ///
    /// The wrapped allocator made exactly one step, a grant of some address
    /// for this size and alignment. The hook made exactly one step, on the
    /// event that reports that address, and `answer` is what it answered.
    pub open spec fn allocates<H: TraceHook>(
        &self,
        hook: H,
        size: usize,
        align: usize,
        answer: usize,
        after: Self,
        hook_after: H,
    ) -> bool {
        exists|address: usize|
            {
                &&& #[trigger] self.allocator.grants(size, align, address, &after.allocator)
                &&& hook.responds(
                    (AllocationEvent { kind: EventKind::Allocate, size, align, address }).spec_call(),
                    answer,
                    &hook_after,
                )
            }
    }

    /// Whether a deallocation of the block at `address` may take the shim
    /// from `self` to `after` and the hook from `hook` to `hook_after`.
    ///
    /// The hook made exactly one step, on the event that reports `address`.
    /// The wrapped allocator made exactly one step, a release of the address
    /// that the hook answered, with the caller's size and alignment.
    pub open spec fn deallocates<H: TraceHook>(
        &self,
        hook: H,
        address: usize,
        size: usize,
        align: usize,
        after: Self,
        hook_after: H,
    ) -> bool {
        exists|target: usize|
            {
                &&& hook.responds(
                    (AllocationEvent { kind: EventKind::Deallocate, size, align, address }).spec_call(),
                    target,
                    &hook_after,
                )
                &&& #[trigger] self.allocator.releases(target, size, align, &after.allocator)
            }
    }

    /// Reserves a block from the wrapped allocator, reports the outcome to
    /// the hook, and returns the address that the hook answered. A failed
    /// allocation is reported like any other, with the null address, and is
    /// not tried again.
    pub fn allocate<H: TraceHook>(&mut self, hook: &mut H, size: usize, align: usize) -> (answer: usize)
        ensures
            old(self).allocates(*old(hook), size, align, answer, *final(self), *final(hook)),
    {
        let ghost before = *self;
        let address = self.allocator.allocate(size, align);
        let answer = (AllocationEvent { kind: EventKind::Allocate, size, align, address }).emit(hook);
        assert(before.allocator.grants(size, align, address, &self.allocator));
        answer
    }

    /// Reports the block at `address` to the hook, then releases the address
    /// that the hook answered.
    pub fn dealloc<H: TraceHook>(&mut self, hook: &mut H, address: usize, size: usize, align: usize)
        ensures
            old(self).deallocates(*old(hook), address, size, align, *final(self), *final(hook)),
    {
        let ghost before = *self;
        let target = (AllocationEvent { kind: EventKind::Deallocate, size, align, address }).emit(hook);
        self.allocator.dealloc(target, size, align);
        assert(before.allocator.releases(target, size, align, &self.allocator));
    }
}

} // verus!
