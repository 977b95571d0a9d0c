//! The events that the shim reports, and the four words that stand for one
//! of them at the hook.

use vstd::prelude::*;
use crate::hook::TraceHook;

verus! {

/// What kind of operation an event reports.
#[derive(Clone, Copy, Debug, PartialEq, Eq, Structural)]
pub enum EventKind {
    /// An allocation has completed.
    Allocate,
    /// A deallocation is about to be carried out.
    Deallocate,
}

impl EventKind {
    /// The event code that stands for this kind at the hook.
    pub open spec fn spec_code(self) -> usize {
        match self {
            EventKind::Allocate => 0,
            EventKind::Deallocate => 1,
        }
    }

    /// The event code that stands for this kind at the hook.
    pub fn code(self) -> (code: usize)
        ensures
            code == self.spec_code(),
    {
        match self {
            EventKind::Allocate => 0,
            EventKind::Deallocate => 1,
        }
    }
}

/// The event codes never collide: two kinds with the same code are the same
/// kind.
pub proof fn lemma_code_names_kind(a: EventKind, b: EventKind)
    requires
        a.spec_code() == b.spec_code(),
    ensures
        a == b,
{
}

/// One invocation of the trace hook: the four words that it is handed.
#[derive(Clone, Copy, Debug, PartialEq, Eq, Structural)]
pub struct HookCall {
    pub event: usize,
    pub size: usize,
    pub align: usize,
    pub address: usize,
}

/// One allocation or deallocation, as the shim observed it.
#[derive(Clone, Copy, Debug, PartialEq, Eq, Structural)]
pub struct AllocationEvent {
    pub kind: EventKind,
    /// Requested size in bytes.
    pub size: usize,
    /// Requested alignment in bytes.
    pub align: usize,
    /// For an allocation the address that the allocator produced, for a
    /// deallocation the address that is to be freed.
    pub address: usize,
}

impl AllocationEvent {
    /// The hook invocation that reports this event.
    pub open spec fn spec_call(self) -> HookCall {
        HookCall {
            event: self.kind.spec_code(),
            size: self.size,
            align: self.align,
            address: self.address,
        }
    }

    /// The hook invocation that reports this event.
    pub fn call(self) -> (call: HookCall)
        ensures
            call == self.spec_call(),
    {
        HookCall { event: self.kind.code(), size: self.size, align: self.align, address: self.address }
    }

    /// Reports this event to `hook`, once, and returns the hook's answer.
    pub fn emit<H: TraceHook>(self, hook: &mut H) -> (answer: usize)
        ensures
            old(hook).responds(self.spec_call(), answer, final(hook)),
    {
        let call = self.call();
        hook.on_event(call.event, call.size, call.align, call.address)
    }
}

} // verus!
