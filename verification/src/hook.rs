//! The trace hook: the single point through which every event passes.

use vstd::prelude::*;
use crate::event::HookCall;

verus! {

/// The default trace hook. It hands the address back unchanged.
///
/// The function keeps no state, allocates nothing and cannot fail, so it may
/// run inside any allocation path, on any thread.
#[inline(never)]
#[allow(unused_variables)]
pub fn __rsprof_memtrace_event(event: usize, size: usize, align: usize, address: usize) -> (answer: usize)
    ensures
        answer == address,
{
    address
}

/// A trace hook as the shim sees it: something that is handed the four words
/// of an event and answers with the address to use next.
///
/// A hook must not allocate or release memory, block or fail: it runs inside
/// the allocation path.
pub trait TraceHook: Sized {
    /// Whether the hook, being `self`, may answer `call` with `answer` and
    /// be `next` afterwards. One invocation is one such step. A hook that
    /// does not say otherwise allows every step.
    open spec fn responds(&self, call: HookCall, answer: usize, next: &Self) -> bool {
        true
    }

    /// Receives one event and returns the address to use next.
    fn on_event(&mut self, event: usize, size: usize, align: usize, address: usize) -> (answer: usize)
        ensures
            old(self).responds((HookCall { event, size, align, address }), answer, final(self)),
    ;
}

/// The hook that answers every event with the address it was handed.
#[derive(Clone, Copy, Debug)]
pub struct IdentityHook;

impl TraceHook for IdentityHook {
    open spec fn responds(&self, call: HookCall, answer: usize, next: &Self) -> bool {
        answer == call.address
    }

    fn on_event(&mut self, event: usize, size: usize, align: usize, address: usize) -> (answer: usize) {
        __rsprof_memtrace_event(event, size, align, address)
    }
}

/// Whether a hook that starts as `states[0]` may receive `calls` one after
/// the other, answer the `i`-th with `answers[i]` and be `states[i + 1]`
/// after it. Such a run holds exactly `calls.len()` invocations.
pub open spec fn hook_run<H: TraceHook>(states: Seq<H>, calls: Seq<HookCall>, answers: Seq<usize>) -> bool {
    &&& states.len() == calls.len() + 1
    &&& answers.len() == calls.len()
    &&& forall|i: int|
        0 <= i < calls.len() ==> (#[trigger] states[i]).responds(calls[i], answers[i], &states[i + 1])
}

} // verus!
