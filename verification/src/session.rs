//! Runs of several operations against one allocator and one hook.

use vstd::prelude::*;
use crate::allocator::{RawAllocator, RsprofAllocator};
use crate::event::{EventKind, HookCall};
use crate::hook::{hook_run, IdentityHook, TraceHook};

verus! {

/// One completed operation of the shim, as its caller saw it.
pub enum Operation {
    /// A request for `size` bytes aligned to `align` returned `answer`.
    Allocated { size: usize, align: usize, answer: usize },
    /// The block at `address` was given up.
    Deallocated { address: usize, size: usize, align: usize },
}

impl Operation {
    /// The kind of event that reports this operation.
    pub open spec fn kind(self) -> EventKind {
        match self {
            Operation::Allocated { .. } => EventKind::Allocate,
            Operation::Deallocated { .. } => EventKind::Deallocate,
        }
    }
}

/// How many of `operations` are of `kind`.
pub open spec fn count_of(operations: Seq<Operation>, kind: EventKind) -> nat
    decreases operations.len(),
{
    if operations.len() == 0 {
        0
    } else {
        count_of(operations.drop_last(), kind) + if operations.last().kind() == kind {
            1nat
        } else {
            0nat
        }
    }
}

impl<T: RawAllocator> RsprofAllocator<T> {
    /// Whether `operation` may take the shim from `self` to `after` and the
    /// hook from `hook` to `hook_after`.
    pub open spec fn serves<H: TraceHook>(
        &self,
        hook: H,
        operation: Operation,
        after: Self,
        hook_after: H,
    ) -> bool {
        match operation {
            Operation::Allocated { size, align, answer } => self.allocates(
                hook,
                size,
                align,
                answer,
                after,
                hook_after,
            ),
            Operation::Deallocated { address, size, align } => self.deallocates(
                hook,
                address,
                size,
                align,
                after,
                hook_after,
            ),
        }
    }

    /// Whether a hook invocation `call`, answered with `answer`, is the
    /// report of `operation`, and the one step of the wrapped allocator,
    /// from `self` to `after`, is the one that belongs to it.
    ///
    /// For an allocation that step grants the reported address, and the
    /// answer is what the caller received. For a deallocation the reported
    /// address is the caller's, and that step releases the answer.
    pub open spec fn reported_by(
        &self,
        operation: Operation,
        call: HookCall,
        answer: usize,
        after: Self,
    ) -> bool {
        &&& call.event == operation.kind().spec_code()
        &&& match operation {
            Operation::Allocated { size, align, answer: received } => {
                &&& call.size == size
                &&& call.align == align
                &&& self.allocator.grants(size, align, call.address, &after.allocator)
                &&& answer == received
            },
            Operation::Deallocated { address, size, align } => {
                &&& call.size == size
                &&& call.align == align
                &&& call.address == address
                &&& self.allocator.releases(answer, size, align, &after.allocator)
            },
        }
    }

    /// Whether the hook went from `hook` to `hook_after` in one step that is
    /// the report of `operation`, while the shim went from `self` to `after`.
    pub open spec fn step_of<H: TraceHook>(
        &self,
        hook: H,
        operation: Operation,
        step: (HookCall, usize),
        after: Self,
        hook_after: H,
    ) -> bool {
        &&& hook.responds(step.0, step.1, &hook_after)
        &&& self.reported_by(operation, step.0, step.1, after)
    }
}

/// Every operation is one step of the hook and one step of the wrapped
/// allocator, and the hook's step is the report of the operation.
pub proof fn lemma_operation_is_one_step<T: RawAllocator, H: TraceHook>(
    shim: RsprofAllocator<T>,
    hook: H,
    operation: Operation,
    after: RsprofAllocator<T>,
    hook_after: H,
)
    requires
        shim.serves(hook, operation, after, hook_after),
    ensures
        exists|step: (HookCall, usize)| #[trigger] shim.step_of(hook, operation, step, after, hook_after),
{
    match operation {
        Operation::Allocated { size, align, answer } => {
            let address = choose|address: usize|
                {
                    &&& #[trigger] shim.allocator.grants(size, align, address, &after.allocator)
                    &&& hook.responds(
                        (HookCall { event: 0, size, align, address }),
                        answer,
                        &hook_after,
                    )
                };
            assert(shim.step_of(
                hook,
                operation,
                (HookCall { event: 0, size, align, address }, answer),
                after,
                hook_after,
            ));
        },
        Operation::Deallocated { address, size, align } => {
            let target = choose|target: usize|
                {
                    &&& hook.responds(
                        (HookCall { event: 1, size, align, address }),
                        target,
                        &hook_after,
                    )
                    &&& #[trigger] shim.allocator.releases(target, size, align, &after.allocator)
                };
            assert(shim.step_of(
                hook,
                operation,
                (HookCall { event: 1, size, align, address }, target),
                after,
                hook_after,
            ));
        },
    }
}

/// Every operation is an allocation or a deallocation: the two counts add up
/// to the number of operations.
pub proof fn lemma_counts_add_up(operations: Seq<Operation>)
    ensures
        count_of(operations, EventKind::Allocate) + count_of(operations, EventKind::Deallocate)
            == operations.len(),
    decreases operations.len(),
{
    if operations.len() > 0 {
        lemma_counts_add_up(operations.drop_last());
    }
}

/// The hook is invoked once per operation, no more and no fewer. If
/// `operations` ran one after the other, taking the shim through `shims` and
/// the hook through `hooks`, then the hook received exactly as many calls as
/// there were allocations and deallocations together, and the `i`-th call is
/// the report of the `i`-th operation. The wrapped allocator made one step
/// for each of them: the grant that was reported, or the release of what the
/// hook answered.
pub proof fn lemma_one_invocation_per_operation<T: RawAllocator, H: TraceHook>(
    shims: Seq<RsprofAllocator<T>>,
    hooks: Seq<H>,
    operations: Seq<Operation>,
)
    requires
        shims.len() == operations.len() + 1,
        hooks.len() == operations.len() + 1,
        forall|i: int|
            0 <= i < operations.len() ==> shims[i].serves(
                hooks[i],
                #[trigger] operations[i],
                shims[i + 1],
                hooks[i + 1],
            ),
    ensures
        exists|calls: Seq<HookCall>, answers: Seq<usize>|
            {
                &&& calls.len() == count_of(operations, EventKind::Allocate) + count_of(
                    operations,
                    EventKind::Deallocate,
                )
                &&& #[trigger] hook_run(hooks, calls, answers)
                &&& forall|i: int|
                    0 <= i < operations.len() ==> shims[i].reported_by(
                        #[trigger] operations[i],
                        calls[i],
                        answers[i],
                        shims[i + 1],
                    )
            },
{
    let steps = Seq::new(
        operations.len(),
        |i: int|
            choose|step: (HookCall, usize)| #[trigger]
                shims[i].step_of(hooks[i], operations[i], step, shims[i + 1], hooks[i + 1]),
    );
    let calls = Seq::new(operations.len(), |i: int| steps[i].0);
    let answers = Seq::new(operations.len(), |i: int| steps[i].1);
    assert forall|i: int| 0 <= i < operations.len() implies shims[i].step_of(
        hooks[i],
        #[trigger] operations[i],
        (calls[i], answers[i]),
        shims[i + 1],
        hooks[i + 1],
    ) by {
        lemma_operation_is_one_step(shims[i], hooks[i], operations[i], shims[i + 1], hooks[i + 1]);
    }
    assert(hook_run(hooks, calls, answers)) by {
        assert forall|i: int| 0 <= i < calls.len() implies (#[trigger] hooks[i]).responds(
            calls[i],
            answers[i],
            &hooks[i + 1],
        ) by {
            assert(shims[i].step_of(
                hooks[i],
                operations[i],
                (calls[i], answers[i]),
                shims[i + 1],
                hooks[i + 1],
            ));
        }
    }
    lemma_counts_add_up(operations);
}

/// With the identity hook an allocation is one grant of the wrapped
/// allocator, for the same request, and returns the granted address.
pub proof fn lemma_identity_hook_allocates<T: RawAllocator>(
    shim: RsprofAllocator<T>,
    hook: IdentityHook,
    size: usize,
    align: usize,
    answer: usize,
    after: RsprofAllocator<T>,
    hook_after: IdentityHook,
)
    requires
        shim.allocates(hook, size, align, answer, after, hook_after),
    ensures
        shim.allocator.grants(size, align, answer, &after.allocator),
{
}

/// With the identity hook a deallocation is one release of the wrapped
/// allocator, of the caller's address with the caller's size and alignment.
pub proof fn lemma_identity_hook_deallocates<T: RawAllocator>(
    shim: RsprofAllocator<T>,
    hook: IdentityHook,
    address: usize,
    size: usize,
    align: usize,
    after: RsprofAllocator<T>,
    hook_after: IdentityHook,
)
    requires
        shim.deallocates(hook, address, size, align, after, hook_after),
    ensures
        shim.allocator.releases(address, size, align, &after.allocator),
{
}

} // verus!
