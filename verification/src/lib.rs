//! A memory-allocation tracing shim.
//!
//! [`RsprofAllocator`] wraps an allocator and reports every allocation and
//! deallocation to a trace hook before the result reaches the caller. The
//! hook sees four machine words per event and answers with the address that
//! is used next.

pub mod event;
pub mod hook;
pub mod allocator;
pub mod session;

pub use event::{AllocationEvent, EventKind, HookCall};
pub use hook::{__rsprof_memtrace_event, hook_run, IdentityHook, TraceHook};
pub use allocator::{RawAllocator, RsprofAllocator};
pub use session::{count_of, Operation};
