//! Device-side HIF mailbox task: a fixed shared-memory mailbox through which a
//! debugging host submits stack-machine bytecode programs, an adaptive polling
//! scheduler that waits for work, a dispatcher that runs each program once
//! through the bytecode engine, and a reporter that records the outcome.

use vstd::prelude::*;

pub mod mailbox;
pub mod sched;
pub mod device;
pub mod laws;
pub mod integrity;

verus! {

/// Capacity of the program text buffer, in bytes.
pub const TEXT_SIZE: usize = 2048;

/// Capacity of the engine's return-stack buffer, in bytes.
pub const RSTACK_SIZE: usize = 2048;

/// Data-segment capacity on the small board tier, in bytes.
pub const DATA_SIZE_SMALL: usize = 2048;

/// Data-segment capacity on the large board tier, in bytes.
pub const DATA_SIZE_LARGE: usize = 20480;

/// Number of slots in the engine's operand stack.
pub const STACK_SLOTS: usize = 32;

/// Size of the engine's transient scratch workspace, in bytes.
pub const SCRATCH_SIZE: usize = 256;

/// Shortest idle interval, in milliseconds: the latency right after activity.
pub const MIN_SLEEP_MS: u32 = 1;

/// Longest idle interval, in milliseconds: the backoff ceiling.
pub const MAX_SLEEP_MS: u32 = 250;

/// Idle interval a fresh device starts with, in milliseconds.
pub const INITIAL_SLEEP_MS: u32 = 250;

/// Number of consecutive idle ticks after which the interval is stretched.
pub const IDLE_TICKS_PER_BACKOFF: u32 = 10;

/// Protocol version triple, exported so the host can fail cleanly on a
/// mismatch before submitting any program.
pub const VERSION_MAJOR: u32 = 0;

/// Minor component of the protocol version triple.
pub const VERSION_MINOR: u32 = 3;

/// Patch component of the protocol version triple.
pub const VERSION_PATCH: u32 = 0;

/// The protocol version triple as (major, minor, patch).
pub fn version() -> (v: (u32, u32, u32))
    ensures
        v == (VERSION_MAJOR, VERSION_MINOR, VERSION_PATCH),
{
    (VERSION_MAJOR, VERSION_MINOR, VERSION_PATCH)
}

} // verus!
