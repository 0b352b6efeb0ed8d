//! The fixed simulation rate that server and client share, and the rate at
//! which the server's main loop looks for a due tick.
use vstd::prelude::*;

verus! {

/// Nanoseconds in one second.
pub const NANOS_PER_SECOND: u64 = 1_000_000_000;

/// Simulation ticks per second (the shared physics timestep is 1/64 s).
pub const TICKS_PER_SECOND: u64 = 64;

/// How many times the server's main loop runs per simulation tick.
pub const RUN_LOOPS_PER_TICK: u64 = 4;

/// Length of one simulation tick, in nanoseconds.
pub open spec fn tick_nanos() -> int {
    (NANOS_PER_SECOND / TICKS_PER_SECOND) as int
}

/// The length of one simulation tick in nanoseconds; the shared timestep of
/// 1/64 s is a whole number of nanoseconds.
pub fn tick_duration_nanos() -> (nanos: u64)
    ensures
        nanos == tick_nanos(),
        nanos * TICKS_PER_SECOND == NANOS_PER_SECOND,
{
    NANOS_PER_SECOND / TICKS_PER_SECOND
}

/// The period of the server's main loop in nanoseconds: a quarter of the
/// tick, so that a due tick is noticed at most a quarter tick late.
pub fn run_loop_nanos() -> (nanos: u64)
    ensures
        nanos * RUN_LOOPS_PER_TICK == tick_nanos(),
{
    let tick = tick_duration_nanos();
    tick / RUN_LOOPS_PER_TICK
}

/// The main loop runs more often than the simulation ticks, and ticks and
/// loop periods are exact in nanoseconds.
pub proof fn lemma_run_loop_faster_than_tick()
    ensures
        tick_nanos() / (RUN_LOOPS_PER_TICK as int) < tick_nanos(),
        tick_nanos() % (RUN_LOOPS_PER_TICK as int) == 0,
        tick_nanos() * TICKS_PER_SECOND == NANOS_PER_SECOND,
{
}

} // verus!
