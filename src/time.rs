//! Timestep configuration and the time debt between simulation and render clocks.

use vstd::prelude::*;

verus! {

/// Nanoseconds in one second.
pub const NANOS_PER_SEC: u64 = 1_000_000_000;

/// The longest time one task can simulate: the largest timestep times the
/// largest substep count.
pub open spec fn max_step() -> int {
    u64::MAX as int * u32::MAX as int
}

/// Time simulated by one task: `timestep * substep_count`.
pub open spec fn step_length(timestep: u64, substep_count: u32) -> int {
    timestep as int * substep_count as int
}

/// Simulated time, in nanoseconds, advanced by each substep of a task.
#[derive(Clone, Copy, Debug, PartialEq, Eq)]
pub struct Timestep {
    /// Nanoseconds of render time which should elapse between two simulation steps.
    pub timestep: u64,
}

impl Default for Timestep {
    /// One sixtieth of a second, rounded to the nearest nanosecond: 16 666 667 ns.
    fn default() -> (r: Timestep)
        ensures
            r.timestep == 16_666_667,
    {
        Timestep { timestep: (NANOS_PER_SEC + 30) / 60 }
    }
}

/// Number of timesteps one task simulates.
///
/// A larger count lets the simulation catch up with the render time; a
/// smaller timestep with more substeps gives a finer simulation.
#[derive(Clone, Copy, Debug, PartialEq, Eq)]
pub struct SubstepCount(pub u32);

impl Default for SubstepCount {
    /// One substep per task.
    fn default() -> (r: SubstepCount)
        ensures
            r.0 == 1,
    {
        SubstepCount(1)
    }
}

/// Time simulated by one task, `timestep * substep_count`, which cannot overflow.
pub fn simulated_time_of(timestep: Timestep, substep_count: SubstepCount) -> (r: u128)
    ensures
        r as int == step_length(timestep.timestep, substep_count.0),
        r as int <= max_step(),
{
    let t = timestep.timestep as u128;
    let n = substep_count.0 as u128;
    proof {
        assert(0 <= t * n <= u64::MAX as int * u32::MAX as int) by (nonlinear_arith)
            requires
                t <= u64::MAX,
                n <= u32::MAX,
        ;
    }
    t * n
}

/// How far the simulation lags behind the render clock.
#[derive(Clone, Copy, Debug, PartialEq, Eq)]
pub struct TaskToRenderTime {
    /// Nanoseconds of render time not yet covered by consumed simulation steps.
    ///
    /// Signed: it goes below zero while the simulation catches up.
    pub diff: i128,
    /// Render ticks the most recently written-back task took to complete.
    pub last_task_frame_count: u32,
}

impl Default for TaskToRenderTime {
    fn default() -> (r: Self)
        ensures
            r.diff == 0,
            r.last_task_frame_count == 0,
    {
        TaskToRenderTime { diff: 0, last_task_frame_count: 0 }
    }
}

/// The time debt after `delta` more nanoseconds of render time, saturating at
/// the largest value the debt can hold.
pub open spec fn accumulated(diff: int, delta: u64) -> int {
    if diff + delta > i128::MAX {
        i128::MAX as int
    } else {
        diff + delta
    }
}

/// Adds `delta` nanoseconds of render time to the time debt.
pub fn accumulate(diff: i128, delta: u64) -> (r: i128)
    ensures
        r == accumulated(diff as int, delta),
{
    if diff > i128::MAX - delta as i128 {
        i128::MAX
    } else {
        diff + delta as i128
    }
}

} // verus!
