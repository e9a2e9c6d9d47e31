//! A task's lifecycle: the order handed to the worker, the pending task that
//! waits for its result, and the results that wait to be written back.

use vstd::prelude::*;

use crossbeam_channel::{Receiver, Sender};

use crate::channel::send_message;
use crate::time::{SubstepCount, Timestep};

verus! {

/// The result of a task, as its worker produced it.
pub struct TaskResultRaw<R> {
    /// The worker's result.
    pub result: R,
    /// Nanoseconds of simulation advanced by the task.
    ///
    /// This is `timestep * substep_count` as they were when the task was spawned,
    /// and differs from the render time it took to compute the result.
    pub simulated_time: u128,
}

/// A finished task, waiting to be written back.
pub struct TaskResult<R> {
    /// The result of the task, as received from the worker.
    pub result_raw: TaskResultRaw<R>,
    /// Render nanoseconds between the spawn and the tick that received the result.
    pub render_time_elapsed_during_the_simulation: u64,
    /// Render clock reading, in nanoseconds, when the task was spawned.
    pub started_at_render_time: u64,
    /// Render ticks that polled the task, the one that received the result included.
    pub update_frames_elapsed: u32,
}

/// The ordered results that wait to be written back.
///
/// A queue rather than a single slot, so that a result is never overwritten
/// before it has been consumed.
pub struct TaskResults<R> {
    /// Oldest first.
    pub results: std::collections::VecDeque<TaskResult<R>>,
}

impl<R> Default for TaskResults<R> {
    fn default() -> (r: Self)
        ensures
            r.results@ == Seq::<TaskResult<R>>::empty(),
    {
        TaskResults { results: std::collections::VecDeque::new() }
    }
}

/// What a pending task looks like: everything but its channel.
pub struct PendingView {
    pub started_at_render_time: u64,
    pub update_frames_elapsed: u32,
    pub simulated_time: u128,
    /// A poll found the channel closed with no result in it.
    pub worker_gone: bool,
}

/// The one task in flight.
#[verifier::reject_recursive_types(R)]
pub struct WorkTask<R> {
    /// Render clock reading, in nanoseconds, when the task was spawned.
    pub started_at_render_time: u64,
    /// Render ticks that have polled the task so far.
    pub update_frames_elapsed: u32,
    /// Nanoseconds the task simulates, fixed when it was spawned.
    pub simulated_time: u128,
    /// Whether a poll found the channel closed with no result in it: the
    /// worker is gone and no result will come.
    pub worker_gone: bool,
    /// The receiving end of the channel that brings the result.
    pub recv: Receiver<R>,
}

impl<R> WorkTask<R> {
    pub open spec fn view(&self) -> PendingView {
        PendingView {
            started_at_render_time: self.started_at_render_time,
            update_frames_elapsed: self.update_frames_elapsed,
            simulated_time: self.simulated_time,
            worker_gone: self.worker_gone,
        }
    }
}

/// One more polling tick, saturating at the largest count.
pub open spec fn next_frame(frames: u32) -> u32 {
    if frames < u32::MAX {
        (frames + 1) as u32
    } else {
        frames
    }
}

/// Render time elapsed from `started` to `now`; none if the clock reads earlier.
pub open spec fn elapsed_since(started: u64, now: u64) -> u64 {
    if now >= started {
        (now - started) as u64
    } else {
        0
    }
}

/// The finished task that a pending task becomes when its result arrives at `now`.
pub open spec fn completed_result<R>(task: PendingView, now: u64, result: R) -> TaskResult<R> {
    TaskResult {
        result_raw: TaskResultRaw { result, simulated_time: task.simulated_time },
        render_time_elapsed_during_the_simulation: elapsed_since(
            task.started_at_render_time,
            now,
        ),
        started_at_render_time: task.started_at_render_time,
        update_frames_elapsed: task.update_frames_elapsed,
    }
}

/// One more polling tick, saturating at the largest count.
pub fn count_frame(frames: u32) -> (r: u32)
    ensures
        r == next_frame(frames),
{
    if frames < u32::MAX {
        frames + 1
    } else {
        frames
    }
}

/// Render time elapsed from `started` to `now`; none if the clock reads earlier.
pub fn elapsed_between(started: u64, now: u64) -> (r: u64)
    ensures
        r == elapsed_since(started, now),
{
    if now >= started {
        now - started
    } else {
        0
    }
}

/// Turns a pending task whose result arrived at `now` into a finished task.
pub fn finish_task<R>(task: WorkTask<R>, now: u64, result: R) -> (r: TaskResult<R>)
    ensures
        r == completed_result(task.view(), now, result),
{
    TaskResult {
        result_raw: TaskResultRaw { result, simulated_time: task.simulated_time },
        render_time_elapsed_during_the_simulation: elapsed_between(
            task.started_at_render_time,
            now,
        ),
        started_at_render_time: task.started_at_render_time,
        update_frames_elapsed: task.update_frames_elapsed,
    }
}

/// What a worker needs to run a spawned task, and the way to hand its result back.
#[verifier::reject_recursive_types(R)]
pub struct TaskOrder<R> {
    pub(crate) timestep: Timestep,
    pub(crate) substep_count: SubstepCount,
    pub(crate) sender: Sender<R>,
}

impl<R> View for TaskOrder<R> {
    /// Timestep nanoseconds and substep count of the task.
    type V = (u64, u32);

    closed spec fn view(&self) -> (u64, u32) {
        (self.timestep.timestep, self.substep_count.0)
    }
}

impl<R> TaskOrder<R> {
    pub(crate) fn new(timestep: Timestep, substep_count: SubstepCount, sender: Sender<R>) -> (r:
        TaskOrder<R>)
        ensures
            r@ == (timestep.timestep, substep_count.0),
    {
        TaskOrder { timestep, substep_count, sender }
    }

    /// The timestep the task simulates with.
    pub fn timestep(&self) -> (r: Timestep)
        ensures
            r.timestep == self@.0,
    {
        self.timestep
    }

    /// How many timesteps the task simulates.
    pub fn substep_count(&self) -> (r: SubstepCount)
        ensures
            r.0 == self@.1,
    {
        self.substep_count
    }

    /// Sends the worker's result to the context that spawned the task.
    ///
    /// Where that context is gone, the result is handed back.
    pub fn complete(self, result: R) -> (r: Result<(), R>)
        ensures
            r matches Err(back) ==> back == result,
    {
        send_message(&self.sender, result)
    }
}

} // verus!
