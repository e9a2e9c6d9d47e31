//! The simulation context and the state machine that every render tick runs.

use vstd::prelude::*;

use crate::channel::{open_channel, receive_blocking, try_receive, Received};
use crate::task::{
    completed_result, count_frame, finish_task, next_frame, PendingView, TaskOrder, TaskResult,
    TaskResults, WorkTask,
};
use crate::time::{
    accumulate, accumulated, max_step, simulated_time_of, step_length, SubstepCount,
    TaskToRenderTime, Timestep,
};

verus! {

/// Where a context stands in its lifecycle.
#[derive(Clone, Copy, Debug, PartialEq, Eq, Structural)]
pub enum Phase {
    /// No tick has run yet.
    Uninitialized,
    /// A task is owed: the first one, or the next one after a write-back.
    SpawnDue,
    /// One task is either in flight or finished and queued.
    Running,
}

/// What the host runs after a tick.
pub enum FixedMainStep<R> {
    /// Extract a snapshot and spawn the next task.
    Spawn,
    /// The simulation is ahead of the render clock: nothing to do.
    Ahead,
    /// The time debt covers a step but no result is ready yet: nothing to do.
    Behind,
    /// Run the pre-write-back hook, write this result back, spawn the next
    /// task, then run the post-write-back hook.
    Advance(TaskResult<R>),
}

/// The state of a context, as the contracts see it.
pub ghost struct ContextView<R> {
    /// Where the context stands in its lifecycle.
    pub phase: Phase,
    /// Timestep nanoseconds that the next spawn uses.
    pub timestep: u64,
    /// Substep count that the next spawn uses.
    pub substep_count: u32,
    /// Polls after which a poll waits for the result instead of giving up.
    pub max_lag_frames: Option<u32>,
    /// Time debt, in nanoseconds.
    pub diff: int,
    /// Render ticks the most recently written-back task took.
    pub last_task_frame_count: u32,
    /// The task in flight, if any.
    pub pending: Option<PendingView>,
    /// Finished results not yet written back, oldest first.
    pub queue: Seq<TaskResult<R>>,
    /// Every result that has become ready, in the order it did.
    pub ready: Seq<TaskResult<R>>,
    /// Every result handed out for write-back, in the order it was.
    pub written: Seq<TaskResult<R>>,
    /// How many tasks have been spawned.
    pub spawned: nat,
}

impl<R> ContextView<R> {
    /// Time one task spawned now would simulate.
    pub open spec fn step(self) -> int {
        step_length(self.timestep, self.substep_count)
    }

    /// Tasks spawned and not yet written back.
    pub open spec fn outstanding(self) -> int {
        (if self.pending is Some {
            1int
        } else {
            0int
        }) + self.queue.len()
    }

    /// The debt stays above the most that one consumption can take off it;
    /// every result that became ready is either written back or still queued,
    /// in order; and the phase fixes what is outstanding: nothing before the
    /// first spawn or while a spawn is owed, exactly one task (in flight or
    /// queued) while running.
    pub open spec fn inv(self) -> bool {
        &&& -max_step() <= self.diff <= i128::MAX
        &&& self.ready == self.written + self.queue
        &&& forall|i: int|
            0 <= i < self.queue.len() ==> #[trigger] self.queue[i].result_raw.simulated_time
                <= max_step()
        &&& (self.pending matches Some(t) ==> t.simulated_time <= max_step())
        &&& match self.phase {
            Phase::Uninitialized => {
                &&& self.pending is None
                &&& self.ready.len() == 0
                &&& self.written.len() == 0
                &&& self.spawned == 0
            },
            Phase::SpawnDue => {
                &&& self.pending is None
                &&& self.queue.len() == 0
                &&& self.spawned == self.written.len()
            },
            Phase::Running => {
                &&& self.outstanding() == 1
                &&& self.spawned == self.written.len() + 1
            },
        }
    }

    /// The pending task was polled and its result has not arrived; `gone`
    /// when the poll found the channel closed.
    pub open spec fn waited(self, gone: bool) -> Self {
        match self.pending {
            Some(t) => ContextView {
                pending: Some(
                    PendingView {
                        update_frames_elapsed: next_frame(t.update_frames_elapsed),
                        worker_gone: t.worker_gone || gone,
                        ..t
                    },
                ),
                ..self
            },
            None => self,
        }
    }

    /// The pending task was polled and `result` arrived at `now`: it is queued.
    pub open spec fn finished(self, now: u64, result: R) -> Self {
        match self.pending {
            Some(t) => {
                let done = completed_result(
                    PendingView { update_frames_elapsed: next_frame(t.update_frames_elapsed), ..t },
                    now,
                    result,
                );
                ContextView {
                    pending: None,
                    queue: self.queue.push(done),
                    ready: self.ready.push(done),
                    ..self
                }
            },
            None => self,
        }
    }

    /// `post` is what one poll at `now` can leave: the task still waiting, or
    /// its result queued.
    pub open spec fn polled(self, now: u64, post: Self) -> bool {
        ||| post == self.waited(false)
        ||| post == self.waited(true)
        ||| exists|result: R| post == #[trigger] self.finished(now, result)
    }

    /// Adds `delta` to the time debt; where the debt then covers a step and a
    /// result is queued, consumes the oldest result.
    pub open spec fn advance(self, delta: u64) -> (Self, FixedMainStep<R>) {
        let diff = accumulated(self.diff, delta);
        if diff < self.step() {
            (ContextView { diff, ..self }, FixedMainStep::Ahead)
        } else if self.queue.len() == 0 {
            (ContextView { diff, ..self }, FixedMainStep::Behind)
        } else {
            let r = self.queue[0];
            (
                ContextView {
                    phase: Phase::SpawnDue,
                    diff: diff - r.result_raw.simulated_time,
                    last_task_frame_count: r.update_frames_elapsed,
                    queue: self.queue.drop_first(),
                    written: self.written.push(r),
                    ..self
                },
                FixedMainStep::Advance(r),
            )
        }
    }

    /// A task spawned at `now` with the current timestep and substep count.
    pub open spec fn spawned_at(self, now: u64) -> Self {
        ContextView {
            phase: Phase::Running,
            pending: Some(
                PendingView {
                    started_at_render_time: now,
                    update_frames_elapsed: 0,
                    simulated_time: self.step() as u128,
                    worker_gone: false,
                },
            ),
            spawned: self.spawned + 1,
            ..self
        }
    }

    /// `post` and `step` are what one tick with `delta` nanoseconds of render
    /// time at clock reading `now` can give.
    pub open spec fn ticked(self, delta: u64, now: u64, post: Self, step: FixedMainStep<R>) -> bool {
        match self.phase {
            Phase::Uninitialized => {
                &&& post == ContextView { phase: Phase::SpawnDue, ..self }
                &&& step == FixedMainStep::<R>::Spawn
            },
            Phase::SpawnDue => {
                &&& post == ContextView { diff: accumulated(self.diff, delta), ..self }
                &&& step == FixedMainStep::<R>::Spawn
            },
            Phase::Running => exists|mid: Self|
                #[trigger] self.polled(now, mid) && (post, step) == mid.advance(delta),
        }
    }
}

/// One simulation stream: its configuration, its time debt, its task in
/// flight and its results waiting to be written back.
#[verifier::reject_recursive_types(R)]
pub struct SimulationContext<R> {
    pub(crate) timestep: Timestep,
    pub(crate) substep_count: SubstepCount,
    pub(crate) max_lag_frames: Option<u32>,
    pub(crate) task_to_render_time: TaskToRenderTime,
    pub(crate) phase: Phase,
    pub(crate) task: Option<WorkTask<R>>,
    pub(crate) results: TaskResults<R>,
    pub(crate) ready: Ghost<Seq<TaskResult<R>>>,
    pub(crate) written: Ghost<Seq<TaskResult<R>>>,
    pub(crate) spawned: Ghost<nat>,
}

impl<R> View for SimulationContext<R> {
    type V = ContextView<R>;

    closed spec fn view(&self) -> ContextView<R> {
        ContextView {
            phase: self.phase,
            timestep: self.timestep.timestep,
            substep_count: self.substep_count.0,
            max_lag_frames: self.max_lag_frames,
            diff: self.task_to_render_time.diff as int,
            last_task_frame_count: self.task_to_render_time.last_task_frame_count,
            pending: match self.task {
                Some(t) => Some(t.view()),
                None => None,
            },
            queue: self.results.results@,
            ready: self.ready@,
            written: self.written@,
            spawned: self.spawned@,
        }
    }
}

impl<R> SimulationContext<R> {
    /// Well-formed: the view keeps its invariant.
    pub open spec fn wf(&self) -> bool {
        self@.inv()
    }

    /// A context that has not ticked yet, whose polls never wait.
    pub fn new(timestep: Timestep, substep_count: SubstepCount) -> (r: Self)
        ensures
            r.wf(),
            r@.phase == Phase::Uninitialized,
            r@.timestep == timestep.timestep,
            r@.substep_count == substep_count.0,
            r@.max_lag_frames is None,
            r@.diff == 0,
            r@.last_task_frame_count == 0,
            r@.queue.len() == 0,
    {
        SimulationContext {
            timestep,
            substep_count,
            max_lag_frames: None,
            task_to_render_time: TaskToRenderTime::default(),
            phase: Phase::Uninitialized,
            task: None,
            results: TaskResults::default(),
            ready: Ghost(Seq::empty()),
            written: Ghost(Seq::empty()),
            spawned: Ghost(0),
        }
    }

    /// Records what one poll of the pending task found, at render clock
    /// reading `now`: the poll is counted, and a result that arrived is queued.
    /// Without a pending task nothing changes.
    pub fn store_task_outcome(&mut self, outcome: Received<R>, now: u64)
        requires
            old(self).wf(),
        ensures
            final(self).wf(),
            match outcome {
                Received::Message(result) => final(self)@ == old(self)@.finished(now, result),
                Received::Empty => final(self)@ == old(self)@.waited(false),
                Received::Disconnected => final(self)@ == old(self)@.waited(true),
            },
    {
        let ghost pre = self@;
        match self.task.take() {
            None => {},
            Some(mut task) => {
                task.update_frames_elapsed = count_frame(task.update_frames_elapsed);
                match outcome {
                    Received::Message(result) => {
                        let done = finish_task(task, now, result);
                        self.ready = Ghost(self.ready@.push(done));
                        self.results.results.push_back(done);
                        proof {
                            assert(self@.ready =~= self@.written + self@.queue);
                            assert forall|i: int| 0 <= i < self@.queue.len() implies
                                #[trigger] self@.queue[i].result_raw.simulated_time
                                <= max_step() by {
                                if i < pre.queue.len() {
                                    assert(self@.queue[i] == pre.queue[i]);
                                }
                            }
                            assert(self@ =~= pre.finished(now, result));
                        }
                    },
                    Received::Empty => {
                        self.task = Some(task);
                        proof {
                            assert(self@ =~= pre.waited(false));
                        }
                    },
                    Received::Disconnected => {
                        task.worker_gone = true;
                        self.task = Some(task);
                        proof {
                            assert(self@ =~= pre.waited(true));
                        }
                    },
                }
            },
        }
    }

    /// Whether a poll of `task` waits for its result: the task has been
    /// polled more than `max_lag_frames` times, this poll included.
    pub open spec fn waits_for(max_lag_frames: Option<u32>, task: PendingView) -> bool {
        max_lag_frames matches Some(m) && next_frame(task.update_frames_elapsed) > m
    }

    /// Polls the pending task once at render clock reading `now`. The poll
    /// does not block, unless the task has lagged more than the configured
    /// number of polls: it then waits until the result arrives or the worker
    /// is gone.
    pub fn finish_task_and_store_result(&mut self, now: u64)
        requires
            old(self).wf(),
        ensures
            final(self).wf(),
            old(self)@.polled(now, final(self)@),
            old(self)@.pending matches Some(t) && Self::waits_for(old(self)@.max_lag_frames, t)
                && final(self)@.pending is Some ==> final(self)@ == old(self)@.waited(true),
    {
        let outcome = match &self.task {
            Some(task) => {
                let frames = count_frame(task.update_frames_elapsed);
                match self.max_lag_frames {
                    Some(max) if frames > max => receive_blocking(&task.recv),
                    _ => try_receive(&task.recv),
                }
            },
            None => Received::Empty,
        };
        let ghost seen = outcome;
        let ghost pre = self@;
        proof {
            if self@.pending matches Some(t) && Self::waits_for(self@.max_lag_frames, t) {
                assert(!(seen is Empty));
            }
        }
        self.store_task_outcome(outcome, now);
        proof {
            if let Received::Message(result) = seen {
                assert(self@ == pre.finished(now, result));
            }
        }
    }

    /// Takes the oldest queued result out for write-back and records how many
    /// render ticks its task took.
    fn handle_task(&mut self) -> (r: Option<TaskResult<R>>)
        ensures
            match r {
                Some(result) => {
                    &&& old(self)@.queue.len() > 0
                    &&& result == old(self)@.queue[0]
                    &&& final(self)@ == ContextView {
                        last_task_frame_count: result.update_frames_elapsed,
                        queue: old(self)@.queue.drop_first(),
                        written: old(self)@.written.push(result),
                        ..old(self)@
                    }
                },
                None => {
                    &&& old(self)@.queue.len() == 0
                    &&& final(self)@ == old(self)@
                },
            },
    {
        let ghost pre = self@;
        let popped = self.results.results.pop_front();
        match popped {
            Some(result) => {
                self.task_to_render_time.last_task_frame_count = result.update_frames_elapsed;
                self.written = Ghost(self.written@.push(result));
                proof {
                    assert(self@ =~= ContextView {
                        last_task_frame_count: result.update_frames_elapsed,
                        queue: pre.queue.drop_first(),
                        written: pre.written.push(result),
                        ..pre
                    });
                }
                Some(result)
            },
            None => {
                proof {
                    assert(self@ =~= pre);
                }
                None
            },
        }
    }

    /// Adds `delta` nanoseconds of render time to the time debt and, where the
    /// debt covers a step and a result is ready, takes the oldest result out
    /// for write-back and pays its simulated time off the debt.
    pub fn advance(&mut self, delta: u64) -> (r: FixedMainStep<R>)
        requires
            old(self).wf(),
            old(self)@.phase == Phase::Running,
        ensures
            final(self).wf(),
            (final(self)@, r) == old(self)@.advance(delta),
    {
        let ghost pre = self@;
        let diff = accumulate(self.task_to_render_time.diff, delta);
        let step = simulated_time_of(self.timestep, self.substep_count);
        self.task_to_render_time.diff = diff;
        if diff < 0 || (diff as u128) < step {
            proof {
                assert(self@ =~= ContextView { diff: diff as int, ..pre });
            }
            return FixedMainStep::Ahead;
        }
        if self.results.results.len() == 0 {
            proof {
                assert(self@ =~= ContextView { diff: diff as int, ..pre });
            }
            return FixedMainStep::Behind;
        }
        let simulated_time = self.results.results[0].result_raw.simulated_time;
        proof {
            assert(pre.queue[0].result_raw.simulated_time <= max_step());
            assert(max_step() < 0x1_0000_0000_0000_0000_0000_0000);
        }
        self.task_to_render_time.diff = diff - simulated_time as i128;
        let taken = self.handle_task();
        match taken {
            Some(result) => {
                self.phase = Phase::SpawnDue;
                proof {
                    assert(self@.ready =~= self@.written + self@.queue);
                    assert forall|i: int| 0 <= i < self@.queue.len() implies
                        #[trigger] self@.queue[i].result_raw.simulated_time <= max_step() by {
                        assert(self@.queue[i] == pre.queue[i + 1]);
                    }
                }
                FixedMainStep::Advance(result)
            },
            None => FixedMainStep::Behind,
        }
    }

    /// Spawns the task that is owed, at render clock reading `now`, with the
    /// current timestep and substep count. Returns the order that the worker
    /// runs; where no task is owed, nothing happens.
    pub fn spawn_task(&mut self, now: u64) -> (r: Option<TaskOrder<R>>)
        requires
            old(self).wf(),
        ensures
            final(self).wf(),
            old(self)@.phase == Phase::SpawnDue ==> {
                &&& r matches Some(order)
                &&& order@ == (old(self)@.timestep, old(self)@.substep_count)
                &&& final(self)@ == old(self)@.spawned_at(now)
            },
            old(self)@.phase != Phase::SpawnDue ==> r is None && final(self)@ == old(self)@,
    {
        if self.phase != Phase::SpawnDue {
            return None;
        }
        let ghost pre = self@;
        let (sender, recv) = open_channel();
        let simulated_time = simulated_time_of(self.timestep, self.substep_count);
        self.task = Some(
            WorkTask {
                started_at_render_time: now,
                update_frames_elapsed: 0,
                simulated_time,
                worker_gone: false,
                recv,
            },
        );
        self.phase = Phase::Running;
        self.spawned = Ghost(self.spawned@ + 1);
        proof {
            assert(self@ =~= pre.spawned_at(now));
        }
        Some(TaskOrder::new(self.timestep, self.substep_count, sender))
    }

    /// Timestep of the tasks spawned from now on.
    pub fn timestep(&self) -> (r: Timestep)
        ensures
            r.timestep == self@.timestep,
    {
        self.timestep
    }

    /// Substep count of the tasks spawned from now on.
    pub fn substep_count(&self) -> (r: SubstepCount)
        ensures
            r.0 == self@.substep_count,
    {
        self.substep_count
    }

    /// Sets the timestep of the tasks spawned from now on; a task in flight
    /// keeps the simulated time it was spawned with.
    pub fn set_timestep(&mut self, timestep: Timestep)
        requires
            old(self).wf(),
        ensures
            final(self).wf(),
            final(self)@ == (ContextView { timestep: timestep.timestep, ..old(self)@ }),
    {
        let ghost pre = self@;
        self.timestep = timestep;
        proof {
            assert(self@ =~= ContextView { timestep: timestep.timestep, ..pre });
        }
    }

    /// Sets the substep count of the tasks spawned from now on; a task in
    /// flight keeps the simulated time it was spawned with.
    pub fn set_substep_count(&mut self, substep_count: SubstepCount)
        requires
            old(self).wf(),
        ensures
            final(self).wf(),
            final(self)@ == (ContextView { substep_count: substep_count.0, ..old(self)@ }),
    {
        let ghost pre = self@;
        self.substep_count = substep_count;
        proof {
            assert(self@ =~= ContextView { substep_count: substep_count.0, ..pre });
        }
    }

    /// Polls after which a poll waits for the result; `None` never waits.
    pub fn max_lag_frames(&self) -> (r: Option<u32>)
        ensures
            r == self@.max_lag_frames,
    {
        self.max_lag_frames
    }

    /// Sets after how many polls a poll waits for the result instead of
    /// letting the simulation fall further behind; `None` never waits.
    pub fn set_max_lag_frames(&mut self, max_lag_frames: Option<u32>)
        requires
            old(self).wf(),
        ensures
            final(self).wf(),
            final(self)@ == (ContextView { max_lag_frames, ..old(self)@ }),
    {
        let ghost pre = self@;
        self.max_lag_frames = max_lag_frames;
        proof {
            assert(self@ =~= ContextView { max_lag_frames, ..pre });
        }
    }

    /// The time debt and the frame count of the last task written back.
    pub fn task_to_render_time(&self) -> (r: TaskToRenderTime)
        ensures
            r.diff == self@.diff,
            r.last_task_frame_count == self@.last_task_frame_count,
    {
        self.task_to_render_time
    }

    /// Where the context stands in its lifecycle.
    pub fn phase(&self) -> (r: Phase)
        ensures
            r == self@.phase,
    {
        self.phase
    }

    /// Whether a task is in flight.
    pub fn has_pending_task(&self) -> (r: bool)
        ensures
            r == self@.pending is Some,
    {
        self.task.is_some()
    }

    /// Whether the task in flight lost its worker: a poll found its channel
    /// closed with no result, so the simulation will fall behind for good.
    pub fn worker_gone(&self) -> (r: bool)
        ensures
            r == (self@.pending matches Some(t) && t.worker_gone),
    {
        match &self.task {
            Some(task) => task.worker_gone,
            None => false,
        }
    }

    /// How many results wait to be written back.
    pub fn queued_results(&self) -> (r: usize)
        ensures
            r == self@.queue.len(),
    {
        self.results.results.len()
    }
}

/// The schedule that decides, once per render tick, whether the simulation advances.
#[derive(Clone, Copy, Debug, PartialEq, Eq)]
pub struct FixedMain;

impl FixedMain {
    /// Runs one render tick of `ctx`, in which `delta` nanoseconds of render
    /// time elapsed and the render clock reads `now`.
    ///
    /// The first tick only asks for the first task. Every later tick polls the
    /// task in flight, adds `delta` to the time debt and, where the debt covers
    /// a step and a result is ready, hands the oldest result out for write-back.
    pub fn run_schedule<R>(ctx: &mut SimulationContext<R>, delta: u64, now: u64) -> (r:
        FixedMainStep<R>)
        requires
            old(ctx).wf(),
        ensures
            final(ctx).wf(),
            old(ctx)@.ticked(delta, now, final(ctx)@, r),
    {
        match ctx.phase {
            Phase::Uninitialized => {
                let ghost pre = ctx@;
                ctx.phase = Phase::SpawnDue;
                proof {
                    assert(ctx@ =~= ContextView { phase: Phase::SpawnDue, ..pre });
                }
                FixedMainStep::Spawn
            },
            Phase::SpawnDue => {
                let ghost pre = ctx@;
                ctx.task_to_render_time.diff = accumulate(ctx.task_to_render_time.diff, delta);
                proof {
                    assert(ctx@ =~= ContextView { diff: accumulated(pre.diff, delta), ..pre });
                }
                FixedMainStep::Spawn
            },
            Phase::Running => {
                let ghost pre = ctx@;
                ctx.finish_task_and_store_result(now);
                let ghost mid = ctx@;
                let step = ctx.advance(delta);
                proof {
                    assert(pre.polled(now, mid));
                }
                step
            },
        }
    }
}

} // verus!