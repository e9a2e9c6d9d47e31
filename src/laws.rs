//! Properties of the tick and spawn transitions that hold for every sequence
//! of ticks, proved over the transitions that the context's methods implement.

use vstd::prelude::*;

use crate::context::{ContextView, FixedMainStep, Phase};
use crate::time::{accumulated, max_step};

verus! {

/// A poll keeps the invariant, touches neither the phase, the debt, the
/// configuration nor the write-back record, and only appends to the ready record.
proof fn lemma_polled<R>(pre: ContextView<R>, now: u64, mid: ContextView<R>)
    requires
        pre.inv(),
        pre.polled(now, mid),
    ensures
        mid.inv(),
        mid.phase == pre.phase,
        mid.diff == pre.diff,
        mid.timestep == pre.timestep,
        mid.substep_count == pre.substep_count,
        mid.last_task_frame_count == pre.last_task_frame_count,
        mid.written == pre.written,
        mid.spawned == pre.spawned,
        pre.ready.len() <= mid.ready.len(),
        mid.ready.subrange(0, pre.ready.len() as int) == pre.ready,
        pre.queue.len() > 0 ==> mid.queue == pre.queue,
        mid.queue.len() > 0 ==> mid.queue[0] == (if pre.queue.len() > 0 {
            pre.queue[0]
        } else {
            mid.ready[pre.ready.len() as int]
        }),
        pre.pending matches Some(t) ==> mid.queue.len() > 0 ==> mid.queue[0].result_raw.simulated_time
            == t.simulated_time,
{
    assert(pre.ready.subrange(0, pre.ready.len() as int) =~= pre.ready);
    if mid != pre.waited(false) && mid != pre.waited(true) {
        let result = choose|result: R| mid == #[trigger] pre.finished(now, result);
        if let Some(t) = pre.pending {
            assert(mid.ready =~= mid.written + mid.queue);
            assert(mid.ready.subrange(0, pre.ready.len() as int) =~= pre.ready);
            assert forall|i: int| 0 <= i < mid.queue.len() implies
                #[trigger] mid.queue[i].result_raw.simulated_time <= max_step() by {
                if i < pre.queue.len() {
                    assert(mid.queue[i] == pre.queue[i]);
                }
            }
            assert(pre.queue.len() == 0);
            assert(mid.ready[pre.ready.len() as int] == mid.queue[0]);
        }
    }
}

/// Consuming a step keeps the invariant.
proof fn lemma_advanced<R>(mid: ContextView<R>, delta: u64)
    requires
        mid.inv(),
        mid.phase == Phase::Running,
    ensures
        mid.advance(delta).0.inv(),
        mid.advance(delta).0.ready == mid.ready,
        mid.advance(delta).0.spawned == mid.spawned,
{
    let post = mid.advance(delta).0;
    let diff = accumulated(mid.diff, delta);
    if diff >= mid.step() && mid.queue.len() > 0 {
        assert(mid.step() >= 0) by (nonlinear_arith)
            requires
                mid.step() == mid.timestep as int * mid.substep_count as int,
        ;
        assert(mid.queue[0].result_raw.simulated_time <= max_step());
        assert(post.ready =~= post.written + post.queue);
        assert forall|i: int| 0 <= i < post.queue.len() implies
            #[trigger] post.queue[i].result_raw.simulated_time <= max_step() by {
            assert(post.queue[i] == mid.queue[i + 1]);
        }
    }
}

/// Every state that the invariant admits has at most one task outstanding:
/// a task in flight and a queued result never coexist, and never two of either.
pub proof fn lemma_outstanding_at_most_one<R>(v: ContextView<R>)
    requires
        v.inv(),
    ensures
        v.outstanding() <= 1,
        v.pending is Some ==> v.queue.len() == 0,
{
}

/// At most one task in flight: a tick keeps the invariant, so after any
/// sequence of ticks and spawns from a new context at most one task is
/// outstanding.
pub proof fn lemma_at_most_one_in_flight<R>(
    pre: ContextView<R>,
    delta: u64,
    now: u64,
    post: ContextView<R>,
    step: FixedMainStep<R>,
)
    requires
        pre.inv(),
        pre.ticked(delta, now, post, step),
    ensures
        post.inv(),
        post.outstanding() <= 1,
{
    if pre.phase == Phase::Running {
        let mid = choose|mid: ContextView<R>|
            #[trigger] pre.polled(now, mid) && (post, step) == mid.advance(delta);
        lemma_polled(pre, now, mid);
        lemma_advanced(mid, delta);
    } else if pre.phase == Phase::Uninitialized {
        assert(post.queue.len() == 0) by {
            assert(pre.ready =~= pre.written + pre.queue);
        }
    }
}

/// Spawning finds nothing outstanding and leaves exactly one task in flight.
pub proof fn lemma_spawn_only_when_idle<R>(pre: ContextView<R>, now: u64)
    requires
        pre.inv(),
        pre.phase == Phase::SpawnDue,
    ensures
        pre.outstanding() == 0,
        pre.spawned_at(now).inv(),
        pre.spawned_at(now).outstanding() == 1,
{
    let t = pre.timestep;
    let n = pre.substep_count;
    assert(0 <= t as int * n as int <= u64::MAX as int * u32::MAX as int) by (nonlinear_arith)
        requires
            t <= u64::MAX,
            n <= u32::MAX,
    ;
}

/// The results written back are the first results that became ready, in the
/// order they became ready.
pub proof fn lemma_written_back_in_ready_order<R>(v: ContextView<R>)
    requires
        v.inv(),
    ensures
        v.written.len() <= v.ready.len(),
        v.written == v.ready.subrange(0, v.written.len() as int),
{
    assert(v.written =~= v.ready.subrange(0, v.written.len() as int));
}

/// First in, first out: a tick only appends to the record of results that
/// became ready and to the record of results written back, and a result it
/// hands out for write-back is the oldest ready result not yet handed out.
pub proof fn lemma_fifo_write_back<R>(
    pre: ContextView<R>,
    delta: u64,
    now: u64,
    post: ContextView<R>,
    step: FixedMainStep<R>,
)
    requires
        pre.inv(),
        pre.ticked(delta, now, post, step),
    ensures
        pre.ready.len() <= post.ready.len(),
        post.ready.subrange(0, pre.ready.len() as int) == pre.ready,
        pre.written.len() <= post.written.len(),
        post.written.subrange(0, pre.written.len() as int) == pre.written,
        post.written == post.ready.subrange(0, post.written.len() as int),
        step matches FixedMainStep::Advance(r) ==> {
            &&& post.written == pre.written.push(r)
            &&& r == post.ready[pre.written.len() as int]
        },
{
    lemma_at_most_one_in_flight(pre, delta, now, post, step);
    lemma_written_back_in_ready_order(post);
    assert(pre.ready.subrange(0, pre.ready.len() as int) =~= pre.ready);
    assert(pre.written.subrange(0, pre.written.len() as int) =~= pre.written);
    if pre.phase == Phase::Running {
        let mid = choose|mid: ContextView<R>|
            #[trigger] pre.polled(now, mid) && (post, step) == mid.advance(delta);
        lemma_polled(pre, now, mid);
        lemma_advanced(mid, delta);
        if let FixedMainStep::Advance(r) = step {
            assert(post.written.subrange(0, pre.written.len() as int) =~= pre.written);
            assert(mid.ready == mid.written + mid.queue);
            assert(mid.ready[pre.written.len() as int] == mid.queue[0]);
        }
    }
}

/// Time-debt conservation: a tick that consumes a result pays exactly that
/// result's simulated time off the debt it accumulated, and that simulated
/// time is the one fixed when its task was spawned, however many ticks the
/// task took.
pub proof fn lemma_time_debt_conservation<R>(
    pre: ContextView<R>,
    delta: u64,
    now: u64,
    post: ContextView<R>,
    r: crate::task::TaskResult<R>,
)
    requires
        pre.inv(),
        pre.ticked(delta, now, post, FixedMainStep::Advance(r)),
    ensures
        post.diff == accumulated(pre.diff, delta) - r.result_raw.simulated_time,
        pre.diff + delta <= i128::MAX ==> post.diff == pre.diff + delta
            - r.result_raw.simulated_time,
        pre.queue.len() > 0 ==> r == pre.queue[0],
        pre.pending matches Some(t) ==> r.result_raw.simulated_time == t.simulated_time,
{
    let step = FixedMainStep::Advance(r);
    let mid = choose|mid: ContextView<R>|
        #[trigger] pre.polled(now, mid) && (post, step) == mid.advance(delta);
    lemma_polled(pre, now, mid);
}

/// The spawn invariant: the tasks spawned so far are the results written
/// back, plus the one outstanding while the context runs.
pub proof fn lemma_spawns_match_write_backs<R>(v: ContextView<R>)
    requires
        v.inv(),
    ensures
        v.spawned == v.written.len() + (if v.phase == Phase::Running {
            1int
        } else {
            0int
        }),
{
}

/// No spawn without consumption: after a tick a task is owed exactly when the
/// tick handed a result out for write-back, or when no task has run since the
/// last write-back; only an owed task can be spawned.
pub proof fn lemma_spawn_follows_consumption<R>(
    pre: ContextView<R>,
    delta: u64,
    now: u64,
    post: ContextView<R>,
    step: FixedMainStep<R>,
)
    requires
        pre.inv(),
        pre.ticked(delta, now, post, step),
    ensures
        (step is Spawn) <==> pre.phase != Phase::Running,
        (post.phase == Phase::SpawnDue) <==> (step is Advance || step is Spawn),
        step is Advance ==> post.written.len() == pre.written.len() + 1,
        !(step is Advance) ==> post.written.len() == pre.written.len(),
        post.spawned == pre.spawned,
        pre.phase == Phase::Running ==> {
            &&& (post.phase == Phase::SpawnDue) <==> step is Advance
            &&& accumulated(pre.diff, delta) < pre.step() ==> step is Ahead
            &&& step is Advance ==> accumulated(pre.diff, delta) >= pre.step()
            &&& !(step is Advance) ==> {
                &&& post.phase == Phase::Running
                &&& post.written == pre.written
                &&& post.diff == accumulated(pre.diff, delta)
                &&& pre.diff + delta <= i128::MAX ==> post.diff == pre.diff + delta
            }
        },
{
    if pre.phase == Phase::Running {
        let mid = choose|mid: ContextView<R>|
            #[trigger] pre.polled(now, mid) && (post, step) == mid.advance(delta);
        lemma_polled(pre, now, mid);
    }
}

/// A write-back never applies the same result twice: the result that a tick
/// hands out leaves the queue, which is the only place results are handed
/// out from, and takes the next place in the write-back record.
pub proof fn lemma_write_back_once<R>(
    pre: ContextView<R>,
    delta: u64,
    now: u64,
    post: ContextView<R>,
    r: crate::task::TaskResult<R>,
)
    requires
        pre.inv(),
        pre.ticked(delta, now, post, FixedMainStep::Advance(r)),
    ensures
        post.queue.len() == 0,
        post.written == pre.written.push(r),
        post.ready == post.written + post.queue,
{
    lemma_fifo_write_back(pre, delta, now, post, FixedMainStep::Advance(r));
}

/// The write-back dispatcher takes the oldest queued result: consuming a
/// step hands out the front of the queue, keeps the rest in order, and
/// records the result once in the write-back record.
pub proof fn lemma_dispatch_takes_oldest<R>(mid: ContextView<R>, delta: u64)
    requires
        mid.inv(),
        mid.phase == Phase::Running,
    ensures
        mid.advance(delta).1 matches FixedMainStep::Advance(r) ==> {
            &&& mid.queue.len() >= 1
            &&& r == mid.queue[0]
            &&& mid.advance(delta).0.queue == mid.queue.subrange(1, mid.queue.len() as int)
            &&& mid.advance(delta).0.written == mid.written.push(r)
        },
        !(mid.advance(delta).1 is Advance) ==> mid.advance(delta).0.queue == mid.queue
            && mid.advance(delta).0.written == mid.written,
{
}

/// Steady catch-up: while the configuration stays put, each result simulates
/// one step, each tick brings less render time than a step and no tick finds
/// the simulation behind, a debt within one step stays within one step, and
/// a tick that consumes a result leaves less than that tick's render time.
pub proof fn lemma_debt_stays_within_one_step<R>(
    pre: ContextView<R>,
    delta: u64,
    now: u64,
    post: ContextView<R>,
    step: FixedMainStep<R>,
)
    requires
        pre.inv(),
        pre.phase == Phase::Running,
        0 <= pre.diff < pre.step(),
        delta < pre.step(),
        pre.ticked(delta, now, post, step),
        !(step is Behind),
        step matches FixedMainStep::Advance(r) ==> r.result_raw.simulated_time == pre.step(),
    ensures
        post.step() == pre.step(),
        0 <= post.diff < post.step(),
        step is Advance ==> post.diff < delta,
{
    lemma_spawn_follows_consumption(pre, delta, now, post, step);
    lemma_time_debt_conservation_if_advanced(pre, delta, now, post, step);
    let mid = choose|mid: ContextView<R>|
        #[trigger] pre.polled(now, mid) && (post, step) == mid.advance(delta);
    lemma_polled(pre, now, mid);
}

proof fn lemma_time_debt_conservation_if_advanced<R>(
    pre: ContextView<R>,
    delta: u64,
    now: u64,
    post: ContextView<R>,
    step: FixedMainStep<R>,
)
    requires
        pre.inv(),
        pre.ticked(delta, now, post, step),
    ensures
        step matches FixedMainStep::Advance(r) ==> post.diff == accumulated(pre.diff, delta)
            - r.result_raw.simulated_time,
{
    if let FixedMainStep::Advance(r) = step {
        lemma_time_debt_conservation(pre, delta, now, post, r);
    }
}

} // verus!
