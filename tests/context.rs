use bevy_fixed_update_task::time::{accumulate, simulated_time_of};
use bevy_fixed_update_task::task::elapsed_between;
use bevy_fixed_update_task::{
    FixedMain, FixedMainStep, Phase, Received, SimulationContext, SubstepCount, TaskResults,
    TaskToRenderTime, Timestep, NANOS_PER_SEC,
};

fn context(timestep: u64, substeps: u32) -> SimulationContext<u32> {
    SimulationContext::new(Timestep { timestep }, SubstepCount(substeps))
}

#[test]
fn defaults() {
    assert_eq!(
        Timestep::default().timestep as u128,
        std::time::Duration::from_secs_f64(1.0 / 60.0).as_nanos()
    );
    assert_eq!(Timestep::default().timestep, 16_666_667);
    assert_eq!(NANOS_PER_SEC, 1_000_000_000);
    assert_eq!(SubstepCount::default().0, 1);
    let t = TaskToRenderTime::default();
    assert_eq!(t.diff, 0);
    assert_eq!(t.last_task_frame_count, 0);
    assert!(TaskResults::<u32>::default().results.is_empty());
}

#[test]
fn simulated_time_is_timestep_times_substeps() {
    assert_eq!(simulated_time_of(Timestep { timestep: 7 }, SubstepCount(3)), 21);
    assert_eq!(simulated_time_of(Timestep { timestep: 7 }, SubstepCount(0)), 0);
    assert_eq!(
        simulated_time_of(Timestep { timestep: u64::MAX }, SubstepCount(u32::MAX)),
        u64::MAX as u128 * u32::MAX as u128
    );
}

#[test]
fn time_debt_accumulates_and_saturates() {
    assert_eq!(accumulate(-5, 3), -2);
    assert_eq!(accumulate(i128::MAX - 1, 5), i128::MAX);
    assert_eq!(accumulate(i128::MAX, 0), i128::MAX);
}

#[test]
fn elapsed_time_never_negative() {
    assert_eq!(elapsed_between(10, 25), 15);
    assert_eq!(elapsed_between(25, 10), 0);
}

#[test]
fn first_tick_only_asks_for_a_task() {
    let mut ctx = context(10, 2);
    assert_eq!(ctx.phase(), Phase::Uninitialized);
    assert!(ctx.spawn_task(0).is_none());
    assert!(matches!(FixedMain::run_schedule(&mut ctx, 1000, 1000), FixedMainStep::Spawn));
    assert_eq!(ctx.task_to_render_time().diff, 0);
    assert_eq!(ctx.phase(), Phase::SpawnDue);
    let order = ctx.spawn_task(1000).unwrap();
    assert_eq!(order.timestep().timestep, 10);
    assert_eq!(order.substep_count().0, 2);
    assert!(ctx.has_pending_task());
    assert_eq!(ctx.phase(), Phase::Running);
}

#[test]
fn at_most_one_task_in_flight() {
    let mut ctx = context(10, 1);
    FixedMain::run_schedule(&mut ctx, 0, 0);
    let _order = ctx.spawn_task(0).unwrap();
    assert!(ctx.spawn_task(0).is_none());
    assert!(matches!(FixedMain::run_schedule(&mut ctx, 100, 100), FixedMainStep::Behind));
    assert!(ctx.spawn_task(100).is_none());
    assert!(ctx.has_pending_task());
    assert_eq!(ctx.queued_results(), 0);
}

#[test]
fn missed_spawn_is_asked_again() {
    let mut ctx = context(10, 1);
    FixedMain::run_schedule(&mut ctx, 0, 0);
    assert!(matches!(FixedMain::run_schedule(&mut ctx, 4, 4), FixedMainStep::Spawn));
    assert_eq!(ctx.task_to_render_time().diff, 4);
    assert!(ctx.spawn_task(4).is_some());
}

#[test]
fn ahead_then_behind_then_advance() {
    let mut ctx = context(10, 3);
    FixedMain::run_schedule(&mut ctx, 0, 0);
    let order = ctx.spawn_task(0).unwrap();
    // 20 < 30: the simulation is ahead of the render clock.
    assert!(matches!(FixedMain::run_schedule(&mut ctx, 20, 20), FixedMainStep::Ahead));
    // 40 >= 30, but the worker has not answered: slip.
    assert!(matches!(FixedMain::run_schedule(&mut ctx, 20, 40), FixedMainStep::Behind));
    assert_eq!(ctx.task_to_render_time().diff, 40);
    order.complete(7).unwrap();
    match FixedMain::run_schedule(&mut ctx, 5, 45) {
        FixedMainStep::Advance(result) => {
            assert_eq!(result.result_raw.result, 7);
            assert_eq!(result.result_raw.simulated_time, 30);
            assert_eq!(result.update_frames_elapsed, 3);
            assert_eq!(result.started_at_render_time, 0);
            assert_eq!(result.render_time_elapsed_during_the_simulation, 45);
        }
        _ => panic!("expected an advance"),
    }
    // 45 - 30: the debt falls by the simulated time, whatever the ticks waited.
    assert_eq!(ctx.task_to_render_time().diff, 15);
    assert_eq!(ctx.task_to_render_time().last_task_frame_count, 3);
    assert_eq!(ctx.phase(), Phase::SpawnDue);
}

#[test]
fn result_waits_in_queue_until_due() {
    let mut ctx = context(100, 1);
    FixedMain::run_schedule(&mut ctx, 0, 0);
    ctx.spawn_task(0).unwrap().complete(1).unwrap();
    assert!(matches!(FixedMain::run_schedule(&mut ctx, 10, 10), FixedMainStep::Ahead));
    assert!(!ctx.has_pending_task());
    assert_eq!(ctx.queued_results(), 1);
    assert!(ctx.spawn_task(10).is_none());
    assert!(matches!(FixedMain::run_schedule(&mut ctx, 95, 105), FixedMainStep::Advance(_)));
    assert_eq!(ctx.task_to_render_time().diff, 5);
    assert_eq!(ctx.queued_results(), 0);
}

#[test]
fn debt_goes_negative_on_catch_up() {
    let mut ctx = context(100, 1);
    FixedMain::run_schedule(&mut ctx, 0, 0);
    ctx.spawn_task(0).unwrap().complete(1).unwrap();
    // A smaller step now lets an older, longer result through.
    ctx.set_timestep(Timestep { timestep: 10 });
    assert!(matches!(FixedMain::run_schedule(&mut ctx, 40, 40), FixedMainStep::Advance(_)));
    assert_eq!(ctx.task_to_render_time().diff, -60);
}

#[test]
fn configuration_change_is_not_retroactive() {
    let mut ctx = context(10, 1);
    FixedMain::run_schedule(&mut ctx, 0, 0);
    let order = ctx.spawn_task(0).unwrap();
    ctx.set_timestep(Timestep { timestep: 50 });
    ctx.set_substep_count(SubstepCount(2));
    assert_eq!(ctx.timestep().timestep, 50);
    assert_eq!(ctx.substep_count().0, 2);
    order.complete(3).unwrap();
    match FixedMain::run_schedule(&mut ctx, 200, 200) {
        FixedMainStep::Advance(result) => assert_eq!(result.result_raw.simulated_time, 10),
        _ => panic!("expected an advance"),
    }
    assert_eq!(ctx.task_to_render_time().diff, 190);
    let next = ctx.spawn_task(200).unwrap();
    assert_eq!(next.timestep().timestep, 50);
    assert_eq!(next.substep_count().0, 2);
}

#[test]
fn write_backs_follow_completion_order_once_each() {
    let mut ctx = context(10, 1);
    let mut written = Vec::new();
    let mut spawned: u32 = 0;
    let mut now: u64 = 0;
    for _ in 0..50 {
        now += 10;
        match FixedMain::run_schedule(&mut ctx, 10, now) {
            FixedMainStep::Spawn => {}
            FixedMainStep::Advance(result) => written.push(result.result_raw.result),
            FixedMainStep::Ahead | FixedMainStep::Behind => continue,
        }
        let order = ctx.spawn_task(now).unwrap();
        order.complete(spawned).unwrap();
        spawned += 1;
    }
    assert_eq!(written.len(), 49);
    assert_eq!(spawned, 50);
    for (i, v) in written.iter().enumerate() {
        assert_eq!(*v, i as u32);
    }
}

#[test]
fn no_spawn_without_consumption() {
    let mut ctx = context(30, 1);
    let mut spawns = 0;
    let mut write_backs = 0;
    let mut now: u64 = 0;
    for tick in 0..40 {
        now += 10;
        let step = FixedMain::run_schedule(&mut ctx, 10, now);
        let consumed = matches!(step, FixedMainStep::Advance(_));
        if consumed {
            write_backs += 1;
        }
        let spawned = match ctx.spawn_task(now) {
            Some(order) => {
                order.complete(tick).unwrap();
                true
            }
            None => false,
        };
        if spawned {
            spawns += 1;
        }
        assert_eq!(spawned, consumed || tick == 0);
    }
    assert_eq!(spawns, write_backs + 1);
    assert!(write_backs > 0);
}

#[test]
fn lost_worker_degrades_to_slip() {
    let mut ctx = context(10, 1);
    FixedMain::run_schedule(&mut ctx, 0, 0);
    drop(ctx.spawn_task(0).unwrap());
    for i in 1..5u64 {
        assert!(matches!(FixedMain::run_schedule(&mut ctx, 10, 10 * i), FixedMainStep::Behind));
    }
    assert!(ctx.has_pending_task());
    assert!(ctx.worker_gone());
    assert_eq!(ctx.task_to_render_time().diff, 40);
}

#[test]
fn waiting_worker_is_not_gone() {
    let mut ctx = context(10, 1);
    FixedMain::run_schedule(&mut ctx, 0, 0);
    let _order = ctx.spawn_task(0).unwrap();
    FixedMain::run_schedule(&mut ctx, 10, 10);
    assert!(ctx.has_pending_task());
    assert!(!ctx.worker_gone());
}

#[test]
fn lagging_poll_waits_for_the_result() {
    let mut ctx = context(10, 1);
    assert_eq!(ctx.max_lag_frames(), None);
    ctx.set_max_lag_frames(Some(1));
    assert_eq!(ctx.max_lag_frames(), Some(1));
    FixedMain::run_schedule(&mut ctx, 0, 0);
    let order = ctx.spawn_task(0).unwrap();
    // First poll: within the allowed lag, it does not wait.
    ctx.finish_task_and_store_result(1);
    assert!(ctx.has_pending_task());
    order.complete(5).unwrap();
    // Second poll: past the allowed lag, it waits, and the result is there.
    ctx.finish_task_and_store_result(2);
    assert!(!ctx.has_pending_task());
    assert_eq!(ctx.queued_results(), 1);
}

#[test]
fn lagging_poll_returns_when_worker_is_gone() {
    let mut ctx = context(10, 1);
    ctx.set_max_lag_frames(Some(0));
    FixedMain::run_schedule(&mut ctx, 0, 0);
    drop(ctx.spawn_task(0).unwrap());
    ctx.finish_task_and_store_result(1);
    assert!(ctx.has_pending_task());
    assert!(ctx.worker_gone());
}

#[test]
fn poll_queues_what_arrived() {
    let mut ctx = context(10, 1);
    FixedMain::run_schedule(&mut ctx, 0, 0);
    let order = ctx.spawn_task(5).unwrap();
    ctx.finish_task_and_store_result(6);
    assert!(ctx.has_pending_task());
    order.complete(9).unwrap();
    ctx.finish_task_and_store_result(8);
    assert!(!ctx.has_pending_task());
    assert_eq!(ctx.queued_results(), 1);
    match ctx.advance(10) {
        FixedMainStep::Advance(result) => {
            assert_eq!(result.result_raw.result, 9);
            assert_eq!(result.update_frames_elapsed, 2);
            assert_eq!(result.render_time_elapsed_during_the_simulation, 3);
        }
        _ => panic!("expected an advance"),
    }
}

#[test]
fn stored_outcomes() {
    let mut ctx = context(10, 1);
    ctx.store_task_outcome(Received::Message(1), 0);
    assert_eq!(ctx.queued_results(), 0);
    FixedMain::run_schedule(&mut ctx, 0, 0);
    let _order = ctx.spawn_task(0).unwrap();
    ctx.store_task_outcome(Received::Empty, 1);
    ctx.store_task_outcome(Received::Disconnected, 2);
    assert!(ctx.has_pending_task());
    ctx.store_task_outcome(Received::Message(4), 3);
    assert!(!ctx.has_pending_task());
    match ctx.advance(10) {
        FixedMainStep::Advance(result) => {
            assert_eq!(result.result_raw.result, 4);
            assert_eq!(result.update_frames_elapsed, 3);
        }
        _ => panic!("expected an advance"),
    }
}

#[test]
fn completing_for_a_dropped_context_hands_result_back() {
    let mut ctx = context(10, 1);
    FixedMain::run_schedule(&mut ctx, 0, 0);
    let order = ctx.spawn_task(0).unwrap();
    drop(ctx);
    assert_eq!(order.complete(42), Err(42));
}

#[test]
fn steady_catch_up_keeps_debt_within_one_step() {
    // Step 100 ns, 30 ns of render time per tick, results always ready.
    let mut ctx = context(100, 1);
    let mut now: u64 = 0;
    let mut consumed = 0;
    for _ in 0..200 {
        now += 30;
        match FixedMain::run_schedule(&mut ctx, 30, now) {
            FixedMainStep::Spawn => ctx.spawn_task(now).unwrap().complete(0).unwrap(),
            FixedMainStep::Advance(_) => {
                consumed += 1;
                assert!(ctx.task_to_render_time().diff < 30);
                ctx.spawn_task(now).unwrap().complete(0).unwrap();
            }
            FixedMainStep::Behind => panic!("results are always ready"),
            FixedMainStep::Ahead => {}
        }
        let diff = ctx.task_to_render_time().diff;
        assert!((0..100).contains(&diff));
    }
    // 199 ticks of 30 ns pay for 59 steps of 100 ns.
    assert_eq!(consumed, 59);
}
