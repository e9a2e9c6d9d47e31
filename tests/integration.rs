use std::time::Duration;

use bevy_fixed_update_task::{
    FixedMain, FixedMainStep, SimulationContext, SubstepCount, TaskResult, Timestep,
};

/// The state the simulated objects live in, as a host would hold it.
struct World {
    positions: Vec<f32>,
    write_back_count: usize,
}

fn work(mut positions: Vec<f32>, timestep: Timestep, substep_count: SubstepCount) -> Vec<f32> {
    let advance = Duration::from_nanos(timestep.timestep).as_secs_f32() * substep_count.0 as f32;
    for p in positions.iter_mut() {
        *p += advance;
    }
    positions
}

fn write_back(world: &mut World, result: TaskResult<Vec<f32>>) {
    world.positions = result.result_raw.result;
    world.write_back_count += 1;
}

/// Spawns the owed task, and runs its worker to completion at once.
fn spawn(ctx: &mut SimulationContext<Vec<f32>>, world: &World, now: u64) {
    if let Some(order) = ctx.spawn_task(now) {
        let result = work(world.positions.clone(), order.timestep(), order.substep_count());
        let _ = order.complete(result);
    }
}

fn run(ctx: &mut SimulationContext<Vec<f32>>, world: &mut World, delta: Duration, ticks: usize) {
    let delta = delta.as_nanos() as u64;
    let mut now: u64 = 0;
    for _ in 0..ticks {
        now += delta;
        match FixedMain::run_schedule(ctx, delta, now) {
            FixedMainStep::Spawn => spawn(ctx, world, now),
            FixedMainStep::Advance(result) => {
                write_back(world, result);
                spawn(ctx, world, now);
            }
            FixedMainStep::Ahead | FixedMainStep::Behind => {}
        }
    }
}

fn diff_secs(ctx: &SimulationContext<Vec<f32>>) -> f64 {
    ctx.task_to_render_time().diff as f64 / 1e9
}

#[test]
pub fn minimal_move_lose_time() {
    let mut ctx = SimulationContext::new(
        Timestep {
            timestep: Duration::from_secs_f32(1.0 / 60.0).as_nanos() as u64,
        },
        SubstepCount::default(),
    );
    let mut world = World {
        positions: vec![0.0],
        write_back_count: 0,
    };
    run(&mut ctx, &mut world, Duration::from_secs_f32(1.0), 11);
    assert_eq!(10, world.write_back_count);
    let task_to_render_time = diff_secs(&ctx);
    assert!(
        2.33 < task_to_render_time,
        "Task to render time should be greater than 2.33 (task behind render time), but it is: {}",
        task_to_render_time
    );
}

#[test]
pub fn minimal_move_catch_back_time() {
    let mut ctx = SimulationContext::new(
        Timestep {
            timestep: Duration::from_secs_f64(1.0 / 60.0).as_nanos() as u64,
        },
        SubstepCount(60),
    );
    let mut world = World {
        positions: vec![0.0],
        write_back_count: 0,
    };
    run(&mut ctx, &mut world, Duration::from_secs_f32(1.0 / 30.0), 121);
    assert_eq!(4, world.write_back_count);
    let task_to_render_time = diff_secs(&ctx);
    assert!(
        task_to_render_time < 0.01,
        "Task to render time should be lower than 0.01, but it is: {}",
        task_to_render_time
    );
}

#[test]
fn catch_up_moves_objects_by_simulated_time() {
    let mut ctx = SimulationContext::new(
        Timestep {
            timestep: Duration::from_secs_f64(1.0 / 60.0).as_nanos() as u64,
        },
        SubstepCount(60),
    );
    let mut world = World {
        positions: vec![0.0, 10.0],
        write_back_count: 0,
    };
    run(&mut ctx, &mut world, Duration::from_secs_f32(1.0 / 30.0), 121);
    assert!((world.positions[0] - 4.0).abs() < 1e-3);
    assert!((world.positions[1] - 14.0).abs() < 1e-3);
    assert!(ctx.task_to_render_time().diff.abs() < 10_000_000);
}
