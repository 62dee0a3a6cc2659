//! Tests of the agents, obstacles, world phases and the tick loop: collision
//! geometry, the sensory vector, extinction-triggered evolution, and the
//! obstacle lifecycle.

use evosim::bird::{Bird, BIRD_RADIUS, BIRD_X};
use evosim::geometry::Point2;
use evosim::pipe::{Pipe, PIPE_OFFSET_X, PIPE_TICK_GENERATION};
use evosim::rng::RngSource;
use evosim::simulation::Simulation;
use evosim::world::{World, POPULATION_COUNT};
use evosim::{HALF, SCALE};

/// A world holding one bird at the given height, and the given pipes.
fn one_bird_world(seed: u64, y: i64, pipes: Vec<Pipe>) -> World {
    let mut rng = RngSource::seeded(seed);
    let mut bird = Bird::random(&mut rng);
    bird.position.y = y;
    World { alive_birds: vec![bird], dead_birds: Vec::new(), pipes }
}

fn pipe_at(x: i64, y: i64) -> Pipe {
    Pipe { position: Point2 { x, y } }
}

#[test]
fn fresh_bird_state() {
    let mut rng = RngSource::seeded(2);
    let bird = Bird::random(&mut rng);
    assert_eq!(bird.position().x, BIRD_X);
    assert!(0 <= bird.position().y && bird.position().y < SCALE);
    assert_eq!(bird.dy(), 50);
    assert_eq!(bird.fit_distance(), 100);
    assert_eq!(bird.passes, 0);
}

#[test]
fn screen_collision_at_the_band_edges() {
    let mut rng = RngSource::seeded(4);
    let mut bird = Bird::random(&mut rng);

    bird.position.y = BIRD_RADIUS;
    assert!(!bird.collision_screen());
    bird.position.y = BIRD_RADIUS - 1;
    assert!(bird.collision_screen());
    bird.position.y = SCALE - BIRD_RADIUS;
    assert!(!bird.collision_screen());
    bird.position.y = SCALE - BIRD_RADIUS + 1;
    assert!(bird.collision_screen());
}

#[test]
fn pipe_collision_against_the_gap_edges() {
    let mut rng = RngSource::seeded(6);
    let mut bird = Bird::random(&mut rng);
    // A pipe right over the bird's column, gap spanning 3700..6300.
    let pipe = pipe_at(BIRD_X, 5_000);

    bird.position.y = 5_000;
    assert!(!bird.collision_pipe_top(&pipe));
    assert!(!bird.collision_pipe_bot(&pipe));
    assert!(!bird.collision(Some(&pipe)));

    // Touching the top rectangle: the bird's box must cross 6300 strictly.
    bird.position.y = 6_300 - BIRD_RADIUS;
    assert!(!bird.collision_pipe_top(&pipe));
    bird.position.y = 6_300 - BIRD_RADIUS + 1;
    assert!(bird.collision_pipe_top(&pipe));

    // Same at the bottom edge 3700.
    bird.position.y = 3_700 + BIRD_RADIUS;
    assert!(!bird.collision_pipe_bot(&pipe));
    bird.position.y = 3_700 + BIRD_RADIUS - 1;
    assert!(bird.collision_pipe_bot(&pipe));
}

#[test]
fn pipe_out_of_reach_does_not_collide() {
    let mut rng = RngSource::seeded(8);
    let mut bird = Bird::random(&mut rng);
    bird.position.y = 6_400;
    // Far to the right: no horizontal overlap with the bird's box.
    let pipe = pipe_at(5_000, 5_000);
    assert!(!bird.collision(Some(&pipe)));
    assert!(!bird.collision(None));
}

#[test]
fn eye_reports_the_five_features() {
    let mut rng = RngSource::seeded(10);
    let bird = Bird::random(&mut rng);
    let vision = bird.eye.step_vision(
        50,
        Point2::new(1_500, 4_000),
        Point2::new(3_000, 5_000),
    );
    assert_eq!(vision, vec![4_000, -300, 2_300, 1_500, 50]);
}

#[test]
fn next_pipe_picks_the_nearest_ahead() {
    let world = World {
        alive_birds: Vec::new(),
        dead_birds: Vec::new(),
        pipes: vec![pipe_at(2_000, 5_000), pipe_at(1_500, 4_000), pipe_at(800, 6_000)],
    };
    // Pipes behind the birds' column (x <= 1060) are ignored.
    let nearest = world.next_pipe().unwrap();
    assert_eq!(nearest.position().x, 1_500);
    assert_eq!(nearest.position().y, 4_000);

    let empty = World { alive_birds: Vec::new(), dead_birds: Vec::new(), pipes: Vec::new() };
    assert!(empty.next_pipe().is_none());
}

#[test]
fn fresh_world_and_simulation() {
    let mut rng = RngSource::seeded(12);
    let world = World::random(&mut rng);
    assert_eq!(world.birds().len(), POPULATION_COUNT);
    assert_eq!(world.pipes().len(), 0);
    assert_eq!(world.dead_birds.len(), 0);

    let mut rng2 = RngSource::seeded(12);
    let sim = Simulation::random(&mut rng2);
    assert_eq!(sim.tick_count(), 0);
    assert_eq!(sim.generations(), 0);
    assert_eq!(sim.world().birds().len(), POPULATION_COUNT);
}

#[test]
fn equal_seeds_replay_the_same_run() {
    let mut rng_a = RngSource::seeded(77);
    let mut rng_b = RngSource::seeded(77);
    let mut sim_a = Simulation::random(&mut rng_a);
    let mut sim_b = Simulation::random(&mut rng_b);

    for _ in 0..200 {
        let boundary_a = sim_a.step(&mut rng_a);
        let boundary_b = sim_b.step(&mut rng_b);
        assert_eq!(boundary_a, boundary_b);
    }
    assert_eq!(sim_a.tick_count(), sim_b.tick_count());
    assert_eq!(sim_a.world().birds().len(), sim_b.world().birds().len());
    for (a, b) in sim_a.world().birds().iter().zip(sim_b.world().birds().iter()) {
        assert_eq!(a.position(), b.position());
        assert_eq!(a.dy(), b.dy());
        assert_eq!(a.fit_distance(), b.fit_distance());
    }
}

#[test]
fn extinction_triggers_evolution() {
    // One agent, no obstacles, pushed past the vertical bound: the first
    // step must report a generation boundary, reset the tick counter and
    // increment the generation counter, with a same-size fresh population.
    let mut rng = RngSource::seeded(14);
    let world = one_bird_world(14, 2 * SCALE, Vec::new());
    let mut sim = Simulation::with_world(world);

    let boundary = sim.step(&mut rng);
    assert!(boundary);
    assert_eq!(sim.generations(), 1);
    assert_eq!(sim.tick_count(), 0);
    assert_eq!(sim.world().birds().len(), 1);
    assert_eq!(sim.world().pipes().len(), 0);
    let reborn = &sim.world().birds()[0];
    assert_eq!(reborn.passes, 0);
    assert_eq!(reborn.fit_distance(), 100);
    assert_eq!(reborn.dy(), 50);
}

#[test]
fn surviving_step_reports_no_boundary() {
    let mut rng = RngSource::seeded(16);
    let world = one_bird_world(16, HALF, Vec::new());
    let mut sim = Simulation::with_world(world);

    let boundary = sim.step(&mut rng);
    assert!(!boundary);
    assert_eq!(sim.generations(), 0);
    assert_eq!(sim.tick_count(), 1);
    assert_eq!(sim.world().birds().len(), 1);
}

#[test]
fn train_runs_to_the_generation_boundary() {
    let mut rng = RngSource::seeded(18);
    let world = one_bird_world(18, 2 * SCALE, Vec::new());
    let mut sim = Simulation::with_world(world);

    sim.train(&mut rng);
    assert_eq!(sim.generations(), 1);
    assert_eq!(sim.tick_count(), 0);
}

#[test]
fn retired_pipe_credits_every_alive_bird() {
    // A pipe already past the retirement edge: one collision phase retires
    // it and credits the only bird one pass.
    let mut world = one_bird_world(20, HALF, vec![pipe_at(-PIPE_OFFSET_X, 5_000)]);
    world.collision();
    assert_eq!(world.pipes().len(), 0);
    assert_eq!(world.birds().len(), 1);
    assert_eq!(world.birds()[0].passes, 1);
}

#[test]
fn obstacle_lifecycle_over_the_spawn_cadence() {
    // Drive the simulation with a bird that is re-centred after every tick,
    // so that nobody dies and the obstacle bookkeeping alone is observed.
    let mut rng = RngSource::seeded(22);
    let world = one_bird_world(22, HALF, Vec::new());
    let mut sim = Simulation::with_world(world);

    let cadence = PIPE_TICK_GENERATION;
    // A pipe spawned at tick `t` stands at `10440 - 45 * k` after `k` ticks
    // and is retired by the collision phase of the first tick that sees it
    // at or below `-440`: 242 ticks after its spawn tick, retired on tick 243.
    let retirement_step: u64 = 243;

    for step in 1..=retirement_step {
        let boundary = sim.step(&mut rng);
        assert!(!boundary);
        let expected_spawned = (step - 1) / cadence + 1;
        let expected_retired: u64 = if step >= retirement_step { 1 } else { 0 };
        assert_eq!(sim.world().pipes().len() as u64, expected_spawned - expected_retired);
        // Park the bird in the middle of the nearest gap, so that only the
        // obstacle bookkeeping is observed.
        let safe_y = sim.world().next_pipe().map(|p| p.position().y).unwrap_or(HALF);
        let bird = &mut sim.world.alive_birds[0];
        assert_eq!(bird.passes, expected_retired);
        bird.position.y = safe_y;
        bird.dy = 50;
    }
    // After the first retirement the only bird has been credited one pass,
    // and its next movement phase pays the pass reward on top of the floor.
    assert_eq!(sim.world().birds()[0].passes, 1);
    let boundary = sim.step(&mut rng);
    assert!(!boundary);
    assert_eq!(sim.world().birds()[0].fit_distance(), 100 + 200_000);
}

#[test]
fn pipe_scrolls_left_and_retires() {
    let mut p = pipe_at(SCALE + PIPE_OFFSET_X, 5_000);
    assert!(!p.collision());
    p.movement();
    assert_eq!(p.position().x, SCALE + PIPE_OFFSET_X - 45);
    assert_eq!(p.position().y, 5_000);

    let q = pipe_at(-PIPE_OFFSET_X, 5_000);
    assert!(q.collision());
}

#[test]
fn dead_bird_keeps_half_its_fitness() {
    // A bird out of the play band dies during the collision phase and its
    // recorded fitness is halved as the survival penalty.
    let mut world = one_bird_world(24, 2 * SCALE, Vec::new());
    world.alive_birds[0].fit_distance = 100;
    world.collision();
    assert_eq!(world.birds().len(), 0);
    assert_eq!(world.dead_birds.len(), 1);
    assert_eq!(world.dead_birds[0].fit_distance(), 50);
}
