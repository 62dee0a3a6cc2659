//! The top-level driver: it owns the world and the genetic-algorithm engine,
//! runs the tick loop, detects extinction, and triggers evolution.
//!
//! Each tick runs the phases in a fixed order: collision check, periodic
//! obstacle spawn, decision, movement, extinction check.  When the last
//! agent dies, the whole generation — dead agents included — is evolved into
//! a fresh population, the playfield is cleared, and the tick counter
//! restarts.

use vstd::prelude::*;

use crate::bird_individual::BirdIndividual;
use crate::genetic::{
    lemma_total_fitness_pos, DefaultGeneticAlgorithm, Individual, MutationMethod,
};
use crate::pipe::{PIPE_DX, PIPE_OFFSET_X, PIPE_TICK_GENERATION};
use crate::rng::RngSource;
use crate::world::{
    alive_in_band, lemma_collision_split_len, next_pipe_spec, pipes_live, World, POPULATION_COUNT,
};
use crate::SCALE;

verus! {

/// How many ticks one bulk training call advances at most.
pub const TRAIN_TICK_BUDGET: u64 = 10_000;

/// The simulation: the world of the current generation, the tick and
/// generation counters, and the engine with its fixed strategy parameters.
pub struct Simulation {
    /// The current generation's world.
    pub world: World,
    /// Ticks since the last generation boundary.
    pub tick_count: u64,
    /// Generation boundaries seen so far.
    pub generations: u64,
    /// The genetic-algorithm engine.
    pub genetic_alg: DefaultGeneticAlgorithm,
}

impl Simulation {
    /// Well-formedness: the world is at a tick boundary, at least one agent
    /// exists (alive or dead) for the next evolution, and the engine's
    /// mutation parameters are usable.
    pub open spec fn wf(&self) -> bool {
        &&& self.world.settled()
        &&& self.world.alive_birds@.len() + self.world.dead_birds@.len() >= 1
        &&& self.genetic_alg.mutation_method.valid()
    }

    /// Builds a full random population in an empty playfield, with the
    /// default engine.
    pub fn random(rng: &mut RngSource) -> (r: Simulation)
        ensures
            r.wf(),
            r.tick_count == 0,
            r.generations == 0,
            r.world.alive_birds@.len() == POPULATION_COUNT,
            r.world.dead_birds@.len() == 0,
            r.world.pipes@.len() == 0,
    {
        Simulation {
            world: World::random(rng),
            tick_count: 0,
            generations: 0,
            genetic_alg: Default::default(),
        }
    }

    /// Builds a simulation around a given world, with the default engine and
    /// zeroed counters.
    pub fn with_world(world: World) -> (r: Simulation)
        requires
            world.settled(),
            world.alive_birds@.len() + world.dead_birds@.len() >= 1,
        ensures
            r.wf(),
            r.world == world,
            r.tick_count == 0,
            r.generations == 0,
    {
        Simulation { world, tick_count: 0, generations: 0, genetic_alg: Default::default() }
    }

    /// The pre-decision part of a tick: the collision phase, then — every
    /// `PIPE_TICK_GENERATION` ticks — one freshly spawned pipe.
    fn prepare_world(&mut self, ticks: u64, rng: &mut RngSource)
        requires
            old(self).wf(),
        ensures
            final(self).world.settled(),
            final(self).genetic_alg == old(self).genetic_alg,
            final(self).tick_count == old(self).tick_count,
            final(self).generations == old(self).generations,
            alive_in_band(final(self).world.alive_birds@),
            pipes_live(final(self).world.pipes@),
            ({
                let surv = World::survivors(
                    old(self).world.alive_birds@,
                    next_pipe_spec(old(self).world.pipes@),
                );
                &&& final(self).world.alive_birds@.len() == surv.len()
                &&& forall|i: int|
                    0 <= i < surv.len() ==> final(self).world.alive_birds@[i] == (#[trigger] surv[
                    i]).credited(World::retiring(old(self).world.pipes@) as u64)
            }),
            final(self).world.dead_birds@ == old(self).world.dead_birds@ + World::casualties(
                old(self).world.alive_birds@,
                next_pipe_spec(old(self).world.pipes@),
            ),
            ({
                let kept = World::kept_pipes(old(self).world.pipes@);
                if ticks % PIPE_TICK_GENERATION == 0 {
                    &&& final(self).world.pipes@.len() == kept.len() + 1
                    &&& final(self).world.pipes@.take(kept.len() as int) == kept
                } else {
                    final(self).world.pipes@ == kept
                }
            }),
    {
        self.world.collision();
        if ticks % PIPE_TICK_GENERATION == 0 {
            self.world.push_pipe(rng);
            proof {
                let n = self.world.pipes@.len() - 1;
                assert forall|i: int| 0 <= i < self.world.pipes@.len() implies (
                #[trigger] self.world.pipes@[i]).position.x > -PIPE_OFFSET_X by {
                    if i < n {
                        assert(self.world.pipes@[i] == self.world.pipes@.take(n)[i]);
                    } else {
                        assert(self.world.pipes@[i] == self.world.pipes@.last());
                        assert(self.world.pipes@.last().position.x == SCALE + PIPE_OFFSET_X);
                    }
                }
            }
        }
    }

    /// The post-spawn part of a tick: every alive bird decides against the
    /// same nearest obstacle, then everything moves.
    fn step_world(&mut self)
        requires
            old(self).world.settled(),
            alive_in_band(old(self).world.alive_birds@),
            pipes_live(old(self).world.pipes@),
        ensures
            final(self).world.settled(),
            final(self).genetic_alg == old(self).genetic_alg,
            final(self).tick_count == old(self).tick_count,
            final(self).generations == old(self).generations,
            final(self).world.dead_birds@ == old(self).world.dead_birds@,
            final(self).world.alive_birds@.len() == old(self).world.alive_birds@.len(),
            forall|i: int|
                0 <= i < final(self).world.alive_birds@.len()
                    ==> final(self).world.alive_birds@[i] == ((#[trigger] old(self).world.alive_birds@[i]).decided(
                    World::decision_target(old(self).world.pipes@),
                )).moved(),
            final(self).world.pipes@.len() == old(self).world.pipes@.len(),
            forall|i: int|
                0 <= i < final(self).world.pipes@.len() ==> final(self).world.pipes@[i].position.x
                    == (#[trigger] old(self).world.pipes@[i]).position.x - PIPE_DX
                    && final(self).world.pipes@[i].position.y
                    == old(self).world.pipes@[i].position.y,
    {
        self.world.decision();
        self.world.movement();
    }

    /// The generation boundary: every agent of the generation, dead or
    /// alive, becomes a fitness-bearing individual; the engine produces a
    /// same-size next generation; the new genomes become fresh birds; the
    /// playfield is cleared.
    fn evolve(&mut self, rng: &mut RngSource)
        requires
            old(self).wf(),
        ensures
            final(self).wf(),
            final(self).genetic_alg == old(self).genetic_alg,
            final(self).tick_count == old(self).tick_count,
            final(self).generations == old(self).generations,
            final(self).world.alive_birds@.len() == old(self).world.alive_birds@.len() + old(self).world.dead_birds@.len(),
            final(self).world.dead_birds@.len() == 0,
            final(self).world.pipes@.len() == 0,
            forall|i: int|
                0 <= i < final(self).world.alive_birds@.len() ==> (#[trigger] final(self).world.alive_birds@[i]).fresh_state(),
    {
        let population = self.world.birds_as_individuals();
        proof {
            lemma_total_fitness_pos::<BirdIndividual>(population@);
        }
        let evolved = self.genetic_alg.evolve(rng, &population);
        let birds = self.world.individuals_as_birds(evolved.0, rng);
        self.world.alive_birds = birds;
        self.world.dead_birds = Vec::new();
        self.world.pipes = Vec::new();
    }

    /// Advances one tick: collision check, periodic obstacle spawn, decision,
    /// movement, extinction check.  Returns whether a generation boundary
    /// occurred: exactly when no agent survived the collision phase, the
    /// whole generation is evolved, the playfield cleared, the tick counter
    /// reset and the generation counter incremented.
    pub fn step(&mut self, rng: &mut RngSource) -> (r: bool)
        requires
            old(self).wf(),
            old(self).tick_count < u64::MAX,
            old(self).generations < u64::MAX,
        ensures
            final(self).wf(),
            final(self).genetic_alg == old(self).genetic_alg,
            r == (World::survivors(
                old(self).world.alive_birds@,
                next_pipe_spec(old(self).world.pipes@),
            ).len() == 0),
            !r ==> final(self).generations == old(self).generations && final(self).tick_count
                == old(self).tick_count + 1 && final(self).world.alive_birds@.len() > 0,
            // On a tick without a boundary and without a spawn, the whole
            // world transition is a pure function of the old world: every
            // survivor is credited the retired pipes, decides against the
            // nearest remaining obstacle, and moves; every remaining pipe
            // scrolls left one step.
            !r && old(self).tick_count % PIPE_TICK_GENERATION != 0 ==> ({
                let np = next_pipe_spec(old(self).world.pipes@);
                let surv = World::survivors(old(self).world.alive_birds@, np);
                let credit = World::retiring(old(self).world.pipes@) as u64;
                let kept = World::kept_pipes(old(self).world.pipes@);
                let target = World::decision_target(kept);
                &&& final(self).world.alive_birds@.len() == surv.len()
                &&& forall|i: int|
                    0 <= i < surv.len() ==> final(self).world.alive_birds@[i] == ((
                    #[trigger] surv[i]).credited(credit)).decided(target).moved()
                &&& final(self).world.pipes@.len() == kept.len()
                &&& forall|i: int|
                    0 <= i < kept.len() ==> final(self).world.pipes@[i].position.x == (
                    #[trigger] kept[i]).position.x - PIPE_DX && final(self).world.pipes@[
                    i].position.y == kept[i].position.y
            }),
            r ==> final(self).generations == old(self).generations + 1 && final(self).tick_count
                == 0 && final(self).world.pipes@.len() == 0 && final(self).world.dead_birds@.len() == 0 && final(self).world.alive_birds@.len() == old(self).world.alive_birds@.len() + old(self).world.dead_birds@.len() && forall|i: int|
                0 <= i < final(self).world.alive_birds@.len() ==> (#[trigger] final(self).world.alive_birds@[i]).fresh_state(),
    {
        let ticks = self.tick_count;
        self.tick_count = self.tick_count + 1;

        self.prepare_world(ticks, rng);
        let ghost mid_alive = self.world.alive_birds@;
        let ghost mid_pipes = self.world.pipes@;
        self.step_world();

        proof {
            lemma_collision_split_len(
                old(self).world.alive_birds@,
                next_pipe_spec(old(self).world.pipes@),
            );
            if ticks % PIPE_TICK_GENERATION != 0 {
                let np = next_pipe_spec(old(self).world.pipes@);
                let surv = World::survivors(old(self).world.alive_birds@, np);
                let credit = World::retiring(old(self).world.pipes@) as u64;
                let kept = World::kept_pipes(old(self).world.pipes@);
                let target = World::decision_target(kept);
                assert(mid_pipes == kept);
                assert forall|i: int| 0 <= i < surv.len() implies self.world.alive_birds@[i] == ((
                #[trigger] surv[i]).credited(credit)).decided(target).moved() by {
                    assert(mid_alive[i] == surv[i].credited(credit));
                    assert(self.world.alive_birds@[i] == mid_alive[i].decided(
                        World::decision_target(mid_pipes),
                    ).moved());
                }
            }
        }
        if self.world.alive_birds.len() == 0 {
            self.evolve(rng);

            self.tick_count = 0;
            self.generations = self.generations + 1;

            true
        } else {
            false
        }
    }

    /// Bulk training: steps until a generation boundary fires, or until the
    /// tick budget runs out, whichever comes first.
    pub fn train(&mut self, rng: &mut RngSource)
        requires
            old(self).wf(),
            old(self).tick_count <= u64::MAX - TRAIN_TICK_BUDGET,
            old(self).generations < u64::MAX,
        ensures
            final(self).wf(),
            final(self).genetic_alg == old(self).genetic_alg,
            (final(self).generations == old(self).generations + 1 && final(self).tick_count == 0)
                || (final(self).generations == old(self).generations && final(self).tick_count
                == old(self).tick_count + TRAIN_TICK_BUDGET),
    {
        let new_tick_count = self.tick_count + TRAIN_TICK_BUDGET;
        loop
            invariant
                self.wf(),
                self.genetic_alg == old(self).genetic_alg,
                self.generations == old(self).generations,
                self.generations < u64::MAX,
                old(self).tick_count <= self.tick_count < new_tick_count,
                new_tick_count == old(self).tick_count + TRAIN_TICK_BUDGET,
            decreases new_tick_count - self.tick_count,
        {
            if self.step(rng) || self.tick_count >= new_tick_count {
                return ;
            }
        }
    }

    /// Borrows the world.
    pub fn world(&self) -> (r: &World)
        ensures
            r == &self.world,
    {
        &self.world
    }

    /// Reads the tick counter.
    pub fn tick_count(&self) -> (r: u64)
        ensures
            r == self.tick_count,
    {
        self.tick_count
    }

    /// Reads the generation counter.
    pub fn generations(&self) -> (r: u64)
        ensures
            r == self.generations,
    {
        self.generations
    }
}

} // verus!
