//! The agent: a bird with a brain, an eye, and physical state.
//!
//! Each tick the bird senses the nearest upcoming obstacle, lets its brain
//! decide whether to jump, then falls under gravity with its velocity clamped
//! into a fixed range.  Its fitness grows with every obstacle passed and
//! never reaches zero.

use vstd::prelude::*;

use crate::brain::{Brain, BRAIN_GENE_COUNT};
use crate::chromosome::Chromosome;
use crate::eye::Eye;
use crate::geometry::{boxes_intersect, Point2, Rectangle, AABB, COORD_MAX};
use crate::network::lemma_wf_for_implies_wf;
use crate::pipe::Pipe;
use crate::rng::RngSource;
use crate::{int_clamp, HALF, SCALE};

verus! {

/// The fixed horizontal position of every bird.
pub const BIRD_X: i64 = 1_500;

/// Half the side of a bird's bounding box.
pub const BIRD_RADIUS: i64 = 170;

/// Vertical velocity a fresh bird starts with.
pub const BIRD_DY_INIT: i64 = 50;

/// Downward velocity change per tick.
pub const GRAVITY: i64 = 6;

/// Upward velocity impulse of one jump.
pub const JUMP_IMPULSE: i64 = 180;

/// Lower clamp of the vertical velocity.
pub const DY_MIN: i64 = -100;

/// Upper clamp of the vertical velocity.
pub const DY_MAX: i64 = 150;

/// A jump fires only strictly more than this many ticks after the last one.
pub const JUMP_COOLDOWN: u64 = 19;

/// The fitness floor: a bird's fitness never falls to zero.
pub const FIT_FLOOR: u64 = 100;

/// Fitness reward per obstacle passed.
pub const PASS_REWARD: u64 = 200_000;

/// Cap on the pass counter, so the fitness always fits its word.
pub const PASSES_CAP: u64 = 1_000_000_000;

/// Cap on the jump cooldown counter.
pub const TIMER_CAP: u64 = 1_000_000_000;

/// Largest fitness a bird can accumulate.
pub const FIT_MAX: u64 = FIT_FLOOR + PASS_REWARD * PASSES_CAP;

/// An agent.
#[derive(Clone, Debug)]
pub struct Bird {
    /// Position; `x` is fixed at `BIRD_X` for the whole run.
    pub position: Point2,
    /// Vertical velocity.
    pub dy: i64,
    /// Fitness accumulator, always positive.
    pub fit_distance: u64,
    /// Obstacles passed this generation.
    pub passes: u64,
    /// Ticks since the last jump.
    pub jump_timer: u64,
    /// The sensor.
    pub eye: Eye,
    /// The network steering the bird.
    pub brain: Brain,
}

impl Bird {
    /// Physical state within its bands, and a brain of the fixed topology.
    pub open spec fn wf(&self) -> bool {
        &&& self.position.x == BIRD_X
        &&& -SCALE <= self.position.y <= 2 * SCALE
        &&& DY_MIN <= self.dy <= DY_MAX + JUMP_IMPULSE
        &&& 1 <= self.fit_distance <= FIT_MAX
        &&& self.passes <= PASSES_CAP
        &&& self.jump_timer <= TIMER_CAP
        &&& self.brain.wf()
    }

    /// Fresh physical state, as every construction path sets it.
    pub open spec fn fresh_state(&self) -> bool {
        &&& self.position.x == BIRD_X
        &&& 0 <= self.position.y < SCALE
        &&& self.dy == BIRD_DY_INIT
        &&& self.fit_distance == FIT_FLOOR
        &&& self.passes == 0
        &&& self.jump_timer == 0
    }

    /// Builds a bird around the given brain, with fresh physical state and a
    /// random height.
    pub fn new(brain: Brain, rng: &mut RngSource) -> (r: Bird)
        requires
            brain.wf(),
        ensures
            r.wf(),
            r.fresh_state(),
            r.brain == brain,
    {
        let y = rng.sample_range(0, SCALE - 1);
        Bird {
            position: Point2::new(BIRD_X, y),
            dy: BIRD_DY_INIT,
            fit_distance: FIT_FLOOR,
            passes: 0,
            jump_timer: 0,
            eye: Eye::new(),
            brain,
        }
    }

    /// Builds a bird with a fresh random brain.
    pub fn random(rng: &mut RngSource) -> (r: Bird)
        ensures
            r.wf(),
            r.fresh_state(),
    {
        let brain = Brain::random(rng);
        Bird::new(brain, rng)
    }

    /// Rebuilds a bird from an evolved genome: fresh physical state, brain
    /// inherited from the chromosome.
    pub fn from_chromosome(chromosome: Chromosome, rng: &mut RngSource) -> (r: Bird)
        requires
            chromosome@.len() == BRAIN_GENE_COUNT,
        ensures
            r.wf(),
            r.fresh_state(),
            r.brain.nn.weights_spec() == chromosome@,
    {
        let brain = Brain::from_chromosome(chromosome);
        Bird::new(brain, rng)
    }

    /// Whether the brain orders a jump for the given target: the single
    /// network output exceeds one half and the jump cooldown has elapsed.
    pub open spec fn jumps(&self, target: Point2) -> bool {
        let vision = Eye::vision_spec(self.dy, self.position, target);
        let response = self.brain.nn.propagate_spec(vision);
        response[0] > HALF && self.jump_timer > JUMP_COOLDOWN
    }

    /// The bird after one decision phase: on a jump, an upward impulse and a
    /// cooldown reset; the cooldown counter always advances by one tick.
    pub open spec fn decided(self, target: Point2) -> Bird {
        let jump = self.jumps(target);
        let dy1 = if jump {
            (self.dy + JUMP_IMPULSE) as i64
        } else {
            self.dy
        };
        let t1: u64 = if jump {
            0
        } else {
            self.jump_timer
        };
        let t2: u64 = if t1 < TIMER_CAP {
            (t1 + 1) as u64
        } else {
            t1
        };
        Bird { dy: dy1, jump_timer: t2, ..self }
    }

    /// One decision phase: sense, propagate, and jump if the brain says so
    /// and the cooldown has elapsed.
    pub fn decision(&mut self, target: Point2)
        requires
            old(self).wf(),
            old(self).dy <= DY_MAX,
            -COORD_MAX <= target.x <= COORD_MAX,
            -COORD_MAX <= target.y <= COORD_MAX,
        ensures
            *final(self) == old(self).decided(target),
            final(self).wf(),
    {
        let vision = self.eye.step_vision(self.dy, self.position, target);
        proof {
            Brain::lemma_topology();
            lemma_wf_for_implies_wf(self.brain.nn, Brain::topology_spec());
        }
        let response = self.brain.nn.propagate(vision);
        if response[0] > HALF && self.jump_timer > JUMP_COOLDOWN {
            self.dy = self.dy + JUMP_IMPULSE;
            self.jump_timer = 0;
        }
        if self.jump_timer < TIMER_CAP {
            self.jump_timer = self.jump_timer + 1;
        }
    }

    /// The bird after one movement phase: gravity pulls the velocity down,
    /// the velocity is clamped, the position integrates it, and the fitness
    /// is recomputed from the obstacles passed, with its positive floor.
    pub open spec fn moved(self) -> Bird {
        let dy1 = int_clamp(self.dy - GRAVITY, DY_MIN as int, DY_MAX as int) as i64;
        Bird {
            position: Point2 { x: self.position.x, y: (self.position.y + dy1) as i64 },
            dy: dy1,
            fit_distance: (FIT_FLOOR + PASS_REWARD * self.passes) as u64,
            ..self
        }
    }

    /// One movement phase.  It runs after the collision phase, so the bird
    /// still sits inside the vertical play band.
    pub fn movement(&mut self)
        requires
            old(self).wf(),
            BIRD_RADIUS <= old(self).position.y <= SCALE - BIRD_RADIUS,
        ensures
            *final(self) == old(self).moved(),
            final(self).wf(),
            DY_MIN <= final(self).dy <= DY_MAX,
            final(self).fit_distance >= FIT_FLOOR,
            0 <= final(self).position.y <= SCALE,
    {
        self.dy = self.dy - GRAVITY;
        if self.dy < DY_MIN {
            self.dy = DY_MIN;
        }
        if self.dy > DY_MAX {
            self.dy = DY_MAX;
        }
        self.position.y = self.position.y + self.dy;
        self.fit_distance = FIT_FLOOR + PASS_REWARD * self.passes;
    }

    /// The bird after being credited `count` newly retired obstacles, with
    /// the pass counter saturating at its cap.
    pub open spec fn credited(self, count: u64) -> Bird {
        let p = if self.passes + count <= PASSES_CAP {
            (self.passes + count) as u64
        } else {
            PASSES_CAP
        };
        Bird { passes: p, ..self }
    }

    /// Credits the bird `count` newly retired obstacles.
    pub fn credit_passes(&mut self, count: u64)
        requires
            old(self).wf(),
        ensures
            *final(self) == old(self).credited(count),
            final(self).wf(),
    {
        if count <= PASSES_CAP && self.passes <= PASSES_CAP - count {
            self.passes = self.passes + count;
        } else {
            self.passes = PASSES_CAP;
        }
    }

    /// The bird's fitness after the survival penalty for a collision.
    pub open spec fn halved(self) -> Bird {
        Bird { fit_distance: (self.fit_distance / 2) as u64, ..self }
    }

    /// Applies the survival penalty: the recorded fitness is halved.
    pub fn halve_fitness(&mut self)
        requires
            old(self).wf(),
            old(self).fit_distance >= 2,
        ensures
            *final(self) == old(self).halved(),
            final(self).wf(),
    {
        self.fit_distance = self.fit_distance / 2;
    }

    /// The bird's bounding box.
    pub open spec fn bird_rectangle_spec(&self) -> Rectangle {
        Rectangle {
            position: Point2 {
                x: (self.position.x - BIRD_RADIUS) as i64,
                y: (self.position.y - BIRD_RADIUS) as i64,
            },
            width: (2 * BIRD_RADIUS) as i64,
            height: (2 * BIRD_RADIUS) as i64,
        }
    }

    /// Builds the bird's bounding box.
    pub fn bird_rectangle(&self) -> (r: Rectangle)
        requires
            self.wf(),
        ensures
            r == self.bird_rectangle_spec(),
    {
        let position = Point2::new(self.position.x - BIRD_RADIUS, self.position.y - BIRD_RADIUS);
        Rectangle { position, width: 2 * BIRD_RADIUS, height: 2 * BIRD_RADIUS }
    }

    /// Whether the bird's box leaves the vertical play band.
    pub open spec fn hits_screen(&self) -> bool {
        self.position.y < BIRD_RADIUS || self.position.y > SCALE - BIRD_RADIUS
    }

    /// Collision with the playfield's top or bottom edge.
    pub fn collision_screen(&self) -> (r: bool)
        ensures
            r == self.hits_screen(),
    {
        let y = self.position.y;
        y < BIRD_RADIUS || y > SCALE - BIRD_RADIUS
    }

    /// Whether the bird's box overlaps the rectangle above the pipe's gap.
    pub open spec fn hits_pipe_top(&self, pipe: Pipe) -> bool {
        let a = self.bird_rectangle_spec();
        let b = pipe.top_rectangle_spec();
        boxes_intersect(
            a.top_spec(),
            a.right_spec(),
            a.bot_spec(),
            a.left_spec(),
            b.top_spec(),
            b.right_spec(),
            b.bot_spec(),
            b.left_spec(),
        )
    }

    /// Collision with the rectangle above the pipe's gap.
    pub fn collision_pipe_top(&self, closest_pipe: &Pipe) -> (r: bool)
        requires
            self.wf(),
            closest_pipe.wf(),
        ensures
            r == self.hits_pipe_top(*closest_pipe),
    {
        self.bird_rectangle().intersect(&closest_pipe.top_rectangle())
    }

    /// Whether the bird's box overlaps the rectangle below the pipe's gap.
    pub open spec fn hits_pipe_bot(&self, pipe: Pipe) -> bool {
        let a = self.bird_rectangle_spec();
        let b = pipe.bot_rectangle_spec();
        boxes_intersect(
            a.top_spec(),
            a.right_spec(),
            a.bot_spec(),
            a.left_spec(),
            b.top_spec(),
            b.right_spec(),
            b.bot_spec(),
            b.left_spec(),
        )
    }

    /// Collision with the rectangle below the pipe's gap.
    pub fn collision_pipe_bot(&self, closest_pipe: &Pipe) -> (r: bool)
        requires
            self.wf(),
            closest_pipe.wf(),
        ensures
            r == self.hits_pipe_bot(*closest_pipe),
    {
        self.bird_rectangle().intersect(&closest_pipe.bot_rectangle())
    }

    /// Whether the bird's box overlaps either rectangle of the pipe.
    pub open spec fn hits_pipe(&self, pipe: Pipe) -> bool {
        self.hits_pipe_top(pipe) || self.hits_pipe_bot(pipe)
    }

    /// Whether the bird collides at all, given the nearest upcoming obstacle
    /// (if any).
    pub open spec fn collides(&self, closest_pipe: Option<Pipe>) -> bool {
        self.hits_screen() || match closest_pipe {
            Some(p) => self.hits_pipe(p),
            None => false,
        }
    }

    /// Collision with either rectangle of the nearest obstacle, if one is
    /// ahead.
    pub fn collision_pipes(&self, closest_pipe: Option<&Pipe>) -> (r: bool)
        requires
            self.wf(),
            match closest_pipe {
                Some(p) => p.wf(),
                None => true,
            },
        ensures
            r == match closest_pipe {
                Some(p) => self.hits_pipe(*p),
                None => false,
            },
    {
        match closest_pipe {
            Some(pipe) => self.collision_pipe_top(pipe) || self.collision_pipe_bot(pipe),
            None => false,
        }
    }

    /// The full collision test: play-band edges, then the nearest obstacle.
    pub fn collision(&self, closest_pipe: Option<&Pipe>) -> (r: bool)
        requires
            self.wf(),
            match closest_pipe {
                Some(p) => p.wf(),
                None => true,
            },
        ensures
            r == self.collides(
                match closest_pipe {
                    Some(p) => Some(*p),
                    None => None,
                },
            ),
    {
        self.collision_screen() || self.collision_pipes(closest_pipe)
    }

    /// Reads the vertical velocity.
    pub fn dy(&self) -> (r: i64)
        ensures
            r == self.dy,
    {
        self.dy
    }

    /// Reads the position.
    pub fn position(&self) -> (r: Point2)
        ensures
            r == self.position,
    {
        self.position
    }

    /// Reads the fitness accumulator.
    pub fn fit_distance(&self) -> (r: u64)
        ensures
            r == self.fit_distance,
    {
        self.fit_distance
    }
}

} // verus!
