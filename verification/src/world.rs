//! The world of one generation: the alive and dead agents and the active
//! obstacles, together with the per-tick phases — collision, obstacle
//! spawning and retirement, decision, and movement.

use vstd::prelude::*;

use crate::bird::{Bird, BIRD_RADIUS, BIRD_X, DY_MAX, DY_MIN, FIT_FLOOR};
use crate::bird_individual::BirdIndividual;
use crate::brain::BRAIN_GENE_COUNT;
use crate::genetic::Individual;
use crate::geometry::{Point2, COORD_MAX};
use crate::pipe::{default_target_spec, Pipe, PIPE_DX, PIPE_OFFSET_X};
use crate::rng::RngSource;
use crate::{HALF, SCALE};

verus! {

/// How many agents a fresh world starts with.
pub const POPULATION_COUNT: usize = 70;

/// Every bird of the sequence is well-formed.
pub open spec fn birds_wf(birds: Seq<Bird>) -> bool {
    forall|i: int| 0 <= i < birds.len() ==> (#[trigger] birds[i]).wf()
}

/// What holds of every alive bird at a tick boundary: well-formed, velocity
/// inside the clamp range, fitness at or above the floor.
pub open spec fn alive_bird_ok(b: Bird) -> bool {
    &&& b.wf()
    &&& DY_MIN <= b.dy <= DY_MAX
    &&& b.fit_distance >= FIT_FLOOR
}

/// Every alive bird of the sequence is at a tick boundary state.
pub open spec fn alive_birds_ok(birds: Seq<Bird>) -> bool {
    forall|i: int| 0 <= i < birds.len() ==> alive_bird_ok(#[trigger] birds[i])
}

/// Every bird sits inside the vertical play band (as survivors of the
/// collision phase do).
pub open spec fn alive_in_band(birds: Seq<Bird>) -> bool {
    forall|i: int|
        0 <= i < birds.len() ==> BIRD_RADIUS <= (#[trigger] birds[i]).position.y <= SCALE
            - BIRD_RADIUS
}

/// Every pipe of the sequence is well-formed.
pub open spec fn pipes_wf(pipes: Seq<Pipe>) -> bool {
    forall|i: int| 0 <= i < pipes.len() ==> (#[trigger] pipes[i]).wf()
}

/// Every pipe still sits ahead of the retirement edge.
pub open spec fn pipes_live(pipes: Seq<Pipe>) -> bool {
    forall|i: int| 0 <= i < pipes.len() ==> (#[trigger] pipes[i]).position.x > -PIPE_OFFSET_X
}

/// The nearest obstacle still ahead of the birds: among the pipes that have
/// not yet scrolled past the birds' column, the one with the least `x`
/// (ties keep the earlier pipe).
pub open spec fn next_pipe_spec(pipes: Seq<Pipe>) -> Option<Pipe>
    decreases pipes.len(),
{
    if pipes.len() == 0 {
        None
    } else {
        let rest = next_pipe_spec(pipes.drop_last());
        let pl = pipes.last();
        if pl.position.x > BIRD_X - PIPE_OFFSET_X {
            match rest {
                None => Some(pl),
                Some(q) => if q.position.x <= pl.position.x {
                    Some(q)
                } else {
                    Some(pl)
                },
            }
        } else {
            rest
        }
    }
}

/// Unfolds the nearest-obstacle choice over one more prefix element.
proof fn lemma_next_pipe_take_step(pipes: Seq<Pipe>, i: int)
    requires
        0 <= i < pipes.len(),
    ensures
        next_pipe_spec(pipes.take(i + 1)) == ({
            let rest = next_pipe_spec(pipes.take(i));
            let pl = pipes[i];
            if pl.position.x > BIRD_X - PIPE_OFFSET_X {
                match rest {
                    None => Some(pl),
                    Some(q) => if q.position.x <= pl.position.x {
                        Some(q)
                    } else {
                        Some(pl)
                    },
                }
            } else {
                rest
            }
        }),
{
    assert(pipes.take(i + 1).drop_last() =~= pipes.take(i));
    assert(pipes.take(i + 1).last() == pipes[i]);
}

/// The nearest obstacle, when there is one, is itself a well-formed pipe.
proof fn lemma_next_pipe_wf(pipes: Seq<Pipe>)
    requires
        pipes_wf(pipes),
    ensures
        match next_pipe_spec(pipes) {
            Some(p) => p.wf(),
            None => true,
        },
    decreases pipes.len(),
{
    if pipes.len() > 0 {
        assert(forall|i: int|
            0 <= i < pipes.len() - 1 ==> (#[trigger] pipes.drop_last()[i]) == pipes[i]);
        lemma_next_pipe_wf(pipes.drop_last());
        assert(pipes.last().wf());
    }
}

/// The world of one generation.
#[derive(Debug)]
pub struct World {
    /// The agents still flying.
    pub alive_birds: Vec<Bird>,
    /// The agents that collided this generation, kept for the evolution step.
    pub dead_birds: Vec<Bird>,
    /// The active obstacles, in spawn order.
    pub pipes: Vec<Pipe>,
}

impl World {
    /// Basic well-formedness: every bird and pipe is well-formed.  This also
    /// holds in the middle of a tick.
    pub open spec fn wf(&self) -> bool {
        &&& birds_wf(self.alive_birds@)
        &&& birds_wf(self.dead_birds@)
        &&& pipes_wf(self.pipes@)
    }

    /// Well-formedness at a tick boundary: additionally, every alive bird is
    /// at a boundary state.
    pub open spec fn settled(&self) -> bool {
        &&& self.wf()
        &&& alive_birds_ok(self.alive_birds@)
    }

    /// The alive birds that survive the collision phase against the given
    /// nearest obstacle.
    pub open spec fn survivors(birds: Seq<Bird>, closest: Option<Pipe>) -> Seq<Bird> {
        birds.filter(|b: Bird| !b.collides(closest))
    }

    /// The alive birds that collide, with the survival penalty applied.
    pub open spec fn casualties(birds: Seq<Bird>, closest: Option<Pipe>) -> Seq<Bird> {
        birds.filter(|b: Bird| b.collides(closest)).map_values(|b: Bird| b.halved())
    }

    /// How many pipes are due for retirement.
    pub open spec fn retiring(pipes: Seq<Pipe>) -> int {
        pipes.filter(|p: Pipe| p.position.x <= -PIPE_OFFSET_X).len() as int
    }

    /// The pipes that stay after retirement.
    pub open spec fn kept_pipes(pipes: Seq<Pipe>) -> Seq<Pipe> {
        pipes.filter(|p: Pipe| p.position.x > -PIPE_OFFSET_X)
    }

    /// The point the birds steer for: the nearest obstacle's gap centre, or
    /// the default target when nothing is ahead.
    pub open spec fn decision_target(pipes: Seq<Pipe>) -> Point2 {
        match next_pipe_spec(pipes) {
            Some(p) => p.position,
            None => default_target_spec(),
        }
    }
}

/// Unfolds the survivor and casualty split over one more prefix element.
proof fn lemma_collision_split_step(birds: Seq<Bird>, closest: Option<Pipe>, i: int)
    requires
        0 <= i < birds.len(),
    ensures
        World::survivors(birds.take(i + 1), closest) == World::survivors(birds.take(i), closest)
            + if !birds[i].collides(closest) {
            seq![birds[i]]
        } else {
            Seq::<Bird>::empty()
        },
        World::casualties(birds.take(i + 1), closest) == World::casualties(birds.take(i), closest)
            + if birds[i].collides(closest) {
            seq![birds[i].halved()]
        } else {
            Seq::<Bird>::empty()
        },
{
    reveal(Seq::filter);
    assert(birds.take(i + 1).drop_last() =~= birds.take(i));
    assert(birds.take(i + 1).last() == birds[i]);
    let keep = |b: Bird| !b.collides(closest);
    let hit = |b: Bird| b.collides(closest);
    if keep(birds[i]) {
        assert(birds.take(i + 1).filter(keep) =~= birds.take(i).filter(keep) + seq![birds[i]]);
        assert(birds.take(i + 1).filter(hit) =~= birds.take(i).filter(hit));
    } else {
        assert(birds.take(i + 1).filter(keep) =~= birds.take(i).filter(keep));
        assert(birds.take(i + 1).filter(hit) =~= birds.take(i).filter(hit) + seq![birds[i]]);
    }
    assert(World::casualties(birds.take(i + 1), closest) =~= World::casualties(
        birds.take(i),
        closest,
    )
        + if birds[i].collides(closest) {
        seq![birds[i].halved()]
    } else {
        Seq::<Bird>::empty()
    });
}

/// Unfolds the pipe retirement split over one more prefix element.
proof fn lemma_pipe_split_step(pipes: Seq<Pipe>, i: int)
    requires
        0 <= i < pipes.len(),
    ensures
        World::kept_pipes(pipes.take(i + 1)) == World::kept_pipes(pipes.take(i))
            + if pipes[i].position.x > -PIPE_OFFSET_X {
            seq![pipes[i]]
        } else {
            Seq::<Pipe>::empty()
        },
        World::retiring(pipes.take(i + 1)) == World::retiring(pipes.take(i)) + if pipes[
            i
        ].position.x <= -PIPE_OFFSET_X {
            1int
        } else {
            0int
        },
{
    reveal(Seq::filter);
    assert(pipes.take(i + 1).drop_last() =~= pipes.take(i));
    assert(pipes.take(i + 1).last() == pipes[i]);
    let keep = |p: Pipe| p.position.x > -PIPE_OFFSET_X;
    let retire = |p: Pipe| p.position.x <= -PIPE_OFFSET_X;
    if keep(pipes[i]) {
        assert(pipes.take(i + 1).filter(keep) =~= pipes.take(i).filter(keep) + seq![pipes[i]]);
        assert(pipes.take(i + 1).filter(retire) =~= pipes.take(i).filter(retire));
    } else {
        assert(pipes.take(i + 1).filter(keep) =~= pipes.take(i).filter(keep));
        assert(pipes.take(i + 1).filter(retire) =~= pipes.take(i).filter(retire) + seq![pipes[i]]);
    }
}

/// Every alive bird either survives the collision phase or becomes a
/// casualty: the two splits cover the population.
pub proof fn lemma_collision_split_len(birds: Seq<Bird>, closest: Option<Pipe>)
    ensures
        World::survivors(birds, closest).len() + World::casualties(birds, closest).len()
            == birds.len(),
    decreases birds.len(),
{
    reveal(Seq::filter);
    if birds.len() > 0 {
        lemma_collision_split_len(birds.drop_last(), closest);
        assert(World::casualties(birds, closest).len() == birds.filter(
            |b: Bird| b.collides(closest),
        ).len());
    }
}

/// Filtering an empty prefix gives an empty sequence.
proof fn lemma_filter_empty(birds: Seq<Bird>, closest: Option<Pipe>, pipes: Seq<Pipe>)
    ensures
        World::survivors(birds.take(0), closest) == Seq::<Bird>::empty(),
        World::casualties(birds.take(0), closest) == Seq::<Bird>::empty(),
        World::kept_pipes(pipes.take(0)) == Seq::<Pipe>::empty(),
        World::retiring(pipes.take(0)) == 0,
{
    reveal(Seq::filter);
    assert(birds.take(0) =~= Seq::<Bird>::empty());
    assert(pipes.take(0) =~= Seq::<Pipe>::empty());
    assert(World::casualties(birds.take(0), closest) =~= Seq::<Bird>::empty());
}

impl World {
    /// Builds a fresh world: a full population of random birds, nobody dead,
    /// no obstacles yet.
    pub fn random(rng: &mut RngSource) -> (r: World)
        ensures
            r.settled(),
            r.alive_birds@.len() == POPULATION_COUNT,
            r.dead_birds@.len() == 0,
            r.pipes@.len() == 0,
            forall|i: int|
                0 <= i < r.alive_birds@.len() ==> (#[trigger] r.alive_birds@[i]).fresh_state(),
    {
        let mut alive_birds: Vec<Bird> = Vec::new();
        let mut i: usize = 0;
        while i < POPULATION_COUNT
            invariant
                0 <= i <= POPULATION_COUNT,
                alive_birds@.len() == i,
                alive_birds_ok(alive_birds@),
                forall|k: int|
                    0 <= k < alive_birds@.len() ==> (#[trigger] alive_birds@[k]).fresh_state(),
            decreases POPULATION_COUNT - i,
        {
            alive_birds.push(Bird::random(rng));
            i = i + 1;
        }
        World { alive_birds, dead_birds: Vec::new(), pipes: Vec::new() }
    }

    /// The nearest obstacle still ahead of the birds, if any.
    pub fn next_pipe(&self) -> (r: Option<Pipe>)
        ensures
            r == next_pipe_spec(self.pipes@),
    {
        let ghost pipes0 = self.pipes@;
        let mut best: Option<Pipe> = None;
        let mut i: usize = 0;
        while i < self.pipes.len()
            invariant
                0 <= i <= pipes0.len(),
                self.pipes@ == pipes0,
                best == next_pipe_spec(pipes0.take(i as int)),
            decreases pipes0.len() - i,
        {
            let p = self.pipes[i];
            proof {
                lemma_next_pipe_take_step(pipes0, i as int);
            }
            if p.position.x > BIRD_X - PIPE_OFFSET_X {
                best = match best {
                    None => Some(p),
                    Some(q) => if q.position.x <= p.position.x {
                        Some(q)
                    } else {
                        Some(p)
                    },
                };
            }
            i = i + 1;
        }
        proof {
            assert(pipes0.take(pipes0.len() as int) =~= pipes0);
        }
        best
    }

    /// The collision phase for the birds: every colliding bird moves from
    /// alive to dead with its fitness halved; the survivors keep their order
    /// and all sit inside the vertical play band.
    pub fn bird_collision(&mut self)
        requires
            old(self).settled(),
        ensures
            final(self).settled(),
            final(self).pipes@ == old(self).pipes@,
            final(self).alive_birds@ == World::survivors(
                old(self).alive_birds@,
                next_pipe_spec(old(self).pipes@),
            ),
            final(self).dead_birds@ == old(self).dead_birds@ + World::casualties(
                old(self).alive_birds@,
                next_pipe_spec(old(self).pipes@),
            ),
            alive_in_band(final(self).alive_birds@),
    {
        let closest = self.next_pipe();
        proof {
            lemma_next_pipe_wf(self.pipes@);
        }
        let mut birds: Vec<Bird> = Vec::new();
        core::mem::swap(&mut birds, &mut self.alive_birds);
        let mut dead: Vec<Bird> = Vec::new();
        core::mem::swap(&mut dead, &mut self.dead_birds);
        let ghost orig = birds@;
        let ghost dead0 = dead@;
        let total = birds.len();
        let mut kept: Vec<Bird> = Vec::new();
        let mut i: usize = 0;
        proof {
            lemma_filter_empty(orig, closest, self.pipes@);
        }
        while birds.len() > 0
            invariant
                0 <= i <= orig.len(),
                orig.len() == total,
                i + birds@.len() == orig.len(),
                birds@ == orig.subrange(i as int, orig.len() as int),
                alive_birds_ok(orig),
                match closest {
                    Some(p) => p.wf(),
                    None => true,
                },
                kept@ == World::survivors(orig.take(i as int), closest),
                dead@ == dead0 + World::casualties(orig.take(i as int), closest),
                alive_in_band(kept@),
                alive_birds_ok(kept@),
                birds_wf(dead0),
                birds_wf(dead@),
            decreases birds@.len(),
        {
            let mut b = birds.remove(0);
            proof {
                assert(b == orig[i as int]);
                assert(birds@ =~= orig.subrange(i as int + 1, orig.len() as int));
                lemma_collision_split_step(orig, closest, i as int);
            }
            let cref: Option<&Pipe> = match &closest {
                Some(p) => Some(p),
                None => None,
            };
            if b.collision(cref) {
                b.halve_fitness();
                dead.push(b);
            } else {
                kept.push(b);
            }
            i = i + 1;
        }
        proof {
            assert(orig.take(orig.len() as int) =~= orig);
        }
        self.alive_birds = kept;
        self.dead_birds = dead;
    }

    /// The collision phase for the pipes: pipes that have scrolled past the
    /// retirement edge leave, and every still-alive bird's pass counter is
    /// credited once per retired pipe.
    pub fn pipe_collision(&mut self)
        requires
            old(self).settled(),
            alive_in_band(old(self).alive_birds@),
        ensures
            final(self).settled(),
            final(self).dead_birds@ == old(self).dead_birds@,
            final(self).pipes@ == World::kept_pipes(old(self).pipes@),
            pipes_live(final(self).pipes@),
            final(self).alive_birds@.len() == old(self).alive_birds@.len(),
            forall|i: int|
                0 <= i < final(self).alive_birds@.len() ==> final(self).alive_birds@[i] == (
                #[trigger] old(self).alive_birds@[i]).credited(
                    World::retiring(old(self).pipes@) as u64,
                ),
            alive_in_band(final(self).alive_birds@),
    {
        let mut pipes: Vec<Pipe> = Vec::new();
        core::mem::swap(&mut pipes, &mut self.pipes);
        let ghost pipes0 = pipes@;
        let mut kept: Vec<Pipe> = Vec::new();
        let mut count: usize = 0;
        let mut i: usize = 0;
        proof {
            lemma_filter_empty(self.alive_birds@, None, pipes0);
        }
        while i < pipes.len()
            invariant
                0 <= i <= pipes0.len(),
                pipes@ == pipes0,
                pipes_wf(pipes0),
                kept@ == World::kept_pipes(pipes0.take(i as int)),
                count == World::retiring(pipes0.take(i as int)),
                count <= i,
                pipes_live(kept@),
                pipes_wf(kept@),
            decreases pipes0.len() - i,
        {
            let p = pipes[i];
            proof {
                lemma_pipe_split_step(pipes0, i as int);
            }
            if p.collision() {
                count = count + 1;
            } else {
                kept.push(p);
            }
            i = i + 1;
        }
        proof {
            assert(pipes0.take(pipes0.len() as int) =~= pipes0);
        }
        self.pipes = kept;
        // Credit every still-alive bird once per retired pipe.
        let credit: u64 = count as u64;
        let mut birds: Vec<Bird> = Vec::new();
        core::mem::swap(&mut birds, &mut self.alive_birds);
        let ghost orig = birds@;
        let total = birds.len();
        let mut credited: Vec<Bird> = Vec::new();
        let mut j: usize = 0;
        while birds.len() > 0
            invariant
                0 <= j <= orig.len(),
                orig.len() == total,
                j + birds@.len() == orig.len(),
                birds@ == orig.subrange(j as int, orig.len() as int),
                alive_birds_ok(orig),
                alive_in_band(orig),
                credited@.len() == j,
                forall|k: int|
                    0 <= k < j ==> credited@[k] == (#[trigger] orig[k]).credited(credit),
                alive_in_band(credited@),
                alive_birds_ok(credited@),
            decreases birds@.len(),
        {
            let mut b = birds.remove(0);
            proof {
                assert(b == orig[j as int]);
                assert(birds@ =~= orig.subrange(j as int + 1, orig.len() as int));
            }
            b.credit_passes(credit);
            credited.push(b);
            j = j + 1;
        }
        self.alive_birds = credited;
    }

    /// The whole collision phase: first the birds, then the pipes.
    pub fn collision(&mut self)
        requires
            old(self).settled(),
        ensures
            final(self).settled(),
            final(self).pipes@ == World::kept_pipes(old(self).pipes@),
            pipes_live(final(self).pipes@),
            ({
                let surv = World::survivors(
                    old(self).alive_birds@,
                    next_pipe_spec(old(self).pipes@),
                );
                &&& final(self).alive_birds@.len() == surv.len()
                &&& forall|i: int|
                    0 <= i < surv.len() ==> final(self).alive_birds@[i] == (#[trigger] surv[
                    i]).credited(World::retiring(old(self).pipes@) as u64)
            }),
            final(self).dead_birds@ == old(self).dead_birds@ + World::casualties(
                old(self).alive_birds@,
                next_pipe_spec(old(self).pipes@),
            ),
            alive_in_band(final(self).alive_birds@),
    {
        self.bird_collision();
        self.pipe_collision();
    }

    /// Appends one freshly spawned pipe at the trailing edge of visibility.
    pub fn push_pipe(&mut self, rng: &mut RngSource)
        requires
            old(self).wf(),
        ensures
            final(self).wf(),
            final(self).alive_birds@ == old(self).alive_birds@,
            final(self).dead_birds@ == old(self).dead_birds@,
            final(self).pipes@.len() == old(self).pipes@.len() + 1,
            final(self).pipes@.take(old(self).pipes@.len() as int) == old(self).pipes@,
            final(self).pipes@.last().wf(),
            final(self).pipes@.last().position.x == SCALE + PIPE_OFFSET_X,
    {
        let p = Pipe::random(rng);
        self.pipes.push(p);
        proof {
            assert(self.pipes@.take(self.pipes@.len() - 1) =~= old(self).pipes@);
        }
    }

    /// The decision phase: every alive bird senses the same nearest obstacle
    /// and lets its brain decide whether to jump.
    pub fn decision(&mut self)
        requires
            old(self).settled(),
        ensures
            final(self).wf(),
            final(self).pipes@ == old(self).pipes@,
            final(self).dead_birds@ == old(self).dead_birds@,
            final(self).alive_birds@.len() == old(self).alive_birds@.len(),
            forall|i: int|
                0 <= i < final(self).alive_birds@.len() ==> final(self).alive_birds@[i] == (
                #[trigger] old(self).alive_birds@[i]).decided(
                    World::decision_target(old(self).pipes@),
                ),
            forall|i: int|
                0 <= i < final(self).alive_birds@.len() ==> (#[trigger] final(self).alive_birds@[
                i]).position == old(self).alive_birds@[i].position,
    {
        let ghost pipes0 = self.pipes@;
        let closest = self.next_pipe();
        proof {
            lemma_next_pipe_wf(pipes0);
        }
        let target = match &closest {
            Some(p) => p.position(),
            None => Point2::new(SCALE, HALF),
        };
        let mut birds: Vec<Bird> = Vec::new();
        core::mem::swap(&mut birds, &mut self.alive_birds);
        let ghost orig = birds@;
        let total = birds.len();
        let mut decided: Vec<Bird> = Vec::new();
        let mut i: usize = 0;
        while birds.len() > 0
            invariant
                0 <= i <= orig.len(),
                orig.len() == total,
                i + birds@.len() == orig.len(),
                birds@ == orig.subrange(i as int, orig.len() as int),
                alive_birds_ok(orig),
                target == World::decision_target(pipes0),
                -COORD_MAX <= target.x <= COORD_MAX,
                -COORD_MAX <= target.y <= COORD_MAX,
                decided@.len() == i,
                forall|k: int|
                    0 <= k < i ==> decided@[k] == (#[trigger] orig[k]).decided(target),
                forall|k: int|
                    0 <= k < i ==> (#[trigger] decided@[k]).position == orig[k].position,
                birds_wf(decided@),
            decreases birds@.len(),
        {
            let mut b = birds.remove(0);
            proof {
                assert(b == orig[i as int]);
                assert(birds@ =~= orig.subrange(i as int + 1, orig.len() as int));
            }
            b.decision(target);
            decided.push(b);
            i = i + 1;
        }
        self.alive_birds = decided;
    }

    /// The movement phase: every alive bird falls and integrates its
    /// velocity; every pipe scrolls left.  It runs after the collision and
    /// decision phases, so every alive bird still sits inside the play band
    /// and every pipe ahead of the retirement edge.
    pub fn movement(&mut self)
        requires
            old(self).wf(),
            alive_in_band(old(self).alive_birds@),
            pipes_live(old(self).pipes@),
        ensures
            final(self).settled(),
            final(self).dead_birds@ == old(self).dead_birds@,
            final(self).alive_birds@.len() == old(self).alive_birds@.len(),
            forall|i: int|
                0 <= i < final(self).alive_birds@.len() ==> final(self).alive_birds@[i] == (
                #[trigger] old(self).alive_birds@[i]).moved(),
            final(self).pipes@.len() == old(self).pipes@.len(),
            forall|i: int|
                0 <= i < final(self).pipes@.len() ==> final(self).pipes@[i].position.x == (
                #[trigger] old(self).pipes@[i]).position.x - PIPE_DX
                    && final(self).pipes@[i].position.y == old(self).pipes@[i].position.y,
    {
        // Birds: gravity, clamp, integrate, fitness update.
        let mut birds: Vec<Bird> = Vec::new();
        core::mem::swap(&mut birds, &mut self.alive_birds);
        let ghost orig = birds@;
        let total = birds.len();
        let mut moved: Vec<Bird> = Vec::new();
        let mut i: usize = 0;
        while birds.len() > 0
            invariant
                0 <= i <= orig.len(),
                orig.len() == total,
                i + birds@.len() == orig.len(),
                birds@ == orig.subrange(i as int, orig.len() as int),
                birds_wf(orig),
                alive_in_band(orig),
                moved@.len() == i,
                forall|k: int| 0 <= k < i ==> moved@[k] == (#[trigger] orig[k]).moved(),
                alive_birds_ok(moved@),
            decreases birds@.len(),
        {
            let mut b = birds.remove(0);
            proof {
                assert(b == orig[i as int]);
                assert(birds@ =~= orig.subrange(i as int + 1, orig.len() as int));
            }
            b.movement();
            moved.push(b);
            i = i + 1;
        }
        self.alive_birds = moved;
        // Pipes: constant leftward scroll.
        let mut pipes: Vec<Pipe> = Vec::new();
        core::mem::swap(&mut pipes, &mut self.pipes);
        let ghost pipes0 = pipes@;
        let mut scrolled: Vec<Pipe> = Vec::new();
        let mut j: usize = 0;
        while j < pipes.len()
            invariant
                0 <= j <= pipes0.len(),
                pipes@ == pipes0,
                pipes_wf(pipes0),
                pipes_live(pipes0),
                scrolled@.len() == j,
                forall|k: int|
                    0 <= k < j ==> scrolled@[k].position.x == (#[trigger] pipes0[k]).position.x
                        - PIPE_DX && scrolled@[k].position.y == pipes0[k].position.y,
                pipes_wf(scrolled@),
            decreases pipes0.len() - j,
        {
            let mut p = pipes[j];
            p.movement();
            scrolled.push(p);
            j = j + 1;
        }
        self.pipes = scrolled;
    }

    /// Freezes every agent of the generation — alive first, then dead — into
    /// the fitness-bearing individuals the genetic algorithm consumes, and
    /// empties both collections.
    pub(crate) fn birds_as_individuals(&mut self) -> (r: Vec<BirdIndividual>)
        requires
            old(self).wf(),
        ensures
            final(self).wf(),
            final(self).alive_birds@.len() == 0,
            final(self).dead_birds@.len() == 0,
            final(self).pipes@ == old(self).pipes@,
            r@.len() == old(self).alive_birds@.len() + old(self).dead_birds@.len(),
            forall|i: int|
                0 <= i < old(self).alive_birds@.len() ==> (#[trigger] r@[i]).fitness
                    == old(self).alive_birds@[i].fit_distance && r@[i].chromosome@
                    == old(self).alive_birds@[i].brain.nn.weights_spec(),
            forall|i: int|
                old(self).alive_birds@.len() <= i < r@.len() ==> (#[trigger] r@[i]).fitness
                    == old(self).dead_birds@[i - old(self).alive_birds@.len()].fit_distance,
            forall|i: int|
                0 <= i < r@.len() ==> (#[trigger] r@[i]).fitness_spec() > 0
                    && r@[i].genes_spec().len() == BRAIN_GENE_COUNT,
    {
        let mut alive: Vec<Bird> = Vec::new();
        core::mem::swap(&mut alive, &mut self.alive_birds);
        let mut dead: Vec<Bird> = Vec::new();
        core::mem::swap(&mut dead, &mut self.dead_birds);
        let ghost alive0 = alive@;
        let ghost dead0 = dead@;
        let mut out: Vec<BirdIndividual> = Vec::new();
        let mut i: usize = 0;
        while i < alive.len()
            invariant
                0 <= i <= alive0.len(),
                alive@ == alive0,
                birds_wf(alive0),
                out@.len() == i,
                forall|k: int|
                    0 <= k < i ==> (#[trigger] out@[k]).fitness == alive0[k].fit_distance
                        && out@[k].chromosome@ == alive0[k].brain.nn.weights_spec()
                        && out@[k].chromosome@.len() == BRAIN_GENE_COUNT && out@[k].fitness > 0,
            decreases alive0.len() - i,
        {
            let b = &alive[i];
            out.push(BirdIndividual::from_bird(b));
            i = i + 1;
        }
        let mut j: usize = 0;
        while j < dead.len()
            invariant
                0 <= j <= dead0.len(),
                dead@ == dead0,
                birds_wf(dead0),
                out@.len() == alive0.len() + j,
                forall|k: int|
                    0 <= k < alive0.len() ==> (#[trigger] out@[k]).fitness == alive0[
                    k].fit_distance && out@[k].chromosome@ == alive0[k].brain.nn.weights_spec()
                        && out@[k].chromosome@.len() == BRAIN_GENE_COUNT && out@[k].fitness > 0,
                forall|k: int|
                    alive0.len() <= k < out@.len() ==> (#[trigger] out@[k]).fitness == dead0[k
                        - alive0.len()].fit_distance && out@[k].chromosome@.len()
                        == BRAIN_GENE_COUNT && out@[k].fitness > 0,
            decreases dead0.len() - j,
        {
            let b = &dead[j];
            out.push(BirdIndividual::from_bird(b));
            j = j + 1;
        }
        out
    }

    /// Thaws an evolved population back into fresh birds: new physical
    /// state, brains inherited from the evolved genomes.
    pub(crate) fn individuals_as_birds(
        &self,
        population: Vec<BirdIndividual>,
        rng: &mut RngSource,
    ) -> (r: Vec<Bird>)
        requires
            forall|i: int|
                0 <= i < population@.len() ==> (#[trigger] population@[i]).genes_spec().len()
                    == BRAIN_GENE_COUNT,
        ensures
            r@.len() == population@.len(),
            alive_birds_ok(r@),
            forall|i: int|
                0 <= i < r@.len() ==> (#[trigger] r@[i]).fresh_state()
                    && r@[i].brain.nn.weights_spec() == population@[i].genes_spec(),
    {
        let mut population = population;
        let ghost pop0 = population@;
        let total = population.len();
        let mut out: Vec<Bird> = Vec::new();
        let mut i: usize = 0;
        while population.len() > 0
            invariant
                0 <= i <= pop0.len(),
                pop0.len() == total,
                i + population@.len() == pop0.len(),
                population@ == pop0.subrange(i as int, pop0.len() as int),
                forall|k: int|
                    0 <= k < pop0.len() ==> (#[trigger] pop0[k]).genes_spec().len()
                        == BRAIN_GENE_COUNT,
                out@.len() == i,
                alive_birds_ok(out@),
                forall|k: int|
                    0 <= k < i ==> (#[trigger] out@[k]).fresh_state()
                        && out@[k].brain.nn.weights_spec() == pop0[k].genes_spec(),
            decreases population@.len(),
        {
            let ind = population.remove(0);
            proof {
                assert(ind == pop0[i as int]);
                assert(population@ =~= pop0.subrange(i as int + 1, pop0.len() as int));
            }
            out.push(ind.into_bird(rng));
            i = i + 1;
        }
        out
    }

    /// Borrows the alive birds.
    pub fn birds(&self) -> (r: &Vec<Bird>)
        ensures
            r@ == self.alive_birds@,
    {
        &self.alive_birds
    }

    /// Borrows the active pipes.
    pub fn pipes(&self) -> (r: &Vec<Pipe>)
        ensures
            r@ == self.pipes@,
    {
        &self.pipes
    }
}

} // verus!
