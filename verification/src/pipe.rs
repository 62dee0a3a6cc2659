//! The scrolling obstacle: a pipe pair with a vertical gap.
//!
//! A pipe's position marks the centre of its gap.  The pipe spawns just past
//! the right edge of the playfield, scrolls left by a constant speed each
//! tick, and is retired once it has fully scrolled past the left edge.

use vstd::prelude::*;

use crate::geometry::{Point2, Rectangle};
use crate::rng::RngSource;
use crate::{HALF, SCALE};

verus! {

/// Leftward scroll speed, per tick.
pub const PIPE_DX: i64 = 45;

/// Half the pipe's width: the pipe spans `x - PIPE_OFFSET_X .. x + PIPE_OFFSET_X`.
pub const PIPE_OFFSET_X: i64 = 440;

/// Half the gap's height: the gap spans `y - PIPE_OFFSET_Y .. y + PIPE_OFFSET_Y`.
pub const PIPE_OFFSET_Y: i64 = 1_300;

/// A new pipe spawns every this many ticks.
pub const PIPE_TICK_GENERATION: u64 = 120;

/// One obstacle: a vertical gap centred at `position`.
#[derive(Clone, Copy, Debug, PartialEq, Eq, Structural)]
pub struct Pipe {
    /// The centre of the gap.  `x` scrolls left each tick; `y` is fixed at
    /// spawn, clamped into the safe band.
    pub position: Point2,
}

impl Pipe {
    /// The pipe sits inside the scroll band and its gap inside the safe band.
    pub open spec fn wf(&self) -> bool {
        &&& -SCALE <= self.position.x <= 2 * SCALE
        &&& PIPE_OFFSET_Y <= self.position.y <= SCALE - PIPE_OFFSET_Y
    }

    /// Spawns a pipe at the trailing edge of visibility, with a random
    /// vertical gap centre inside the safe band.
    pub fn random(rng: &mut RngSource) -> (r: Pipe)
        ensures
            r.wf(),
            r.position.x == SCALE + PIPE_OFFSET_X,
    {
        let x = SCALE + PIPE_OFFSET_X;
        let y = rng.sample_range(PIPE_OFFSET_Y, SCALE - PIPE_OFFSET_Y);
        Pipe { position: Point2::new(x, y) }
    }

    /// Whether the pipe has fully scrolled past the trailing edge and is due
    /// for retirement.
    pub fn collision(&self) -> (r: bool)
        ensures
            r == (self.position.x <= -PIPE_OFFSET_X),
    {
        self.position.x <= -PIPE_OFFSET_X
    }

    /// Scrolls the pipe left by one tick.
    pub fn movement(&mut self)
        requires
            old(self).wf(),
            old(self).position.x > -PIPE_OFFSET_X,
        ensures
            final(self).wf(),
            final(self).position.x == old(self).position.x - PIPE_DX,
            final(self).position.y == old(self).position.y,
    {
        self.position.x = self.position.x - PIPE_DX;
    }

    /// The rectangle above the gap.
    pub open spec fn top_rectangle_spec(&self) -> Rectangle {
        Rectangle {
            position: Point2 {
                x: (self.position.x - PIPE_OFFSET_X) as i64,
                y: (self.position.y + PIPE_OFFSET_Y) as i64,
            },
            width: (2 * PIPE_OFFSET_X) as i64,
            height: (SCALE - (self.position.y + PIPE_OFFSET_Y)) as i64,
        }
    }

    /// Builds the rectangle above the gap, from the gap's top edge to the
    /// playfield's top.
    pub fn top_rectangle(&self) -> (r: Rectangle)
        requires
            self.wf(),
        ensures
            r == self.top_rectangle_spec(),
    {
        let position = Point2::new(self.position.x - PIPE_OFFSET_X, self.position.y + PIPE_OFFSET_Y);
        let width = 2 * PIPE_OFFSET_X;
        let height = SCALE - (self.position.y + PIPE_OFFSET_Y);
        Rectangle { position, width, height }
    }

    /// The rectangle below the gap.
    pub open spec fn bot_rectangle_spec(&self) -> Rectangle {
        Rectangle {
            position: Point2 { x: (self.position.x - PIPE_OFFSET_X) as i64, y: 0 },
            width: (2 * PIPE_OFFSET_X) as i64,
            height: (self.position.y - PIPE_OFFSET_Y) as i64,
        }
    }

    /// Builds the rectangle below the gap, from the playfield's bottom to the
    /// gap's bottom edge.
    pub fn bot_rectangle(&self) -> (r: Rectangle)
        requires
            self.wf(),
        ensures
            r == self.bot_rectangle_spec(),
    {
        let position = Point2::new(self.position.x - PIPE_OFFSET_X, 0);
        let width = 2 * PIPE_OFFSET_X;
        let height = self.position.y - PIPE_OFFSET_Y;
        Rectangle { position, width, height }
    }

    /// Reads the gap centre.
    pub fn position(&self) -> (r: Point2)
        ensures
            r == self.position,
    {
        self.position
    }
}

/// The point an agent steers for when no pipe is ahead: the far right edge at
/// half height.
pub open spec fn default_target_spec() -> Point2 {
    Point2 { x: SCALE, y: HALF }
}

} // verus!
