//! The agent's sensor: a stateless eye that condenses the agent's situation
//! into a fixed-size feature vector for the brain.

use vstd::prelude::*;

use crate::geometry::{Point2, COORD_MAX};
use crate::network::all_in_band;
use crate::pipe::PIPE_OFFSET_Y;

verus! {

/// Number of features the eye reports.
pub const VISION_LEN: usize = 5;

/// A stateless sensor.
#[derive(Clone, Copy, Debug, PartialEq, Eq, Structural)]
pub struct Eye;

impl Eye {
    /// Builds an eye.
    pub fn new() -> Eye {
        Eye
    }

    /// The feature vector: the agent's height, the vertical offsets to the
    /// target gap's lower and upper edges, the horizontal distance to the
    /// target, and the agent's vertical velocity.
    pub open spec fn vision_spec(dy: i64, position: Point2, target: Point2) -> Seq<i64> {
        seq![
            position.y,
            (target.y - PIPE_OFFSET_Y - position.y) as i64,
            (target.y + PIPE_OFFSET_Y - position.y) as i64,
            (target.x - position.x) as i64,
            dy,
        ]
    }

    /// Computes the feature vector for one tick.
    pub fn step_vision(&self, dy: i64, position: Point2, target: Point2) -> (r: Vec<i64>)
        requires
            -COORD_MAX <= position.x <= COORD_MAX,
            -COORD_MAX <= position.y <= COORD_MAX,
            -COORD_MAX <= target.x <= COORD_MAX,
            -COORD_MAX <= target.y <= COORD_MAX,
            -COORD_MAX <= dy <= COORD_MAX,
        ensures
            r@ == Self::vision_spec(dy, position, target),
            r@.len() == VISION_LEN,
            all_in_band(r@),
    {
        let mut v: Vec<i64> = Vec::new();
        v.push(position.y);
        v.push(target.y - PIPE_OFFSET_Y - position.y);
        v.push(target.y + PIPE_OFFSET_Y - position.y);
        v.push(target.x - position.x);
        v.push(dy);
        proof {
            assert(v@ =~= Self::vision_spec(dy, position, target));
        }
        v
    }
}

} // verus!
