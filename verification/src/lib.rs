//! A neuroevolution playground: a population of simple agents, each steered by
//! a small feedforward neural network, learns to fly through a scrolling field
//! of gap obstacles.  A genetic algorithm (roulette-wheel selection, uniform
//! crossover, bounded per-gene mutation) improves the networks' weights from
//! one generation to the next; no gradients are involved.
//!
//! All world coordinates, velocities, weights and genes are fixed-point
//! numbers: an `i64` counts units of `1 / SCALE`.  This keeps every quantity
//! in the integers, where the arithmetic of the whole engine is verified.
#![verifier::loop_isolation(false)]

pub mod rng;
pub mod chromosome;
pub mod genetic;
pub mod network;
pub mod geometry;
pub mod eye;
pub mod brain;
pub mod bird;
pub mod bird_individual;
pub mod pipe;
pub mod world;
pub mod simulation;

use vstd::prelude::*;

verus! {

/// Fixed-point scale: the number of `i64` steps that make up one coordinate
/// unit.  `1.0` in world coordinates is `SCALE`, `0.5` is `HALF`.
pub const SCALE: i64 = 10_000;

/// One half in fixed-point units.
pub const HALF: i64 = 5_000;

/// Largest magnitude a value flowing through a neural network may take.
/// Dot products are computed in `i128` and saturated into this band, so a
/// layer's output always fits comfortably back into an `i64`.
pub const VAL_MAX: i64 = 1_000_000_000_000_000;

/// Magnitude of an integer.
pub open spec fn int_abs(x: int) -> int {
    if x < 0 { -x } else { x }
}

/// An integer clamped into a closed band.
pub open spec fn int_clamp(x: int, lo: int, hi: int) -> int {
    if x < lo { lo } else if x > hi { hi } else { x }
}

/// The smaller of two integers.
pub open spec fn int_min(a: int, b: int) -> int {
    if a <= b { a } else { b }
}

/// The larger of two integers.
pub open spec fn int_max(a: int, b: int) -> int {
    if a >= b { a } else { b }
}

} // verus!
