//! A verified particle engine for a decorative rain animation.
//!
//! The engine models falling streaks ("droplets") on a rectangular canvas.
//! Each frame ("tick") first reports every droplet as a line segment at its
//! current position, then moves every droplet by its velocity; a droplet that
//! leaves the canvas is recycled to a random spot just above the top edge.
//!
//! All geometry is kept in fixed-point integers: one pixel is `SCALE` units.
//! Randomness comes from an explicit seeded generator, so a run is a pure
//! function of the seed and the canvas size.

use vstd::prelude::*;

pub mod droplet;
pub mod laws;
pub mod rng;
pub mod session;

verus! {

/// Fixed-point resolution: number of position units per device pixel.
pub const SCALE: i64 = 10000;

/// Number of droplets in a session; fixed at setup, never resized.
pub const DROPLET_COUNT: usize = 500;

/// Milliseconds between two ticks; the host's timer fires at this interval.
pub const TICK_INTERVAL_MS: u32 = 30;

/// Largest accepted canvas width or height, in pixels.
pub const MAX_DIM: i64 = 1_000_000;

} // verus!
