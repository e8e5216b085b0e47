//! The droplet model: one falling streak and its per-tick update rule.
//!
//! Coordinates, lengths and speeds are fixed-point: one pixel is `SCALE`
//! units. In pixel terms a droplet carries a position `(x, y)`, a length
//! factor in `[0, 1)`, a horizontal speed in `[-2, 2)` and a vertical speed
//! in `[10, 20)`. Each tick adds the speed to the position; a droplet whose
//! position leaves the canvas (`x > w` or `y > h`, strictly, per axis) is
//! recycled to a random `x` in `[0, w)` at `y = -20`, keeping its length and
//! speeds, so the streak's shape is fixed for its whole life.

use vstd::prelude::*;

use crate::rng::{next_state, nth_state, Rng};
use crate::{MAX_DIM, SCALE};

verus! {

/// A canvas dimension in pixels the engine accepts.
pub open spec fn valid_dim(d: int) -> bool {
    1 <= d <= MAX_DIM
}

/// A velocity component scaled by a length factor: `length * v / SCALE`,
/// rounded toward zero. This is the tail offset of a drawn streak.
pub open spec fn scaled_delta(length: int, v: int) -> int {
    if v >= 0 {
        (length * v) / (SCALE as int)
    } else {
        -((length * (-v)) / (SCALE as int))
    }
}

/// One drawn streak: the line segment from a droplet's position to the
/// position plus its velocity scaled by its length factor, in fixed-point
/// units of `1 / SCALE` pixel.
#[derive(Clone, Copy, Debug, PartialEq, Eq, Structural)]
pub struct Segment {
    /// Head of the streak: the droplet's position.
    pub x1: i64,
    /// Head of the streak: the droplet's position.
    pub y1: i64,
    /// Tail of the streak: position plus scaled velocity.
    pub x2: i64,
    /// Tail of the streak: position plus scaled velocity.
    pub y2: i64,
}

/// One rain streak, in fixed-point units of `1 / SCALE` pixel.
#[derive(Clone, Copy, Debug, PartialEq, Eq, Structural)]
pub struct Droplet {
    /// Horizontal position.
    pub x: i64,
    /// Vertical position; negative is above the visible top edge.
    pub y: i64,
    /// Length factor, `[0, SCALE)`: scales the velocity into the drawn tail.
    pub length: i64,
    /// Horizontal speed per tick, `[-2 * SCALE, 2 * SCALE)`.
    pub vx: i64,
    /// Vertical speed per tick, `[10 * SCALE, 20 * SCALE)`.
    pub vy: i64,
}

impl Droplet {
    /// The length factor and both speeds lie in their creation ranges.
    pub open spec fn shape_ok(self) -> bool {
        &&& 0 <= self.length < SCALE
        &&& -2 * SCALE <= self.vx < 2 * SCALE
        &&& 10 * SCALE <= self.vy < 20 * SCALE
    }

    /// The position is inside, or just above, a `w` by `h` pixel canvas.
    ///
    /// The last conjunct bounds how far left a droplet can drift: each
    /// non-recycled tick adds `vx >= -2 * SCALE` to `x` and `vy >= 10 * SCALE`
    /// to `y`, so `5 * x + y` never decreases between recycles, and a spawn
    /// or recycle starts it at `-20 * SCALE` or above.
    pub open spec fn pos_ok(self, w: int, h: int) -> bool {
        &&& self.x <= w * SCALE
        &&& -20 * SCALE <= self.y <= h * SCALE
        &&& 5 * self.x + self.y >= -20 * SCALE
    }

    /// Well-formed for a `w` by `h` pixel canvas.
    pub open spec fn wf(self, w: int, h: int) -> bool {
        self.shape_ok() && self.pos_ok(w, h)
    }

    /// Coarse position bounds, independent of any particular canvas; implied
    /// by `wf` for every accepted canvas size.
    pub open spec fn pos_bounded(self) -> bool {
        &&& -21 * SCALE - MAX_DIM * SCALE <= self.x <= MAX_DIM * SCALE
        &&& -20 * SCALE <= self.y <= MAX_DIM * SCALE
    }

    /// The droplet a spawn draws when the generator is in state `s`:
    /// five draws, in the order `x`, `y`, `length`, `vx`, `vy`.
    pub open spec fn spawn_spec(s: u64, w: int, h: int) -> Droplet {
        Droplet {
            x: (nth_state(s, 1) as int % (w * SCALE)) as i64,
            y: (nth_state(s, 2) as int % (h * SCALE)) as i64,
            length: (nth_state(s, 3) as int % (SCALE as int)) as i64,
            vx: (nth_state(s, 4) as int % (4 * SCALE as int) - 2 * SCALE) as i64,
            vy: (nth_state(s, 5) as int % (10 * SCALE as int) + 10 * SCALE) as i64,
        }
    }

    /// Creates a droplet uniformly over the canvas and the creation ranges:
    /// `x` in `[0, w)`, `y` in `[0, h)` pixels, length factor in `[0, 1)`,
    /// horizontal speed in `[-2, 2)`, vertical speed in `[10, 20)`.
    pub fn spawn_random(rng: &mut Rng, w: i64, h: i64) -> (d: Droplet)
        requires
            valid_dim(w as int),
            valid_dim(h as int),
        ensures
            d == Self::spawn_spec(old(rng).state, w as int, h as int),
            final(rng).state == nth_state(old(rng).state, 5),
            d.wf(w as int, h as int),
            0 <= d.x < w * SCALE,
            0 <= d.y < h * SCALE,
            0 <= d.length < SCALE,
            -2 * SCALE <= d.vx < 2 * SCALE,
            10 * SCALE <= d.vy < 20 * SCALE,
    {
        proof {
            reveal_with_fuel(nth_state, 6);
        }
        let x = rng.rand_below((w * SCALE) as u64) as i64;
        let y = rng.rand_below((h * SCALE) as u64) as i64;
        let length = rng.rand_below(SCALE as u64) as i64;
        let vx = rng.rand_below((4 * SCALE) as u64) as i64 - 2 * SCALE;
        let vy = rng.rand_below((10 * SCALE) as u64) as i64 + 10 * SCALE;
        Droplet { x, y, length, vx, vy }
    }

    /// Whether one tick's position increment pushes the droplet off the
    /// canvas, so that it must be recycled.
    pub open spec fn leaves_canvas(self, w: int, h: int) -> bool {
        self.x + self.vx > w * SCALE || self.y + self.vy > h * SCALE
    }

    /// The droplet after one tick, when the generator is in state `s`:
    /// the speed is added to the position; if that leaves the canvas, the
    /// droplet is recycled to a random `x` in `[0, w)` at `y = -20` pixels.
    /// Length and speeds are never changed.
    pub open spec fn step_spec(self, s: u64, w: int, h: int) -> Droplet {
        if self.leaves_canvas(w, h) {
            Droplet {
                x: (next_state(s) as int % (w * SCALE)) as i64,
                y: (-20 * SCALE) as i64,
                ..self
            }
        } else {
            Droplet { x: (self.x + self.vx) as i64, y: (self.y + self.vy) as i64, ..self }
        }
    }

    /// The generator state after one tick: a recycle consumes one draw,
    /// an ordinary move consumes none.
    pub open spec fn step_rng(self, s: u64, w: int, h: int) -> u64 {
        if self.leaves_canvas(w, h) {
            next_state(s)
        } else {
            s
        }
    }

    /// The droplet after `n` ticks, threading the generator state.
    pub open spec fn run_spec(self, s: u64, w: int, h: int, n: nat) -> Droplet
        decreases n,
    {
        if n == 0 {
            self
        } else {
            self.run_spec(s, w, h, (n - 1) as nat).step_spec(
                self.run_rng(s, w, h, (n - 1) as nat),
                w,
                h,
            )
        }
    }

    /// The generator state after `n` ticks of this droplet.
    pub open spec fn run_rng(self, s: u64, w: int, h: int, n: nat) -> u64
        decreases n,
    {
        if n == 0 {
            s
        } else {
            self.run_spec(s, w, h, (n - 1) as nat).step_rng(
                self.run_rng(s, w, h, (n - 1) as nat),
                w,
                h,
            )
        }
    }

    /// Advances the droplet by one tick: adds the speed to the position and
    /// recycles the droplet if it has left the canvas. Accepts any droplet
    /// within coarse bounds; a droplet well-formed for the canvas stays so.
    pub fn advance(&mut self, rng: &mut Rng, w: i64, h: i64)
        requires
            valid_dim(w as int),
            valid_dim(h as int),
            old(self).pos_bounded(),
            -20 * SCALE <= old(self).vx <= 20 * SCALE,
            -20 * SCALE <= old(self).vy <= 20 * SCALE,
        ensures
            *final(self) == old(self).step_spec(old(rng).state, w as int, h as int),
            final(rng).state == old(self).step_rng(old(rng).state, w as int, h as int),
            old(self).wf(w as int, h as int) ==> final(self).wf(w as int, h as int),
    {
        self.x = self.x + self.vx;
        self.y = self.y + self.vy;
        if self.x > w * SCALE || self.y > h * SCALE {
            self.x = rng.rand_below((w * SCALE) as u64) as i64;
            self.y = -20 * SCALE;
        }
    }

    /// The streak this droplet is drawn as, at its current position.
    pub open spec fn segment_spec(self) -> Segment {
        Segment {
            x1: self.x,
            y1: self.y,
            x2: (self.x + scaled_delta(self.length as int, self.vx as int)) as i64,
            y2: (self.y + scaled_delta(self.length as int, self.vy as int)) as i64,
        }
    }

    /// Computes the streak to draw for this droplet: from its position to
    /// its position plus its velocity scaled by its length factor.
    pub fn segment(&self) -> (seg: Segment)
        requires
            0 <= self.length < SCALE,
            -20 * SCALE <= self.vx <= 20 * SCALE,
            -20 * SCALE <= self.vy <= 20 * SCALE,
            self.pos_bounded(),
        ensures
            seg == self.segment_spec(),
    {
        Segment {
            x1: self.x,
            y1: self.y,
            x2: self.x + scaled_offset(self.length, self.vx),
            y2: self.y + scaled_offset(self.length, self.vy),
        }
    }
}

/// Computes `length * v / SCALE`, rounding toward zero.
pub fn scaled_offset(length: i64, v: i64) -> (r: i64)
    requires
        0 <= length < SCALE,
        -20 * SCALE <= v <= 20 * SCALE,
    ensures
        r == scaled_delta(length as int, v as int),
        -20 * SCALE <= r <= 20 * SCALE,
{
    if v >= 0 {
        proof {
            assert(0 <= length * v <= (SCALE - 1) * (20 * SCALE)) by (nonlinear_arith)
                requires
                    0 <= length < SCALE,
                    0 <= v <= 20 * SCALE,
            ;
        }
        let p: u64 = (length as u64) * (v as u64);
        proof {
            vstd::arithmetic::div_mod::lemma_div_is_ordered(
                p as int,
                (SCALE - 1) * (20 * SCALE),
                SCALE as int,
            );
        }
        (p / (SCALE as u64)) as i64
    } else {
        let m: i64 = -v;
        proof {
            assert(0 <= length * m <= (SCALE - 1) * (20 * SCALE)) by (nonlinear_arith)
                requires
                    0 <= length < SCALE,
                    0 <= m <= 20 * SCALE,
            ;
        }
        let p: u64 = (length as u64) * (m as u64);
        proof {
            vstd::arithmetic::div_mod::lemma_div_is_ordered(
                p as int,
                (SCALE - 1) * (20 * SCALE),
                SCALE as int,
            );
        }
        -((p / (SCALE as u64)) as i64)
    }
}

} // verus!
