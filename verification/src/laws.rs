//! Laws of the droplet update rule, stated over the tick step itself.

use vstd::prelude::*;

use crate::droplet::{valid_dim, Droplet};
use crate::rng::next_state;
use crate::SCALE;

verus! {

/// A droplet that stays on the canvas moves exactly by its velocity: when
/// the incremented position is still within `w` by `h` pixels, one tick adds
/// `vx` to `x` and `vy` to `y`, changes nothing else, and draws nothing from
/// the generator.
pub proof fn lemma_step_moves_exactly(d: Droplet, s: u64, w: int, h: int)
    requires
        valid_dim(w),
        valid_dim(h),
        d.wf(w, h),
        d.x + d.vx <= w * SCALE,
        d.y + d.vy <= h * SCALE,
    ensures
        d.step_spec(s, w, h).x == d.x + d.vx,
        d.step_spec(s, w, h).y == d.y + d.vy,
        d.step_spec(s, w, h).length == d.length,
        d.step_spec(s, w, h).vx == d.vx,
        d.step_spec(s, w, h).vy == d.vy,
        d.step_rng(s, w, h) == s,
{
}

/// A droplet that leaves the canvas is recycled: when the incremented
/// position passes `w` to the right or `h` below (strictly, either axis
/// alone), the tick puts it at a random `x` in `[0, w)` pixels and exactly
/// `y = -20` pixels, leaves length and speeds untouched, and consumes one
/// generator draw.
pub proof fn lemma_step_recycles(d: Droplet, s: u64, w: int, h: int)
    requires
        valid_dim(w),
        valid_dim(h),
        d.wf(w, h),
        d.x + d.vx > w * SCALE || d.y + d.vy > h * SCALE,
    ensures
        d.step_spec(s, w, h).y == -20 * SCALE,
        0 <= d.step_spec(s, w, h).x < w * SCALE,
        d.step_spec(s, w, h).length == d.length,
        d.step_spec(s, w, h).vx == d.vx,
        d.step_spec(s, w, h).vy == d.vy,
        d.step_rng(s, w, h) == next_state(s),
{
}

/// A droplet's shape — its length factor and both speeds — is fixed for its
/// whole life: any number of ticks, through any number of recycles, leaves
/// `length`, `vx` and `vy` exactly as they were; only `x` and `y` ever
/// change.
pub proof fn lemma_shape_constant(d: Droplet, s: u64, w: int, h: int, n: nat)
    ensures
        d.run_spec(s, w, h, n).length == d.length,
        d.run_spec(s, w, h, n).vx == d.vx,
        d.run_spec(s, w, h, n).vy == d.vy,
    decreases n,
{
    if n > 0 {
        lemma_shape_constant(d, s, w, h, (n - 1) as nat);
    }
}

} // verus!
