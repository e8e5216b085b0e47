//! The animation controller: a session owning the droplets and the
//! generator, advanced one tick at a time.
//!
//! The host environment owns the actual drawing surface and the timer. On
//! each timer firing it calls [`AnimationSession::tick`], which returns the
//! streaks to draw — every droplet at its pre-tick position, in index order —
//! and then moves every droplet, again in index order. Drawing data is thus
//! always computed before any droplet moves, and a whole run is a pure
//! function of the seed and the canvas size.

use vstd::prelude::*;

use crate::droplet::{valid_dim, Droplet, Segment};
use crate::rng::{lemma_nth_state_add, nth_state, seed_to_state, Rng};
use crate::DROPLET_COUNT;

verus! {

/// The generator state after the first `i` droplets of `ds` have taken
/// their tick step, starting from state `s0`: each recycled droplet
/// consumes one draw, the others none.
pub open spec fn states_through(ds: Seq<Droplet>, s0: u64, w: int, h: int, i: int) -> u64
    decreases i,
{
    if i <= 0 {
        s0
    } else {
        ds[i - 1].step_rng(states_through(ds, s0, w, h, i - 1), w, h)
    }
}

/// One rain animation: the droplet collection, the canvas size captured at
/// setup, the seeded generator, and whether the timer subscription is live.
pub struct AnimationSession {
    /// The droplets, fixed at `DROPLET_COUNT` elements.
    pub droplets: Vec<Droplet>,
    /// Canvas width in pixels, captured at setup and never re-queried.
    pub width: i64,
    /// Canvas height in pixels, captured at setup and never re-queried.
    pub height: i64,
    /// The generator used to spawn and recycle droplets.
    pub rng: Rng,
    /// Whether the session still expects ticks; cleared by `stop`.
    pub running: bool,
}

impl AnimationSession {
    /// The session invariant: an accepted canvas size and exactly
    /// `DROPLET_COUNT` well-formed droplets.
    pub open spec fn wf(self) -> bool {
        &&& valid_dim(self.width as int)
        &&& valid_dim(self.height as int)
        &&& self.droplets@.len() == DROPLET_COUNT
        &&& forall|i: int|
            0 <= i < self.droplets@.len() ==> self.droplets@[i].wf(
                self.width as int,
                self.height as int,
            )
    }

    /// The droplet that setup puts at index `i`: the `i + 1`-th spawn, five
    /// generator draws per spawn, starting from seed state `s0`.
    pub open spec fn spawned_droplet(s0: u64, i: int, w: int, h: int) -> Droplet {
        Droplet::spawn_spec(nth_state(s0, (5 * i) as nat), w, h)
    }

    /// Creates a session for a `width` by `height` pixel canvas: spawns
    /// `DROPLET_COUNT` droplets in index order from the seeded generator
    /// and marks the session running. The whole collection is a pure
    /// function of the seed and the canvas size.
    #[verifier::loop_isolation(false)]
    pub fn start(seed: u64, width: i64, height: i64) -> (s: AnimationSession)
        requires
            valid_dim(width as int),
            valid_dim(height as int),
        ensures
            s.wf(),
            s.width == width,
            s.height == height,
            s.running,
            forall|i: int|
                0 <= i < DROPLET_COUNT ==> s.droplets@[i] == Self::spawned_droplet(
                    seed_to_state(seed),
                    i,
                    width as int,
                    height as int,
                ),
            s.rng.state == nth_state(seed_to_state(seed), (5 * DROPLET_COUNT) as nat),
    {
        let mut rng = Rng::new(seed);
        let ghost s0: u64 = rng.state;
        let mut droplets: Vec<Droplet> = Vec::new();
        let mut i: usize = 0;
        while i < DROPLET_COUNT
            invariant
                i <= DROPLET_COUNT,
                droplets@.len() == i,
                rng.state == nth_state(s0, (5 * i) as nat),
                forall|j: int|
                    0 <= j < i ==> droplets@[j] == Self::spawned_droplet(
                        s0,
                        j,
                        width as int,
                        height as int,
                    ),
                forall|j: int| 0 <= j < i ==> droplets@[j].wf(width as int, height as int),
            decreases DROPLET_COUNT - i,
        {
            let d = Droplet::spawn_random(&mut rng, width, height);
            proof {
                lemma_nth_state_add(s0, (5 * i) as nat, 5);
            }
            droplets.push(d);
            i = i + 1;
        }
        AnimationSession { droplets, width, height, rng, running: true }
    }

    /// Checked setup: `None` exactly when the canvas size is not accepted
    /// (a side not in `1..=MAX_DIM` pixels); otherwise the session `start`
    /// would create.
    pub fn try_start(seed: u64, width: i64, height: i64) -> (r: Option<AnimationSession>)
        ensures
            r is Some <==> valid_dim(width as int) && valid_dim(height as int),
            r matches Some(s) ==> {
                &&& s.wf()
                &&& s.width == width
                &&& s.height == height
                &&& s.running
                &&& forall|i: int|
                    0 <= i < DROPLET_COUNT ==> s.droplets@[i] == Self::spawned_droplet(
                        seed_to_state(seed),
                        i,
                        width as int,
                        height as int,
                    )
                &&& s.rng.state == nth_state(seed_to_state(seed), (5 * DROPLET_COUNT) as nat)
            },
    {
        if 1 <= width && width <= crate::MAX_DIM && 1 <= height && height <= crate::MAX_DIM {
            Some(Self::start(seed, width, height))
        } else {
            None
        }
    }

    /// One tick: returns the streak of every droplet at its pre-tick
    /// position, in index order, then advances every droplet, in index
    /// order. A recycled droplet consumes one generator draw.
    #[verifier::loop_isolation(false)]
    pub fn tick(&mut self) -> (segs: Vec<Segment>)
        requires
            old(self).wf(),
            old(self).running,
        ensures
            final(self).wf(),
            final(self).running,
            final(self).width == old(self).width,
            final(self).height == old(self).height,
            final(self).droplets@.len() == old(self).droplets@.len(),
            segs@.len() == old(self).droplets@.len(),
            forall|i: int|
                0 <= i < old(self).droplets@.len() ==> segs@[i] == old(
                    self,
                ).droplets@[i].segment_spec(),
            forall|i: int|
                0 <= i < old(self).droplets@.len() ==> final(self).droplets@[i] == old(
                    self,
                ).droplets@[i].step_spec(
                    states_through(
                        old(self).droplets@,
                        old(self).rng.state,
                        old(self).width as int,
                        old(self).height as int,
                        i,
                    ),
                    old(self).width as int,
                    old(self).height as int,
                ),
            final(self).rng.state == states_through(
                old(self).droplets@,
                old(self).rng.state,
                old(self).width as int,
                old(self).height as int,
                old(self).droplets@.len() as int,
            ),
    {
        let ghost old_ds: Seq<Droplet> = self.droplets@;
        let ghost s0: u64 = self.rng.state;
        let ghost w: int = self.width as int;
        let ghost h: int = self.height as int;
        let n = self.droplets.len();
        let mut segs: Vec<Segment> = Vec::new();
        let mut i: usize = 0;
        while i < n
            invariant
                i <= n,
                segs@.len() == i,
                forall|j: int| 0 <= j < i ==> segs@[j] == old_ds[j].segment_spec(),
            decreases n - i,
        {
            let seg = self.droplets[i].segment();
            segs.push(seg);
            i = i + 1;
        }
        let mut i: usize = 0;
        while i < n
            invariant
                i <= n,
                self.droplets@.len() == old_ds.len(),
                self.width == old(self).width,
                self.height == old(self).height,
                self.running == old(self).running,
                self.rng.state == states_through(old_ds, s0, w, h, i as int),
                forall|j: int|
                    0 <= j < i ==> self.droplets@[j] == old_ds[j].step_spec(
                        states_through(old_ds, s0, w, h, j),
                        w,
                        h,
                    ),
                forall|j: int| i <= j < old_ds.len() ==> self.droplets@[j] == old_ds[j],
                forall|j: int| 0 <= j < old_ds.len() ==> self.droplets@[j].wf(w, h),
            decreases n - i,
        {
            let mut d = self.droplets[i];
            d.advance(&mut self.rng, self.width, self.height);
            self.droplets.set(i, d);
            i = i + 1;
        }
        segs
    }

    /// Ends the animation: the host cancels its timer and must call `tick`
    /// no more. Droplets, canvas size and generator are left as they are.
    pub fn stop(&mut self)
        ensures
            !final(self).running,
            final(self).droplets == old(self).droplets,
            final(self).width == old(self).width,
            final(self).height == old(self).height,
            final(self).rng == old(self).rng,
    {
        self.running = false;
    }
}

} // verus!
