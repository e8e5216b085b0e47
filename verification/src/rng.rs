//! A small deterministic pseudo-random generator.
//!
//! The animation needs randomness only to place droplets; it never needs
//! cryptographic strength. An xorshift step over a 64-bit state is enough,
//! and because the state is explicit, every draw is a pure function of the
//! seed: tests can predict whole runs.

use vstd::prelude::*;

verus! {

/// State substituted for a zero seed, which xorshift would keep at zero.
pub const SEED_FALLBACK: u64 = 0x9E3779B97F4A7C15;

/// One xorshift step: the successor of a generator state.
pub open spec fn next_state(s: u64) -> u64 {
    let a = s ^ (s << 13u64);
    let b = a ^ (a >> 7u64);
    b ^ (b << 17u64)
}

/// The generator state after `n` steps from `s`.
pub open spec fn nth_state(s: u64, n: nat) -> u64
    decreases n,
{
    if n == 0 {
        s
    } else {
        next_state(nth_state(s, (n - 1) as nat))
    }
}

/// The initial state a seed is mapped to.
pub open spec fn seed_to_state(seed: u64) -> u64 {
    if seed == 0 {
        SEED_FALLBACK
    } else {
        seed
    }
}

/// Stepping `a + b` times is stepping `a` times, then `b` times.
pub proof fn lemma_nth_state_add(s: u64, a: nat, b: nat)
    ensures
        nth_state(s, a + b) == nth_state(nth_state(s, a), b),
    decreases b,
{
    if b > 0 {
        lemma_nth_state_add(s, a, (b - 1) as nat);
    }
}

/// A seeded xorshift generator.
pub struct Rng {
    pub state: u64,
}

impl Rng {
    /// Creates a generator from a seed; a zero seed is replaced by a fixed
    /// nonzero state, since zero is a fixed point of the xorshift step.
    pub fn new(seed: u64) -> (r: Rng)
        ensures
            r.state == seed_to_state(seed),
    {
        if seed == 0 {
            Rng { state: SEED_FALLBACK }
        } else {
            Rng { state: seed }
        }
    }

    /// Advances the state once and returns it as the next raw draw.
    pub fn next_u64(&mut self) -> (r: u64)
        ensures
            final(self).state == next_state(old(self).state),
            r == final(self).state,
    {
        let a = self.state ^ (self.state << 13u64);
        let b = a ^ (a >> 7u64);
        self.state = b ^ (b << 17u64);
        self.state
    }

    /// Draws a value uniformly below `n` by reducing the next raw draw.
    pub fn rand_below(&mut self, n: u64) -> (r: u64)
        requires
            n >= 1,
        ensures
            final(self).state == next_state(old(self).state),
            r as int == next_state(old(self).state) as int % (n as int),
            r < n,
    {
        let x = self.next_u64();
        x % n
    }
}

} // verus!
