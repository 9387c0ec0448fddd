//! A small deterministic pseudo-random source.
//!
//! The simulation owns an explicit, seedable generator instead of a global
//! one, so a run can be reproduced in tests.  The step is pinned exactly —
//! equal seeds give equal draw sequences — but no caller's contract leans
//! on the values drawn: the simulation must hold for every outcome.

use vstd::prelude::*;

verus! {

use crate::fixed::SCALE;

/// The multiplier of the linear congruential step.
pub const RNG_MUL: u64 = 6_364_136_223_846_793_005;

/// The increment of the linear congruential step.
pub const RNG_INC: u64 = 1_442_695_040_888_963_407;

/// One linear congruential step of the generator state, modulo 2^64.
pub open spec fn spec_rng_step(state: u64) -> u64 {
    vstd::wrapping::u64_specs::wrapping_add(
        vstd::wrapping::u64_specs::wrapping_mul(state, RNG_MUL),
        RNG_INC,
    )
}

/// The draw taken from a state: the middle bits, reduced to `[0, SCALE)`.
pub open spec fn spec_rng_draw(state: u64) -> i64 {
    (((state >> 11) % 1_000_000) as i64)
}

/// A 64-bit linear congruential generator.
pub struct Rng {
    /// The current generator state.
    pub state: u64,
}

impl Rng {
    /// Builds a generator from a seed; equal seeds give equal draw
    /// sequences.
    pub fn new(seed: u64) -> (rng: Rng)
        ensures
            rng.state == seed,
    {
        Rng { state: seed }
    }

    /// Advances the state by one linear congruential step and draws a
    /// uniform-style value in `[0, SCALE)` micro-units, standing for a
    /// real in `[0, 1)`.
    pub fn next_unit(&mut self) -> (r: i64)
        ensures
            final(self).state == spec_rng_step(old(self).state),
            r == spec_rng_draw(final(self).state),
            0 <= r < SCALE,
    {
        self.state = self.state.wrapping_mul(RNG_MUL).wrapping_add(RNG_INC);
        let hi: u64 = self.state >> 11;
        let m: u64 = hi % 1_000_000;
        proof {
            assert(m < 1_000_000) by (nonlinear_arith)
                requires m == hi % 1_000_000;
        }
        m as i64
    }
}

} // verus!
