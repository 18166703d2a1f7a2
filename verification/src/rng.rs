//! Deterministic seeded random-number generator.
//!
//! Gun inaccuracy and debris fans draw their angles from this generator.
//! The whole stream is a pure function of the 32-bit seed, so a simulation
//! step is reproducible bit for bit: the same seed always yields the same
//! angles, in every process and on every machine. The core is a 64-bit
//! xorshift step.

use vstd::prelude::*;

verus! {

/// Generator state. The stream it produces is a pure function of the seed
/// it was created from.
#[derive(Clone, Copy, PartialEq, Eq, Structural, Debug)]
pub struct SeededRng {
    pub state: u64,
}

/// Initial state for a 32-bit seed. The high bit keeps the state nonzero
/// for every seed, which xorshift needs to avoid the all-zero fixed point.
pub open spec fn spec_rng_init(seed: u32) -> u64 {
    (seed as u64) | 0x8000_0000_0000_0000u64
}

/// One xorshift step of the generator state.
pub open spec fn spec_rng_step(s: u64) -> u64 {
    let a = s ^ (s << 13u64);
    let b = a ^ (a >> 7u64);
    b ^ (b << 17u64)
}

/// The value `gen_range` draws when the state is `s` and the band is
/// `[lo, hi)`.
pub open spec fn spec_rng_range(s: u64, lo: int, hi: int) -> int {
    lo + (spec_rng_step(s) as int) % (hi - lo)
}

/// Builds the generator for a seed.
pub fn new_rng(seed: u32) -> (r: SeededRng)
    ensures
        r.state == spec_rng_init(seed),
{
    SeededRng { state: (seed as u64) | 0x8000_0000_0000_0000u64 }
}

impl SeededRng {
    /// Advances the generator and returns the fresh 64-bit word.
    pub fn next_u64(&mut self) -> (r: u64)
        ensures
            r == spec_rng_step(old(self).state),
            final(self).state == spec_rng_step(old(self).state),
    {
        let s = self.state;
        let a = s ^ (s << 13u64);
        let b = a ^ (a >> 7u64);
        let c = b ^ (b << 17u64);
        self.state = c;
        c
    }

    /// Draws a value uniformly shaped over `[lo, hi)` and advances the
    /// generator by one step.
    pub fn gen_range(&mut self, lo: i64, hi: i64) -> (r: i64)
        requires
            lo < hi,
            hi - lo <= 0x7fff_ffff_ffff_ffff,
        ensures
            r == spec_rng_range(old(self).state, lo as int, hi as int),
            final(self).state == spec_rng_step(old(self).state),
            lo <= r < hi,
    {
        let x = self.next_u64();
        let span = (hi - lo) as u64;
        let m = x % span;
        proof {
            vstd::arithmetic::div_mod::lemma_mod_bound(x as int, span as int);
        }
        lo + (m as i64)
    }
}

} // verus!
