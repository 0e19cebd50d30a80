//! The source of pseudo-random numbers for particle placement: a 64-bit
//! linear congruential generator, so that a seed determines the session.

use vstd::prelude::*;

verus! {

/// Multiplier of the generator.
pub const LCG_MULTIPLIER: u64 = 6364136223846793005;

/// Increment of the generator.
pub const LCG_INCREMENT: u64 = 1442695040888963407;

/// The state that follows `state`:
/// `state * LCG_MULTIPLIER + LCG_INCREMENT`, modulo 2^64.
pub open spec fn lcg_next(state: u64) -> u64 {
    ((state * LCG_MULTIPLIER + LCG_INCREMENT) % 0x1_0000_0000_0000_0000) as u64
}

/// The number that a state yields: its upper 32 bits.
pub open spec fn lcg_output(state: u64) -> u32 {
    (state / 0x1_0000_0000) as u32
}

/// The number in `lo ..= hi` that the state after `state` yields.
pub open spec fn lcg_pick(state: u64, lo: int, hi: int) -> int {
    lo + lcg_output(lcg_next(state)) as int % (hi - lo + 1)
}

/// A linear congruential generator.
#[derive(Clone, Copy, Debug, PartialEq, Eq, Structural)]
pub struct Lcg {
    pub state: u64,
}

impl Lcg {
    /// A generator that starts from `seed`.
    pub fn new(seed: u64) -> (g: Lcg)
        ensures
            g.state == seed,
    {
        Lcg { state: seed }
    }

    /// Advances the generator and returns the number its new state yields.
    pub fn next(&mut self) -> (n: u32)
        ensures
            final(self).state == lcg_next(old(self).state),
            n == lcg_output(final(self).state),
    {
        assert(self.state * LCG_MULTIPLIER <= 0xFFFF_FFFF_FFFF_FFFF * 0xFFFF_FFFF_FFFF_FFFF)
            by (nonlinear_arith);
        let wide: u128 = self.state as u128 * LCG_MULTIPLIER as u128 + LCG_INCREMENT as u128;
        self.state = (wide % 0x1_0000_0000_0000_0000u128) as u64;
        (self.state / 0x1_0000_0000u64) as u32
    }

    /// Advances the generator and returns a number in `lo ..= hi`.
    pub fn pick(&mut self, lo: i32, hi: i32) -> (n: i32)
        requires
            lo <= hi,
        ensures
            final(self).state == lcg_next(old(self).state),
            n == lcg_pick(old(self).state, lo as int, hi as int),
            lo <= n <= hi,
    {
        let span: i64 = hi as i64 - lo as i64 + 1;
        let n: i64 = self.next() as i64;
        (lo as i64 + n % span) as i32
    }
}

} // verus!
