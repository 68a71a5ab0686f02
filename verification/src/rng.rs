use vstd::prelude::*;

verus! {

/// Multiplier of the linear congruential step (Knuth's MMIX constants).
pub const LCG_MUL: u64 = 6364136223846793005;

/// Increment of the linear congruential step.
pub const LCG_INC: u64 = 1442695040888963407;

/// One linear congruential step over the full 64-bit state.
pub open spec fn lcg_next(s: u64) -> u64 {
    vstd::wrapping::u64_specs::wrapping_add(
        vstd::wrapping::u64_specs::wrapping_mul(s, LCG_MUL),
        LCG_INC,
    )
}

/// The value `in_range(lo, hi)` draws from state `s`.
pub open spec fn lcg_in_range(s: u64, lo: i64, hi: i64) -> i64 {
    (lo + lcg_next(s) % ((hi - lo) as u64)) as i64
}

/// A deterministic pseudo-random source, threaded explicitly through every
/// entity reset and spawn so that simulations are reproducible from a seed.
#[derive(Clone, Copy, Debug, PartialEq, Eq, Structural)]
pub struct Lcg {
    pub state: u64,
}

impl Lcg {
    pub fn new(seed: u64) -> (r: Lcg)
        ensures
            r.state == seed,
    {
        Lcg { state: seed }
    }

    /// Advances the state once and returns the new state as the draw.
    pub fn next(&mut self) -> (r: u64)
        ensures
            r == lcg_next(old(self).state),
            final(self).state == lcg_next(old(self).state),
    {
        self.state = self.state.wrapping_mul(LCG_MUL).wrapping_add(LCG_INC);
        self.state
    }

    /// Draws a value uniformly-ish in the half-open interval `[lo, hi)`,
    /// consuming exactly one state step.
    pub fn in_range(&mut self, lo: i64, hi: i64) -> (r: i64)
        requires
            lo < hi,
            hi - lo <= i64::MAX,
        ensures
            lo <= r < hi,
            r == lcg_in_range(old(self).state, lo, hi),
            final(self).state == lcg_next(old(self).state),
    {
        let span: u64 = (hi - lo) as u64;
        let x = self.next();
        let off: u64 = x % span;
        lo + off as i64
    }
}

} // verus!
