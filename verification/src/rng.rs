//! Pseudo-random numbers for presentation ordering.
//!
//! Generated exams need randomized selection and shuffling, but none of it is
//! security sensitive: the orderings are presentation choices, not secrets.
//! A small xorshift generator is therefore enough. The caller seeds it from
//! whatever entropy it trusts (for instance the clock), which keeps the
//! engine itself deterministic in its inputs: the same seed replays the same
//! exam, and unpredictability is exactly as good as the seed.

use vstd::prelude::*;

verus! {

/// Xorshift pseudo-random generator. The contracts promise only bounds,
/// never particular values, so no caller can depend on the stream.
pub struct Rng {
    state: u64,
}

impl Rng {
    /// Seed the generator. A zero seed is replaced by a fixed odd constant,
    /// since zero is a fixed point of the xorshift step.
    pub fn from_seed(seed: u64) -> (r: Rng) {
        if seed == 0 {
            Rng { state: 0x9E3779B97F4A7C15 }
        } else {
            Rng { state: seed }
        }
    }

    /// Advance the generator and return the next raw value.
    fn next_u64(&mut self) -> (x: u64) {
        let mut s = self.state;
        s = s ^ (s << 13);
        s = s ^ (s >> 7);
        s = s ^ (s << 17);
        self.state = s;
        s
    }

    /// A value below `n`, used to pick a position among `n` remaining items.
    pub fn next_below(&mut self, n: usize) -> (r: usize)
        requires
            n > 0,
        ensures
            r < n,
    {
        let x = self.next_u64();
        let r = x % (n as u64);
        r as usize
    }
}

} // verus!
