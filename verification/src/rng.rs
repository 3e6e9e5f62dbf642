//! Random sources for the world generator.
//!
//! The generator consumes randomness through the `RandomSource` trait, an
//! injectable capability: production code hands it the thread-local
//! entropy-seeded generator, while reproducible runs hand it a seeded
//! deterministic generator.

use vstd::prelude::*;

verus! {

/// A source of uniformly distributed integers.
///
/// Every draw lands in the half-open interval `[lo, hi)`; nothing more is
/// promised, so code verified against this trait is correct for every
/// possible sequence of draws.
pub trait RandomSource {
    /// Draw one value from `[lo, hi)`.
    fn next_in(&mut self, lo: i32, hi: i32) -> (r: i32)
        requires
            lo < hi,
        ensures
            lo <= r < hi,
    ;
}

/// The production source: each draw comes from the thread-local
/// entropy-seeded generator, so consecutive draws are independent and
/// calls are intentionally non-deterministic.
pub struct ThreadRandom {}

impl ThreadRandom {
    pub fn new() -> (r: ThreadRandom) {
        ThreadRandom {}
    }
}

impl RandomSource for ThreadRandom {
    fn next_in(&mut self, lo: i32, hi: i32) -> (r: i32) {
        thread_range(lo, hi)
    }
}

/// Relies on `rand::thread_rng` and `rand::Rng::gen_range`: a uniform draw
/// from a half-open integer range, which panics only when the range is
/// empty (ruled out by `lo < hi`).
#[verifier::external_body]
fn thread_range(lo: i32, hi: i32) -> (r: i32)
    requires
        lo < hi,
    ensures
        lo <= r < hi,
{
    rand::Rng::gen_range(&mut rand::thread_rng(), lo..hi)
}

/// A deterministic source for reproducible runs: a linear congruential
/// generator whose upper state bits are reduced into the requested
/// interval. Two sources built from the same seed yield the same draws.
pub struct SeededRandom {
    pub state: u64,
}

impl SeededRandom {
    pub fn new(seed: u64) -> (r: SeededRandom)
        ensures
            r.state == seed,
    {
        SeededRandom { state: seed }
    }
}

impl RandomSource for SeededRandom {
    fn next_in(&mut self, lo: i32, hi: i32) -> (r: i32) {
        self.state = self.state.wrapping_mul(6364136223846793005).wrapping_add(1442695040888963407);
        let span: u64 = ((hi as i64) - (lo as i64)) as u64;
        let off: u64 = (self.state >> 33) % span;
        let r: i32 = ((lo as i64) + (off as i64)) as i32;
        r
    }
}

} // verus!
