//! Deterministic pseudo-random byte source.
//!
//! The generator is the wyrand step: a 64-bit state advanced by a constant,
//! mixed by a 128-bit multiply.  Keeping the state as a plain integer lets
//! snapshots capture it exactly and makes replay provably deterministic.

use vstd::prelude::*;

verus! {

/// The state after one generator step.
pub open spec fn wyrand_advance(s: u64) -> u64 {
    s.wrapping_add(0xa0761d6478bd642f)
}

/// The 64-bit output drawn from a (just advanced) state.
pub open spec fn wyrand_output(s: u64) -> u64 {
    let t = (s as u128).wrapping_mul((s ^ 0xe7037ed1a0b428db) as u128);
    ((t >> 64) ^ t) as u64
}

/// A reseedable pseudo-random generator with 64 bits of state.
#[derive(Clone, Copy, Debug)]
pub struct Prng {
    pub state: u64,
}

impl View for Prng {
    type V = u64;

    open spec fn view(&self) -> u64 {
        self.state
    }
}

impl Prng {
    /// A generator starting from the given seed.
    pub fn new_seed(seed: u64) -> (r: Prng)
        ensures
            r@ == seed,
    {
        Prng { state: seed }
    }

    /// A generator seeded from the system entropy source.
    pub fn new() -> (r: Prng)
    {
        Prng { state: entropy_seed() }
    }

    /// Restarts the generator from the given seed.
    pub fn reseed(&mut self, seed: u64)
        ensures
            final(self)@ == seed,
    {
        self.state = seed;
    }

    /// Draws 64 bits, advancing the state by one step.
    pub fn next_u64(&mut self) -> (r: u64)
        ensures
            final(self)@ == wyrand_advance(old(self)@),
            r == wyrand_output(wyrand_advance(old(self)@)),
    {
        let s: u64 = self.state.wrapping_add(0xa0761d6478bd642f);
        self.state = s;
        let t: u128 = (s as u128).wrapping_mul((s ^ 0xe7037ed1a0b428db) as u128);
        #[verifier::truncate]
        let r: u64 = ((t >> 64) ^ t) as u64;
        r
    }

    /// Draws one byte (the low byte of a 64-bit draw).
    pub fn next_byte(&mut self) -> (r: u8)
        ensures
            final(self)@ == wyrand_advance(old(self)@),
            r == wyrand_output(wyrand_advance(old(self)@)) as u8,
    {
        let w: u64 = self.next_u64();
        #[verifier::truncate]
        let r: u8 = w as u8;
        r
    }
}

/// Relies on nanorand's `entropy::system`, which fills a buffer from the
/// system entropy source.  The value is arbitrary, so nothing is promised
/// of it.
#[verifier::external_body]
fn entropy_seed() -> u64 {
    let mut bytes: [u8; 8] = [0u8; 8];
    nanorand::entropy::system(&mut bytes);
    u64::from_le_bytes(bytes)
}

} // verus!
