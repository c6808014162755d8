//! Deterministic pseudo-random number generator of the game.

use vstd::prelude::*;

verus! {

/// The seed that follows `seed`: xor, wrapping subtraction, then a
/// two-bit left rotation of the 16-bit result.
pub open spec fn next_seed(seed: u16) -> u16 {
    let x = (seed ^ 0x9630u16).wrapping_sub(0x6553u16);
    ((x >> 14u16) | (x << 2u16)) as u16
}

/// The seed after `n` draws of 16 bits.
pub open spec fn seed_after(seed: u16, n: nat) -> u16
    decreases n,
{
    if n == 0 {
        seed
    } else {
        next_seed(seed_after(seed, (n - 1) as nat))
    }
}

/// Pseudo-random number generator.
#[derive(Debug)]
pub struct Prng {
    seed: u16,
}

impl Prng {
    /// The current seed, which is also the last value drawn.
    pub closed spec fn seed(&self) -> u16 {
        self.seed
    }

    /// Create a new pseudo-random number generator from this seed.
    pub fn new(seed: u16) -> (r: Prng)
        ensures
            r.seed() == seed,
    {
        Prng { seed }
    }

    /// Generates a pseudo-random u16; the result is the new seed.
    pub fn get_u16(&mut self) -> (r: u16)
        ensures
            r == next_seed(old(self).seed()),
            final(self).seed() == r,
    {
        let x = (self.seed ^ 0x9630u16).wrapping_sub(0x6553u16);
        self.seed = (x >> 14u16) | (x << 2u16);
        self.seed
    }

    /// Combines two consecutive u16 draws into a single u32, the first one
    /// giving the high half.
    pub fn get_u32(&mut self) -> (r: u32)
        ensures
            r == next_seed(old(self).seed()) as u32 * 0x10000 + next_seed(
                next_seed(old(self).seed()),
            ) as u32,
            final(self).seed() == next_seed(next_seed(old(self).seed())),
    {
        let hi = self.get_u16();
        let lo = self.get_u16();
        let r = ((hi as u32) << 16u32) | lo as u32;
        assert(((hi as u32) << 16u32) | lo as u32 == hi as u32 * 0x10000 + lo as u32)
            by (bit_vector);
        r
    }
}

/// Two generators built from the same seed yield the same stream: after the
/// same number of draws they hold the same seed, and the next draw agrees.
pub proof fn lemma_same_seed_same_stream(a: u16, b: u16, n: nat)
    requires
        a == b,
    ensures
        seed_after(a, n) == seed_after(b, n),
        next_seed(seed_after(a, n)) == seed_after(b, n + 1),
{
}

} // verus!
