//! A very small randomish number generator using the common linear
//! congruential parameters. It is deterministic for a fixed seed, which the
//! shows rely on for reproducible output.
use vstd::prelude::*;

verus! {

/// The linear congruential step: multiply, add, and wrap to 32 bits.
#[verifier::opaque]
pub open spec fn rng_next_spec(state: u32) -> u32 {
    ((state * 1664525 + 1013904223) % 0x1_0000_0000) as u32
}

/// A randomish number generator with 32 bits of state.
pub struct Rng {
    pub state: u32,
}

impl Rng {
    /// Start a stream from a seed; equal seeds give equal streams.
    pub fn new(seed: u32) -> (rng: Rng)
        ensures
            rng.state == seed,
    {
        Rng { state: seed }
    }

    /// Generate a randomish number: the next state of the stream.
    pub fn next(&mut self) -> (r: u32)
        ensures
            final(self).state == rng_next_spec(old(self).state),
            r == final(self).state,
    {
        proof {
            reveal(rng_next_spec);
            lemma_lcg_step(old(self).state);
        }
        self.state = self.state.wrapping_mul(1664525).wrapping_add(1013904223);
        self.state
    }

    /// Generate a randomish number in `[low, high)`: includes `low` but not
    /// `high`.
    pub fn next_in_range(&mut self, low: i32, high: i32) -> (r: i32)
        requires
            low < high,
            high - low <= i32::MAX,
        ensures
            final(self).state == rng_next_spec(old(self).state),
            r == low + rng_next_spec(old(self).state) as int % (high - low),
            low <= r < high,
    {
        let n = self.next();
        let range = (high - low) as u32;
        (n % range) as i32 + low
    }
}

/// The wrapped multiply-add equals one modular reduction of the whole affine
/// step.
proof fn lemma_lcg_step(s: u32)
    ensures
        ({
            let m = ((s as nat * 1664525) % 0x1_0000_0000) as u32;
            (if m + 1013904223 > u32::MAX {
                ((m + 1013904223) - 0x1_0000_0000) as u32
            } else {
                (m + 1013904223) as u32
            }) == rng_next_spec(s)
        }),
{
    reveal(rng_next_spec);
    let r = 0x1_0000_0000int;
    let p = s as int * 1664525;
    let m = p % r;
    vstd::arithmetic::div_mod::lemma_mod_bound(p, r);
    vstd::arithmetic::div_mod::lemma_add_mod_noop(p, 1013904223, r);
    vstd::arithmetic::div_mod::lemma_mod_bound(p + 1013904223, r);
    vstd::arithmetic::div_mod::lemma_small_mod(1013904223nat, r as nat);
    if m + 1013904223 >= r {
        vstd::arithmetic::div_mod::lemma_mod_add_multiples_vanish(m + 1013904223 - r, r);
        vstd::arithmetic::div_mod::lemma_small_mod((m + 1013904223 - r) as nat, r as nat);
    } else {
        vstd::arithmetic::div_mod::lemma_small_mod((m + 1013904223) as nat, r as nat);
    }
}

} // verus!
