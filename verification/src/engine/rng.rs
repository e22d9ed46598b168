//! A seeded generator of rolls, so that a run can be replayed.

use vstd::prelude::*;

verus! {

/// The generator's state after one step: a linear congruential step on 64
/// bits.
#[verifier::opaque]
pub open spec fn advance(s: u64) -> u64 {
    ((s as int * 6364136223846793005 + 1442695040888963407) % 0x1_0000_0000_0000_0000) as u64
}

/// The generator's state after `n` steps.
pub open spec fn advance_by(s: u64, n: nat) -> u64
    decreases n,
{
    if n == 0 {
        s
    } else {
        advance(advance_by(s, (n - 1) as nat))
    }
}

/// The roll that a state shows: its upper bits, reduced to the thousand
/// values `0..1000`. A roll stands for the fraction `roll / 1000`.
#[verifier::opaque]
pub open spec fn roll_of(s: u64) -> int {
    (s as int / 0x2_0000_0000) % 1000
}

/// The roll that the `k`-th draw from state `s` returns, counting from 0.
pub open spec fn nth_roll(s: u64, k: nat) -> int {
    roll_of(advance_by(s, k + 1))
}

/// Every roll is one of the thousand values `0..1000`.
pub proof fn lemma_roll_range(s: u64)
    ensures
        0 <= roll_of(s) < 1000,
{
    reveal(roll_of);
}

/// The source of chance. Its whole state is public, so a caller can save
/// and restore it.
#[derive(Clone, Copy, PartialEq, Eq, Structural, Debug)]
pub struct Rng {
    pub state: u64,
}

impl Rng {
    /// A generator that starts from `seed`.
    pub fn new(seed: u64) -> (rng: Rng)
        ensures
            rng.state == seed,
    {
        Rng { state: seed }
    }

    /// Steps the generator and returns the roll that the new state shows.
    pub fn roll(&mut self) -> (r: i32)
        ensures
            final(self).state == advance(old(self).state),
            r == roll_of(final(self).state),
            r == nth_roll(old(self).state, 0),
            0 <= r < 1000,
    {
        proof {
            reveal(advance);
            reveal(roll_of);
        }
        let wide: u128 = self.state as u128 * 6364136223846793005u128 + 1442695040888963407u128;
        self.state = (wide % 0x1_0000_0000_0000_0000u128) as u64;
        assert(advance_by(old(self).state, 1) == advance(advance_by(old(self).state, 0)));
        ((self.state / 0x2_0000_0000) % 1000) as i32
    }
}

} // verus!
