//! The deterministic pseudo-random generator that fills in order payloads.

use vstd::prelude::*;

verus! {

/// Multiplier of the linear congruential step.
pub const LCG_MULTIPLIER: u32 = 1103515245;

/// Increment of the linear congruential step.
pub const LCG_INCREMENT: u32 = 12345;

/// State of a generator that has not produced a value yet.
pub const LCG_SEED: u32 = 0x12345678;

/// The state that follows `state`: `state * 1103515245 + 12345` modulo 2^32.
#[verifier::opaque]
pub open spec fn lcg_next(state: u32) -> u32 {
    ((state * 1103515245 + 12345) % 0x1_0000_0000) as u32
}

/// A linear congruential generator over 32-bit states. Each value it hands
/// out is its new state.
#[derive(Debug, Clone, Copy, PartialEq, Eq, Structural)]
pub struct SimpleRng {
    state: u32,
}

impl View for SimpleRng {
    type V = u32;

    closed spec fn view(&self) -> u32 {
        self.state
    }
}

impl SimpleRng {
    /// A generator in the seed state.
    pub fn new() -> (rng: SimpleRng)
        ensures
            rng@ == LCG_SEED,
    {
        SimpleRng { state: LCG_SEED }
    }

    /// A generator in a given state.
    pub fn from_state(state: u32) -> (rng: SimpleRng)
        ensures
            rng@ == state,
    {
        SimpleRng { state }
    }

    /// The current state.
    pub fn state(&self) -> (state: u32)
        ensures
            state == self@,
    {
        self.state
    }
}

/// Advances the generator by one step and returns the new state.
pub fn simple_random(rng: &mut SimpleRng) -> (value: u32)
    ensures
        value == lcg_next(old(rng)@),
        final(rng)@ == value,
{
    let next: u32 = rng.state.wrapping_mul(LCG_MULTIPLIER).wrapping_add(LCG_INCREMENT);
    proof {
        reveal(lcg_next);
    }
    rng.state = next;
    next
}

} // verus!
