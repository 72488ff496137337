//! Deterministic xorshift pseudo-random generator.
//!
//! The whole state is one 64-bit integer. Each randomized engine operation
//! seeds a fresh generator from a context-derived value, so reproducibility
//! within one operation is exact and nothing hidden is carried across calls.
//! A zero seed degenerates to a stream of zeroes; callers derive their seeds
//! from values they have checked to be non-zero.

use vstd::prelude::*;

verus! {

/// The xorshift transform: the returned value is also the generator's next
/// state. Shifted-out bits are discarded, as the machine shift does.
pub open spec fn xorshift64(x: u64) -> u64 {
    let a = x ^ (x << 13);
    let b = a ^ (a >> 7);
    b ^ (b << 17)
}

/// Pseudo-random generator with a single 64-bit word of state.
pub struct XorShift64 {
    pub a: u64,
}

impl XorShift64 {
    /// Draws the next value of the stream and advances the state to it.
    pub fn next(&mut self) -> (r: u64)
        ensures
            r == xorshift64(old(self).a),
            final(self).a == r,
    {
        let mut x = self.a;
        x = x ^ (x << 13);
        x = x ^ (x >> 7);
        x = x ^ (x << 17);
        self.a = x;
        x
    }
}

} // verus!
