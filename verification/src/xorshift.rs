use vstd::prelude::*;

verus! {

/// One step of Marsaglia's 32-bit xorshift generator, with shifts 13, 17 and 5.
pub open spec fn xorshift_step(x: u32) -> u32 {
    let a = x ^ (x << 13u32);
    let b = a ^ (a >> 17u32);
    b ^ (b << 5u32)
}

/// The seed of the generator that fills the example vectors.
pub const XORSHIFT_SEED: u32 = 0x243f6a88;

/// A 32-bit xorshift pseudo-random number generator.
pub struct Xorshift {
    state: u32,
}

impl View for Xorshift {
    type V = u32;

    /// The generator's current state: the last number it produced, or the seed.
    closed spec fn view(&self) -> u32 {
        self.state
    }
}

impl Xorshift {
    /// Creates a generator in its fixed seed state.
    pub fn new() -> (g: Xorshift)
        ensures
            g@ == XORSHIFT_SEED,
    {
        Xorshift { state: XORSHIFT_SEED }
    }

    /// Advances the generator and returns the new state.
    pub fn next(&mut self) -> (x: u32)
        ensures
            x == xorshift_step(old(self)@),
            final(self)@ == x,
    {
        let mut x = self.state;
        x = x ^ (x << 13u32);
        x = x ^ (x >> 17u32);
        x = x ^ (x << 5u32);
        self.state = x;
        x
    }
}

/// The generator never falls into the all-zero state from a nonzero one, so a generator started
/// from a nonzero seed produces nonzero numbers forever.
pub proof fn lemma_step_keeps_nonzero(x: u32)
    requires
        x != 0,
    ensures
        xorshift_step(x) != 0,
{
    lemma_step_injective(x, 0);
    assert(xorshift_step(0) == 0) by (bit_vector);
}

/// Distinct states step to distinct states: the step is a permutation of the 32-bit words, so
/// the generator never merges two histories.
pub proof fn lemma_step_injective(x: u32, y: u32)
    ensures
        xorshift_step(x) == xorshift_step(y) ==> x == y,
{
    let ax = x ^ (x << 13u32);
    let ay = y ^ (y << 13u32);
    let bx = ax ^ (ax >> 17u32);
    let by_ = ay ^ (ay >> 17u32);
    assert(bx ^ (bx << 5u32) == by_ ^ (by_ << 5u32) ==> bx == by_) by (bit_vector);
    assert(ax ^ (ax >> 17u32) == ay ^ (ay >> 17u32) ==> ax == ay) by (bit_vector);
    assert(x ^ (x << 13u32) == y ^ (y << 13u32) ==> x == y) by (bit_vector);
}

/// The step is linear over GF(2): stepping the bitwise xor of two states gives the xor of their
/// steps. Together with the step of each single-bit state this fixes the step on every state, and
/// no state is singled out.
pub proof fn lemma_step_linear(x: u32, y: u32)
    ensures
        xorshift_step(x ^ y) == xorshift_step(x) ^ xorshift_step(y),
{
    let z = x ^ y;
    let p1 = x ^ (x << 13u32);
    let p2 = y ^ (y << 13u32);
    let p3 = z ^ (z << 13u32);
    assert(p3 == p1 ^ p2) by (bit_vector)
        requires
            z == x ^ y,
            p1 == x ^ (x << 13u32),
            p2 == y ^ (y << 13u32),
            p3 == z ^ (z << 13u32),
    ;
    let q1 = p1 ^ (p1 >> 17u32);
    let q2 = p2 ^ (p2 >> 17u32);
    let q3 = p3 ^ (p3 >> 17u32);
    assert(q3 == q1 ^ q2) by (bit_vector)
        requires
            p3 == p1 ^ p2,
            q1 == p1 ^ (p1 >> 17u32),
            q2 == p2 ^ (p2 >> 17u32),
            q3 == p3 ^ (p3 >> 17u32),
    ;
    let r1 = q1 ^ (q1 << 5u32);
    let r2 = q2 ^ (q2 << 5u32);
    let r3 = q3 ^ (q3 << 5u32);
    assert(r3 == r1 ^ r2) by (bit_vector)
        requires
            q3 == q1 ^ q2,
            r1 == q1 ^ (q1 << 5u32),
            r2 == q2 ^ (q2 << 5u32),
            r3 == q3 ^ (q3 << 5u32),
    ;
}

/// The all-zero state is fixed by the step.
pub proof fn lemma_step_zero()
    ensures
        xorshift_step(0) == 0,
{
    assert(xorshift_step(0) == 0) by (bit_vector);
}

} // verus!
