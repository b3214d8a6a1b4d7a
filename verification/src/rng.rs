//! The state-and-mixing core: the two-word generator state, the seeding
//! avalanche, the step function, and the single-word conversions built
//! directly on it.

use vstd::prelude::*;

verus! {

/// Odd 128-bit multiplier derived from the golden ratio, used by the
/// seed-avalanche rounds.
pub const SEED_MULTIPLIER: u128 = 0x9e3779b97f4a7c15f39cc0605cedc835;

/// The generator: two 64-bit state words, advanced in place by every
/// value-producing call.
pub struct Rng {
    pub x: u64,
    pub y: u64,
}

/// 64-bit addition modulo `2^64`.
pub open spec fn wadd64(a: u64, b: u64) -> u64 {
    vstd::wrapping::u64_specs::wrapping_add(a, b)
}

/// Low 64 bits of the 128-bit product of two words.
pub open spec fn mul_lo(x: u64, y: u64) -> u64 {
    vstd::wrapping::u64_specs::wrapping_mul(x, y)
}

/// High 64 bits of the 128-bit product of two words.
pub open spec fn mul_hi(x: u64, y: u64) -> u64 {
    ((x as int * y as int) / 0x1_0000_0000_0000_0000) as u64
}

/// Left rotation of a word by 7 bits.
pub open spec fn rotl7(x: u64) -> u64 {
    (x << 7) | (x >> 57)
}

/// The state-advance recurrence: a rotate-xor recombination of the two words.
pub open spec fn step(s: Rng) -> Rng {
    Rng { x: rotl7(s.x) ^ s.y, y: s.x ^ (s.x << 19) }
}

/// The word emitted when stepping from state `s`: a non-linear multiply-xor
/// combination of the pre-advance words, folded with the next `x` word.
pub open spec fn out_word(s: Rng) -> u64 {
    wadd64(mul_lo(s.x, s.y) ^ mul_hi(s.x, s.y), rotl7(s.x) ^ s.y)
}

/// One avalanche round: multiply by the odd constant, then fold the high
/// half back onto the low half.
pub open spec fn mix128(s: u128) -> u128 {
    let t = vstd::wrapping::u128_specs::wrapping_mul(s, SEED_MULTIPLIER);
    t ^ (t >> 64)
}

/// The initial state derived from a 128-bit seed: three avalanche rounds,
/// with the low bit forced to one after the first so that a zero seed (or a
/// zero-valued intermediate) cannot reach the multiply of the later rounds.
pub open spec fn seed_state(seed: u128) -> Rng {
    let a = mix128(seed) | 1;
    let b = mix128(mix128(a));
    Rng { x: b as u64, y: (b >> 64) as u64 }
}

/// High 64 bits of the widening 64x64 multiply.
pub(crate) fn umulh(x: u64, y: u64) -> (r: u64)
    ensures
        r == mul_hi(x, y),
{
    proof {
        vstd::arithmetic::mul::lemma_mul_upper_bound(
            x as int,
            u64::MAX as int,
            y as int,
            u64::MAX as int,
        );
    }
    let z: u128 = (x as u128) * (y as u128);
    proof {
        assert(z >> 64 == z / 0x1_0000_0000_0000_0000) by (bit_vector);
    }
    ((z >> 64) as u64)
}

impl Rng {
    /// Step function in value-passing form: returns the advanced state
    /// together with the emitted word.
    pub fn next(s: Rng) -> (r: (Rng, u64))
        ensures
            r.0 == step(s),
            r.1 == out_word(s),
    {
        let a = ((s.x << 7) | (s.x >> 57)) ^ s.y;
        let b = s.x ^ (s.x << 19);
        let c = s.x.wrapping_mul(s.y) ^ umulh(s.x, s.y);
        let d = c.wrapping_add(a);
        (Rng { x: a, y: b }, d)
    }

    /// Builds a generator from a 128-bit seed by avalanche mixing.
    pub fn new(seed: u128) -> (r: Rng)
        ensures
            r == seed_state(seed),
    {
        let s0 = seed.wrapping_mul(SEED_MULTIPLIER);
        let s1 = s0 ^ (s0 >> 64);
        let s2 = s1 | 1;
        let s3 = s2.wrapping_mul(SEED_MULTIPLIER);
        let s4 = s3 ^ (s3 >> 64);
        let s5 = s4.wrapping_mul(SEED_MULTIPLIER);
        let s6 = s5 ^ (s5 >> 64);
        Rng { x: #[verifier::truncate] (s6 as u64), y: (s6 >> 64) as u64 }
    }

    /// Draws one full-width word and advances the state by one step.
    pub fn u64(&mut self) -> (r: u64)
        ensures
            *final(self) == step(*old(self)),
            r == out_word(*old(self)),
    {
        let (s, x) = Self::next(self.clone());
        *self = s;
        x
    }

    /// Draws one word, reinterpreted as a signed 64-bit value.
    pub fn i64(&mut self) -> (r: i64)
        ensures
            *final(self) == step(*old(self)),
            r == out_word(*old(self)) as i64,
    {
        #[verifier::truncate] (self.u64() as i64)
    }

    /// Draws one word and keeps its high 32 bits; the low bits of a
    /// rotate-based mixer are statistically the weaker half.
    pub fn u32(&mut self) -> (r: u32)
        ensures
            *final(self) == step(*old(self)),
            r == (out_word(*old(self)) >> 32) as u32,
    {
        (self.u64() >> 32) as u32
    }

    /// Draws one word and keeps its high 32 bits, reinterpreted as signed.
    pub fn i32(&mut self) -> (r: i32)
        ensures
            *final(self) == step(*old(self)),
            r == (out_word(*old(self)) >> 32) as i32,
    {
        #[verifier::truncate] ((self.u64() >> 32) as i32)
    }

    /// Draws one word and returns its sign bit as a boolean.
    pub fn bool(&mut self) -> (r: bool)
        ensures
            *final(self) == step(*old(self)),
            r == (out_word(*old(self)) as i64 >= 0),
            r == (out_word(*old(self)) >> 63 == 0),
    {
        proof {
            lemma_sign_bit(out_word(*self));
        }
        self.i64() >= 0
    }

    /// Draws one word and scales it into `[0, max]` by the multiply-high
    /// technique.  The result is biased toward lower values when `max + 1`
    /// does not divide `2^64`; that bias is an accepted trade for speed.
    pub fn bounded_u32(&mut self, max: u32) -> (r: u32)
        ensures
            *final(self) == step(*old(self)),
            r as int == mul_hi(out_word(*old(self)), (max + 1) as u64) as int,
            r <= max,
    {
        let w = self.u64();
        proof {
            lemma_mul_hi_below(w, (max + 1) as u64);
        }
        umulh(w, (max as u64) + 1) as u32
    }

    /// Splits off an independent sub-generator: two fresh words seed the
    /// child, with the first forced odd so the child's multiplicative mixing
    /// never sees an even (or zero) first word.
    pub fn split(&mut self) -> (r: Rng)
        ensures
            *final(self) == step(step(*old(self))),
            r.x == (out_word(*old(self)) | 1),
            r.y == out_word(step(*old(self))),
            r.x & 1 == 1,
            r.x != 0,
    {
        let x = self.u64() | 1;
        let y = self.u64();
        proof {
            lemma_forced_odd(out_word(*old(self)));
        }
        Rng { x, y }
    }
}

impl Clone for Rng {
    /// A clone carries the exact state and therefore the exact future stream.
    fn clone(&self) -> (r: Rng)
        ensures
            r == *self,
    {
        Rng { x: self.x, y: self.y }
    }
}

/// A word's sign bit is clear exactly when its signed reinterpretation is
/// non-negative.
proof fn lemma_sign_bit(w: u64)
    by (bit_vector)
    ensures
        (w as i64 >= 0) <==> (w >> 63 == 0),
{
}

/// Setting the low bit makes a word odd, and in particular non-zero.
proof fn lemma_forced_odd(w: u64)
    by (bit_vector)
    ensures
        (w | 1) & 1 == 1,
        (w | 1) != 0,
{
}

/// The high half of a product `w * m` is strictly below `m` whenever
/// `m >= 1`: `w * m < 2^64 * m`, so dividing by `2^64` stays below `m`.
pub(crate) proof fn lemma_mul_hi_below(w: u64, m: u64)
    requires
        m >= 1,
    ensures
        mul_hi(w, m) < m,
        mul_hi(w, m) == (w as int * m as int) / 0x1_0000_0000_0000_0000,
{
    let b: int = 0x1_0000_0000_0000_0000;
    vstd::arithmetic::mul::lemma_mul_inequality(w as int, b - 1, m as int);
    vstd::arithmetic::div_mod::lemma_div_is_ordered(w as int * m as int, (b - 1) * m, b);
    vstd::arithmetic::div_mod::lemma_fundamental_div_mod_converse(
        (b - 1) * m,
        b,
        m - 1,
        b - m,
    );
    vstd::arithmetic::mul::lemma_mul_nonnegative(w as int, m as int);
}

} // verus!
