//! Open-unit-interval bit patterns.
//!
//! A draw assembles an IEEE-754 bit pattern whose value lies strictly
//! between 0 and 1: the biased exponent falls with the count of trailing
//! zero bits of the drawn word (denser sampling near zero than a naive
//! division by a power of two), and the mantissa comes from the word's high
//! bits.  Floating point stays outside this crate; callers reinterpret the
//! returned bits.  For positive finite patterns the numeric order is the
//! bit-pattern order, so a pattern strictly between 0 and the pattern of 1.0
//! is a value strictly inside the open interval.

use vstd::prelude::*;

use crate::rng::{out_word, step, Rng};

verus! {

/// The double-precision bit pattern of 1.0.
pub const F64_ONE_BITS: u64 = 0x3ff0_0000_0000_0000;

/// The single-precision bit pattern of 1.0.
pub const F32_ONE_BITS: u32 = 0x3f80_0000;

/// The double-precision pattern built from word `w`: biased exponent
/// `1022 - trailing_zeros(w)`, mantissa from the word's high 52 bits.
pub open spec fn open01_bits64(w: u64) -> u64 {
    (((1022 - vstd::std_specs::bits::u64_trailing_zeros(w)) as u64) << 52) | (w >> 12)
}

/// The single-precision pattern built from the 32-bit value `v`: biased
/// exponent `126 - trailing_zeros(v)`, mantissa from the high 23 bits.
pub open spec fn open01_bits32(v: u32) -> u32 {
    (((126 - vstd::std_specs::bits::u32_trailing_zeros(v)) as u32) << 23) | (v >> 9)
}

/// With the exponent field between 958 and 1022 and a 52-bit mantissa, the
/// assembled pattern sits strictly between the patterns of 0.0 and 1.0.
proof fn lemma_f64_pattern(e: u64, m: u64, w: u64)
    by (bit_vector)
    requires
        958 <= e <= 1022,
        m == w >> 12,
    ensures
        0 < ((e << 52) | m) < 0x3ff0_0000_0000_0000,
{
}

/// With the exponent field between 94 and 126 and a 23-bit mantissa, the
/// assembled pattern sits strictly between the patterns of 0.0 and 1.0.
proof fn lemma_f32_pattern(e: u32, m: u32, v: u32)
    by (bit_vector)
    requires
        94 <= e <= 126,
        m == v >> 9,
    ensures
        0 < ((e << 23) | m) < 0x3f80_0000,
{
}

impl Rng {
    /// Draws one word and assembles a double-precision bit pattern whose
    /// value is strictly inside `(0, 1)` — never exactly 0.0 or 1.0.
    pub fn open01_f64_bits(&mut self) -> (r: u64)
        ensures
            *final(self) == step(*old(self)),
            r == open01_bits64(out_word(*old(self))),
            0 < r < F64_ONE_BITS,
    {
        let w = self.u64();
        let tz = w.trailing_zeros();
        proof {
            vstd::std_specs::bits::axiom_u64_trailing_zeros(w);
        }
        let e = 1022u64 - (tz as u64);
        let m = w >> 12;
        proof {
            lemma_f64_pattern(e, m, w);
        }
        (e << 52) | m
    }

    /// Draws one word and assembles, from its high half, a single-precision
    /// bit pattern whose value is strictly inside `(0, 1)`.
    pub fn open01_f32_bits(&mut self) -> (r: u32)
        ensures
            *final(self) == step(*old(self)),
            r == open01_bits32((out_word(*old(self)) >> 32) as u32),
            0 < r < F32_ONE_BITS,
    {
        let v = self.u32();
        let tz = v.trailing_zeros();
        proof {
            vstd::std_specs::bits::axiom_u32_trailing_zeros(v);
        }
        let e = 126u32 - tz;
        let m = v >> 9;
        proof {
            lemma_f32_pattern(e, m, v);
        }
        (e << 23) | m
    }
}

} // verus!
