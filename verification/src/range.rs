//! Bounded-range conversions at 64- and 32-bit widths, signed and unsigned.
//!
//! Each draw consumes exactly one word and scales it into `[lo, hi]` by the
//! multiply-high technique.  The result is biased toward lower values when
//! the span does not evenly divide the word range; that bias is an accepted
//! trade for speed, never a containment failure.  A full-width span would
//! wrap `hi - lo + 1` to zero, so that one case returns the raw word.

use vstd::prelude::*;

use crate::rng::{lemma_mul_hi_below, mul_hi, out_word, step, umulh, Rng};

verus! {

/// High 32 bits of the 64-bit product of two 32-bit values.
pub open spec fn mul_hi32(x: u32, y: u32) -> u32 {
    ((x as int * y as int) / 0x1_0000_0000) as u32
}

/// High 32 bits of the widening 32x32 multiply.
fn umulh32(x: u32, y: u32) -> (r: u32)
    ensures
        r == mul_hi32(x, y),
{
    proof {
        vstd::arithmetic::mul::lemma_mul_upper_bound(
            x as int,
            u32::MAX as int,
            y as int,
            u32::MAX as int,
        );
    }
    let z: u64 = (x as u64) * (y as u64);
    proof {
        assert(z >> 32 == z / 0x1_0000_0000) by (bit_vector);
    }
    ((z >> 32) as u32)
}

/// The high half of a 32-bit product `w * m` is strictly below `m` whenever
/// `m >= 1`.
proof fn lemma_mul_hi32_below(w: u32, m: u32)
    requires
        m >= 1,
    ensures
        mul_hi32(w, m) < m,
        mul_hi32(w, m) == (w as int * m as int) / 0x1_0000_0000,
{
    let b: int = 0x1_0000_0000;
    vstd::arithmetic::mul::lemma_mul_inequality(w as int, b - 1, m as int);
    vstd::arithmetic::div_mod::lemma_div_is_ordered(w as int * m as int, (b - 1) * m, b);
    vstd::arithmetic::div_mod::lemma_fundamental_div_mod_converse(
        (b - 1) * m,
        b,
        m - 1,
        b - m,
    );
    vstd::arithmetic::mul::lemma_mul_nonnegative(w as int, m as int);
}

/// Where the word `w` lands in `[lo, hi]`: the raw word for a full-width
/// span, otherwise `lo` plus the multiply-high scaling of `w` by the span.
pub open spec fn range_map_u64(w: u64, lo: u64, hi: u64) -> u64
    recommends
        lo <= hi,
{
    if hi - lo == 0xffff_ffff_ffff_ffff {
        w
    } else {
        (lo + mul_hi(w, (hi - lo + 1) as u64)) as u64
    }
}

/// The 32-bit analogue of [`range_map_u64`].
pub open spec fn range_map_u32(w: u32, lo: u32, hi: u32) -> u32
    recommends
        lo <= hi,
{
    if hi - lo == 0xffff_ffff {
        w
    } else {
        (lo + mul_hi32(w, (hi - lo + 1) as u32)) as u32
    }
}

/// The signed 64-bit analogue: the unsigned distance `hi - lo` plays the
/// span, and the raw word is reinterpreted for the full-width case.
pub open spec fn range_map_i64(w: u64, lo: i64, hi: i64) -> i64
    recommends
        lo <= hi,
{
    if hi - lo == 0xffff_ffff_ffff_ffff {
        w as i64
    } else {
        (lo + mul_hi(w, (hi - lo + 1) as u64)) as i64
    }
}

/// The signed 32-bit analogue of [`range_map_i64`].
pub open spec fn range_map_i32(w: u32, lo: i32, hi: i32) -> i32
    recommends
        lo <= hi,
{
    if hi - lo == 0xffff_ffff {
        w as i32
    } else {
        (lo + mul_hi32(w, (hi - lo + 1) as u32)) as i32
    }
}

impl Rng {
    /// Draws one word and scales it into `[lo, hi]` inclusive.  `lo == hi`
    /// deterministically returns that single value.
    pub fn range_u64(&mut self, lo: u64, hi: u64) -> (r: u64)
        requires
            lo <= hi,
        ensures
            *final(self) == step(*old(self)),
            r == range_map_u64(out_word(*old(self)), lo, hi),
            lo <= r <= hi,
    {
        let w = self.u64();
        if hi - lo == u64::MAX {
            w
        } else {
            let span = hi - lo + 1;
            proof {
                lemma_mul_hi_below(w, span);
            }
            lo + umulh(w, span)
        }
    }

    /// Draws one word and scales its high half into `[lo, hi]` inclusive.
    pub fn range_u32(&mut self, lo: u32, hi: u32) -> (r: u32)
        requires
            lo <= hi,
        ensures
            *final(self) == step(*old(self)),
            r == range_map_u32((out_word(*old(self)) >> 32) as u32, lo, hi),
            lo <= r <= hi,
    {
        let v = self.u32();
        if hi - lo == u32::MAX {
            v
        } else {
            let span = hi - lo + 1;
            proof {
                lemma_mul_hi32_below(v, span);
            }
            lo + umulh32(v, span)
        }
    }

    /// Draws one word and scales it into the signed interval `[lo, hi]`.
    pub fn range_i64(&mut self, lo: i64, hi: i64) -> (r: i64)
        requires
            lo <= hi,
        ensures
            *final(self) == step(*old(self)),
            r == range_map_i64(out_word(*old(self)), lo, hi),
            lo <= r <= hi,
    {
        let w = self.u64();
        let d = ((hi as i128) - (lo as i128)) as u64;
        if d == u64::MAX {
            #[verifier::truncate] (w as i64)
        } else {
            let span = d + 1;
            proof {
                lemma_mul_hi_below(w, span);
            }
            let off = umulh(w, span);
            (((lo as i128) + (off as i128)) as i64)
        }
    }

    /// Draws one word and scales its high half into the signed interval
    /// `[lo, hi]`.
    pub fn range_i32(&mut self, lo: i32, hi: i32) -> (r: i32)
        requires
            lo <= hi,
        ensures
            *final(self) == step(*old(self)),
            r == range_map_i32((out_word(*old(self)) >> 32) as u32, lo, hi),
            lo <= r <= hi,
    {
        let v = self.u32();
        let d = ((hi as i64) - (lo as i64)) as u32;
        if d == u32::MAX {
            #[verifier::truncate] (v as i32)
        } else {
            let span = d + 1;
            proof {
                lemma_mul_hi32_below(v, span);
            }
            let off = umulh32(v, span);
            (((lo as i64) + (off as i64)) as i32)
        }
    }
}

} // verus!
