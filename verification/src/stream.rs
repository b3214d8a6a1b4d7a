//! The output stream as a mathematical sequence: the state after `n` steps,
//! the `i`-th word, the little-endian byte stream, the in-place byte fill,
//! and the laws tying bytes to words.

use vstd::prelude::*;

use crate::rng::{out_word, step, Rng};

verus! {

/// The state reached from `s` after `n` steps.
pub open spec fn advance(s: Rng, n: nat) -> Rng
    decreases n,
{
    if n == 0 {
        s
    } else {
        step(advance(s, (n - 1) as nat))
    }
}

/// The `i`-th word (counting from zero) of the stream starting at `s`.
pub open spec fn word_at(s: Rng, i: nat) -> u64 {
    out_word(advance(s, i))
}

/// Little-endian byte `j` of the word `w`.
pub open spec fn le_byte(w: u64, j: nat) -> u8 {
    (w >> ((8 * j) as u64)) as u8
}

/// Byte `i` of the byte stream: little-endian byte `i % 8` of word `i / 8`.
pub open spec fn byte_at(s: Rng, i: nat) -> u8 {
    le_byte(word_at(s, i / 8), i % 8)
}

/// The first `n` bytes of the byte stream starting at `s`.
pub open spec fn stream_bytes(s: Rng, n: nat) -> Seq<u8> {
    Seq::new(n, |i: int| byte_at(s, i as nat))
}

/// The eight little-endian bytes of one word.
pub open spec fn le_bytes8(w: u64) -> Seq<u8> {
    Seq::new(8, |j: int| le_byte(w, j as nat))
}

/// The first `k` words of the stream, each written as eight little-endian
/// bytes.
pub open spec fn words_le_bytes(s: Rng, k: nat) -> Seq<u8>
    decreases k,
{
    if k == 0 {
        Seq::empty()
    } else {
        words_le_bytes(s, (k - 1) as nat) + le_bytes8(word_at(s, (k - 1) as nat))
    }
}

/// How many words a fill of `n` bytes consumes.
pub open spec fn words_for(n: nat) -> nat {
    (n + 7) / 8
}

impl Rng {
    /// Fills `dst` with pseudorandom bytes: successive words are written as
    /// eight little-endian bytes each, a final remainder of one to seven
    /// bytes taking only the leading bytes of the last word.  An empty
    /// buffer draws no word at all.
    pub fn fill(&mut self, dst: &mut Vec<u8>)
        ensures
            final(dst)@.len() == old(dst)@.len(),
            final(dst)@ == stream_bytes(*old(self), old(dst)@.len() as nat),
            *final(self) == advance(*old(self), words_for(old(dst)@.len() as nat)),
    {
        let n = dst.len();
        let nwords = n / 8 + if n % 8 == 0 {
            0
        } else {
            1
        };
        proof {
            vstd::arithmetic::div_mod::lemma_fundamental_div_mod(n as int, 8);
            if n % 8 == 0 {
                vstd::arithmetic::div_mod::lemma_fundamental_div_mod_converse(
                    n as int + 7,
                    8,
                    n as int / 8,
                    7,
                );
            } else {
                vstd::arithmetic::div_mod::lemma_fundamental_div_mod_converse(
                    n as int + 7,
                    8,
                    n as int / 8 + 1,
                    n as int % 8 - 1,
                );
            }
            vstd::arithmetic::div_mod::lemma_fundamental_div_mod(n as int + 7, 8);
            assert(nwords == words_for(n as nat));
            assert(8 * nwords <= n + 7 && n <= 8 * nwords);
        }
        let mut w: usize = 0;
        while w < nwords
            invariant
                dst.len() == n,
                nwords == words_for(n as nat),
                8 * nwords <= n + 7,
                n <= 8 * nwords,
                w <= nwords,
                *self == advance(*old(self), w as nat),
                forall|b: int| 0 <= b < n && b < 8 * w ==> dst@[b] == byte_at(*old(self), b as nat),
            decreases nwords - w,
        {
            let word = self.u64();
            let base = 8 * w;
            let mut j: usize = 0;
            while j < 8 && j < n - base
                invariant
                    dst.len() == n,
                    base == 8 * w,
                    base < n,
                    w < nwords,
                    8 * nwords <= n + 7,
                    n <= 8 * nwords,
                    j <= 8,
                    base + j <= n,
                    *self == advance(*old(self), (w + 1) as nat),
                    word == word_at(*old(self), w as nat),
                    forall|b: int|
                        0 <= b < n && b < 8 * w ==> dst@[b] == byte_at(*old(self), b as nat),
                    forall|b: int|
                        base <= b < base + j ==> dst@[b] == byte_at(*old(self), b as nat),
                decreases 8 - j,
            {
                let byte = #[verifier::truncate] ((word >> ((8 * j) as u64)) as u8);
                let idx = base + j;
                dst[idx] = byte;
                proof {
                    vstd::arithmetic::div_mod::lemma_fundamental_div_mod_converse(
                        idx as int,
                        8,
                        w as int,
                        j as int,
                    );
                    assert(byte == byte_at(*old(self), idx as nat));
                }
                j += 1;
            }
            w += 1;
        }
        proof {
            assert(dst@ =~= stream_bytes(*old(self), n as nat));
        }
    }
}

/// Advancing by `m + n` steps is advancing by `m` steps, then by `n`.
pub proof fn lemma_advance_adds(s: Rng, m: nat, n: nat)
    ensures
        advance(s, m + n) == advance(advance(s, m), n),
    decreases n,
{
    if n > 0 {
        lemma_advance_adds(s, m, (n - 1) as nat);
    }
}

/// The words drawn after first advancing `k` steps are the original stream's
/// words shifted by `k`: consuming a prefix of calls never changes what the
/// remaining stream holds.
pub proof fn lemma_word_at_shift(s: Rng, k: nat, i: nat)
    ensures
        word_at(advance(s, k), i) == word_at(s, k + i),
{
    lemma_advance_adds(s, k, i);
}

/// Determinism: generators in equal states yield equal words at every
/// position.  Since every operation's postcondition pins its result and its
/// successor state as functions of the prior state alone, two generators
/// built from one seed and driven by one call sequence return identical
/// outputs throughout.
pub proof fn lemma_stream_deterministic(a: Rng, b: Rng, i: nat)
    requires
        a == b,
    ensures
        word_at(a, i) == word_at(b, i),
{
}

/// The byte expansion of the first `k` words is `8 * k` bytes long.
pub proof fn lemma_words_le_bytes_len(s: Rng, k: nat)
    ensures
        words_le_bytes(s, k).len() == 8 * k,
    decreases k,
{
    if k > 0 {
        lemma_words_le_bytes_len(s, (k - 1) as nat);
    }
}

/// Filling `8 * k` bytes produces exactly the bytes of the first `k` words,
/// each written little-endian — a whole-word fill and `k` single-word draws
/// agree byte for byte.
pub proof fn lemma_fill_matches_words(s: Rng, k: nat)
    ensures
        stream_bytes(s, 8 * k) == words_le_bytes(s, k),
    decreases k,
{
    if k == 0 {
        assert(stream_bytes(s, 0) =~= words_le_bytes(s, 0));
    } else {
        let k1 = (k - 1) as nat;
        lemma_fill_matches_words(s, k1);
        lemma_words_le_bytes_len(s, k1);
        let rhs = words_le_bytes(s, k1) + le_bytes8(word_at(s, k1));
        assert forall|i: int| 0 <= i < 8 * k implies stream_bytes(s, 8 * k)[i] == rhs[i] by {
            if i < 8 * k1 {
                assert(words_le_bytes(s, k1)[i] == stream_bytes(s, 8 * k1)[i]);
            } else {
                vstd::arithmetic::div_mod::lemma_fundamental_div_mod_converse(
                    i,
                    8,
                    k1 as int,
                    i - 8 * k1,
                );
            }
        }
        assert(stream_bytes(s, 8 * k) =~= rhs);
    }
}

/// Filling `8 * k + r` bytes (`0 <= r < 8`) appends, after the first `k`
/// whole words, exactly the first `r` little-endian bytes of word `k` — the
/// remainder of a fill matches the leading bytes of the next single-word
/// draw.
pub proof fn lemma_fill_remainder(s: Rng, k: nat, r: nat)
    requires
        r < 8,
    ensures
        stream_bytes(s, 8 * k + r) == words_le_bytes(s, k) + le_bytes8(word_at(s, k)).subrange(
            0,
            r as int,
        ),
{
    lemma_fill_matches_words(s, k);
    lemma_words_le_bytes_len(s, k);
    let rhs = words_le_bytes(s, k) + le_bytes8(word_at(s, k)).subrange(0, r as int);
    assert forall|i: int| 0 <= i < 8 * k + r implies stream_bytes(s, 8 * k + r)[i] == rhs[i] by {
        if i < 8 * k {
            assert(words_le_bytes(s, k)[i] == stream_bytes(s, 8 * k)[i]);
        } else {
            vstd::arithmetic::div_mod::lemma_fundamental_div_mod_converse(
                i,
                8,
                k as int,
                i - 8 * k,
            );
        }
    }
    assert(stream_bytes(s, 8 * k + r) =~= rhs);
}

} // verus!
