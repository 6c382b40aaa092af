//! Machine-level definitions that every term encoding shares: the word, its
//! width, and the range of the small integers.

use vstd::arithmetic::power2::{lemma2_to64, lemma2_to64_rest, pow2};
use vstd::prelude::*;

verus! {

/// The universal container of an encoded value: an unsigned integer as wide
/// as a pointer.
pub type Word = usize;

/// A word read in two's complement.
pub type SWord = isize;

/// Width of a word in bits.
pub const WORD_BITS: Word = usize::BITS as usize;

/// Largest small integer. A small integer is a two's complement number of
/// four bits fewer than a word, so the largest is a thirty-second of the
/// largest word, rounded down.
pub const MAX_POS_SMALL: SWord = (usize::MAX / 32) as SWord;

/// Smallest small integer.
pub const MIN_NEG_SMALL: SWord = -MAX_POS_SMALL - 1;

/// The number of distinct words: two to the power of the word width.
pub open spec fn word_modulus() -> int {
    usize::MAX + 1
}

/// The integer that a word stands for when its top bit is read as a sign.
pub open spec fn word_as_signed(w: Word) -> int {
    if 2 * w < word_modulus() {
        w as int
    } else {
        w - word_modulus()
    }
}

/// The word that stands for an integer in two's complement.
pub open spec fn signed_as_word(v: int) -> int {
    v % word_modulus()
}

/// The limits of words and small integers as powers of two.
pub proof fn lemma_word_limits()
    ensures
        WORD_BITS == 32 || WORD_BITS == 64,
        word_modulus() == pow2(WORD_BITS as nat),
        isize::MAX + 1 == pow2((WORD_BITS - 1) as nat),
        isize::MIN == -pow2((WORD_BITS - 1) as nat),
        usize::MAX / 16 + 1 == pow2((WORD_BITS - 4) as nat),
        MAX_POS_SMALL + 1 == pow2((WORD_BITS - 5) as nat),
        MIN_NEG_SMALL == -pow2((WORD_BITS - 5) as nat),
{
    lemma2_to64();
    lemma2_to64_rest();
}

/// An integer that a signed word can hold and its two's complement word stand
/// for each other.
pub proof fn lemma_signed_as_word(v: int)
    requires
        isize::MIN <= v <= isize::MAX,
    ensures
        signed_as_word(v) == if v >= 0 {
            v
        } else {
            v + word_modulus()
        },
        0 <= signed_as_word(v) <= usize::MAX,
        word_as_signed(signed_as_word(v) as Word) == v,
{
    lemma_word_limits();
}

/// Casting a word to a signed word reads its top bit as a sign.
pub proof fn lemma_cast_to_signed(w: Word)
    ensures
        (w as SWord) == word_as_signed(w),
{
    lemma_word_limits();
    if usize::BITS == 64 {
        assert((w as isize) == (if w < 0x8000_0000_0000_0000 {
            w as int
        } else {
            w - 0x1_0000_0000_0000_0000
        })) by (bit_vector)
            requires
                usize::BITS == 64,
        ;
    } else {
        assert((w as isize) == (if w < 0x8000_0000 {
            w as int
        } else {
            w - 0x1_0000_0000
        })) by (bit_vector)
            requires
                usize::BITS == 32,
        ;
    }
}

} // verus!
