//! Reading a range of bits out of a word.

use crate::rt_defs::{Word, WORD_BITS};
use bit_field::BitField;
use vstd::arithmetic::power2::pow2;
use vstd::prelude::*;

verus! {

/// The number that bits `lo` up to, not including, `hi` of `word` spell, bit
/// 0 being the lowest: the bits from `hi` on are dropped, then the `lo` lowest.
pub open spec fn bit_range(word: Word, lo: nat, hi: nat) -> int {
    (word as int % pow2(hi) as int) / pow2(lo) as int
}

/// Calls `bit_field::BitField::get_bits` on a word with the range `lo..hi`.
///
/// Trusted: the result is taken to be the number spelled by bits `lo..hi` of
/// `word`. The outside function shifts the word left until bit `hi` falls off
/// the top, shifts it back, and then shifts right by `lo`. It panics unless
/// `lo < hi` and `hi` is at most the width of a word, which the precondition
/// demands.
#[verifier::external_body]
pub(crate) fn get_bits(word: Word, lo: u8, hi: u8) -> (bits: Word)
    requires
        lo < hi <= WORD_BITS,
    ensures
        bits == bit_range(word, lo as nat, hi as nat),
{
    word.get_bits(lo..hi)
}

} // verus!
