//! Immediate1 values: words that carry a small scalar and say what it is.
//!
//! From the lowest bit up, a word holds the primary tag `PP`, the imm1 tag
//! `aa` and the value: `.... .... .... aaPP`. The value has the word's width
//! less four bits, which is 60 bits of 64 and 28 of 32.
//!
//! The contracts here read a word as a number: the primary tag is the word
//! modulo 4, the imm1 tag is the next base-4 digit, and the value is the word
//! divided by 16.

use crate::bits::{bit_range, get_bits};
use crate::primary::{PRIM_TAG_FIRST, PRIM_TAG_LAST, TAG_IMMED};
use crate::rt_defs::{
    lemma_cast_to_signed, lemma_signed_as_word, lemma_word_limits, signed_as_word,
    word_as_signed, SWord, Word, MAX_POS_SMALL, MIN_NEG_SMALL, WORD_BITS,
};
use vstd::arithmetic::div_mod::lemma_small_mod;
use vstd::arithmetic::power2::{lemma2_to64, pow2};
use vstd::prelude::*;

verus! {

/// First bit of the imm1 tag: it follows the primary tag.
pub const IMM1_TAG_FIRST: u8 = PRIM_TAG_LAST;

/// One past the last bit of the imm1 tag.
pub const IMM1_TAG_LAST: u8 = 4;

/// First bit of the value: it follows the imm1 tag.
pub const IMM1_VALUE_FIRST: u8 = IMM1_TAG_LAST;

/// One past the last bit of the value, which is the top of the word.
pub const IMM1_VALUE_LAST: u8 = WORD_BITS as u8;

/// Number of bits that the value takes.
pub const SMALL_BITS: Word = (IMM1_VALUE_LAST - IMM1_VALUE_FIRST) as Word;

/// Imm1 tag of a process identifier.
pub const TAG_IMM1_PID: Word = 0;

/// Imm1 tag of a port identifier.
pub const TAG_IMM1_PORT: Word = 1;

/// Imm1 tag of a word that goes on with an immediate2 tag.
pub const TAG_IMM1_IMM2: Word = 2;

/// Imm1 tag of a small integer.
pub const TAG_IMM1_SMALL: Word = 3;

/// Largest imm1 tag.
pub const IMMEDIATE1_MAX: Word = 3;

/// The bits of an immediate1 below the imm1 tag: the primary tag of the
/// immediates.
pub const IMM1_PREFIX: Word = TAG_IMMED;

/// The four lowest bits of a process identifier.
pub const IMM1_PID_PREFIX: Word = IMM1_PREFIX | (TAG_IMM1_PID << IMM1_TAG_FIRST);

/// The four lowest bits of a port identifier.
pub const IMM1_PORT_PREFIX: Word = IMM1_PREFIX | (TAG_IMM1_PORT << IMM1_TAG_FIRST);

/// The four lowest bits of a word that goes on with an immediate2 tag.
pub const IMM1_IMM2_PREFIX: Word = IMM1_PREFIX | (TAG_IMM1_IMM2 << IMM1_TAG_FIRST);

/// The four lowest bits of a small integer.
pub const IMM1_SMALL_PREFIX: Word = IMM1_PREFIX | (TAG_IMM1_SMALL << IMM1_TAG_FIRST);

/// What an immediate1 word holds, as its imm1 tag says.
#[derive(Clone, Copy, Debug, PartialEq, Eq, Structural)]
pub enum Immediate1 {
    Pid,
    Port,
    Imm2,
    Small,
}

impl Immediate1 {
    /// The imm1 tag that stands for this kind.
    pub open spec fn spec_to_word(self) -> Word {
        match self {
            Immediate1::Pid => TAG_IMM1_PID,
            Immediate1::Port => TAG_IMM1_PORT,
            Immediate1::Imm2 => TAG_IMM1_IMM2,
            Immediate1::Small => TAG_IMM1_SMALL,
        }
    }

    /// The kind that an imm1 tag stands for. No number above
    /// `IMMEDIATE1_MAX` is an imm1 tag.
    pub open spec fn spec_from_word(t: Word) -> Option<Immediate1> {
        if t == TAG_IMM1_PID {
            Some(Immediate1::Pid)
        } else if t == TAG_IMM1_PORT {
            Some(Immediate1::Port)
        } else if t == TAG_IMM1_IMM2 {
            Some(Immediate1::Imm2)
        } else if t == TAG_IMM1_SMALL {
            Some(Immediate1::Small)
        } else {
            None
        }
    }

    /// The imm1 tag of this kind, as it stands in a word's tag bits.
    #[verifier::when_used_as_spec(spec_to_word)]
    pub fn to_word(self) -> (t: Word)
        ensures
            t == self.spec_to_word(),
            t <= IMMEDIATE1_MAX,
            Immediate1::from_word(t) == Some(self),
    {
        match self {
            Immediate1::Pid => TAG_IMM1_PID,
            Immediate1::Port => TAG_IMM1_PORT,
            Immediate1::Imm2 => TAG_IMM1_IMM2,
            Immediate1::Small => TAG_IMM1_SMALL,
        }
    }

    /// The kind with the imm1 tag `t`, if `t` is one.
    #[verifier::when_used_as_spec(spec_from_word)]
    pub fn from_word(t: Word) -> (kind: Option<Immediate1>)
        ensures
            kind == Immediate1::spec_from_word(t),
            kind.is_some() == (t <= IMMEDIATE1_MAX),
            kind matches Some(k) ==> k.to_word() == t,
    {
        if t == TAG_IMM1_PID {
            Some(Immediate1::Pid)
        } else if t == TAG_IMM1_PORT {
            Some(Immediate1::Port)
        } else if t == TAG_IMM1_IMM2 {
            Some(Immediate1::Imm2)
        } else if t == TAG_IMM1_SMALL {
            Some(Immediate1::Small)
        } else {
            None
        }
    }
}

/// The bit ranges of the layout, as digits of the word.
proof fn lemma_fields_are_bit_ranges(val: Word)
    ensures
        bit_range(val, PRIM_TAG_FIRST as nat, IMM1_TAG_FIRST as nat) == val % 4,
        bit_range(val, PRIM_TAG_FIRST as nat, IMM1_VALUE_FIRST as nat) == val % 16,
        bit_range(val, IMM1_TAG_FIRST as nat, IMM1_TAG_LAST as nat) == (val / 4) % 4,
        bit_range(val, IMM1_VALUE_FIRST as nat, IMM1_VALUE_LAST as nat) == val / 16,
{
    lemma2_to64();
    lemma_word_limits();
    assert(val as int % pow2(IMM1_VALUE_LAST as nat) as int == val) by {
        lemma_small_mod(val as nat, pow2(IMM1_VALUE_LAST as nat));
    }
}

/// Whether the primary tag of `val` is that of the immediates.
pub open spec fn spec_is_immediate1(val: Word) -> bool {
    get_imm1_prefix(val) == IMM1_PREFIX
}

/// Says whether a word is an immediate1: whether its two lowest bits are the
/// primary tag of the immediates.
#[verifier::when_used_as_spec(spec_is_immediate1)]
#[inline]
pub fn is_immediate1(val: Word) -> (yes: bool)
    ensures
        yes == spec_is_immediate1(val),
        yes == (val % 4 == TAG_IMMED),
{
    get_imm1_prefix(val) == IMM1_PREFIX
}

/// The number in the two lowest bits of `val`.
pub open spec fn spec_get_imm1_prefix(val: Word) -> Word {
    val % 4
}

/// Reads the bits below the imm1 tag, where the primary tag stands.
#[verifier::when_used_as_spec(spec_get_imm1_prefix)]
#[inline]
pub fn get_imm1_prefix(val: Word) -> (prefix: Word)
    ensures
        prefix == val % 4,
{
    proof {
        lemma_fields_are_bit_ranges(val);
    }
    get_bits(val, PRIM_TAG_FIRST, IMM1_TAG_FIRST)
}

/// The number in the four lowest bits of `val`.
pub open spec fn spec_get_imm1_prefix_and_tag(val: Word) -> Word {
    val % 16
}

/// Reads the primary tag and the imm1 tag as one number, to be held against
/// one of the precomposed prefixes.
#[verifier::when_used_as_spec(spec_get_imm1_prefix_and_tag)]
#[inline]
pub fn get_imm1_prefix_and_tag(val: Word) -> (prefix: Word)
    ensures
        prefix == val % 16,
        prefix == get_imm1_prefix(val) + 4 * get_imm1_tag(val).to_word(),
        fits_imm1_prefix(prefix),
{
    proof {
        lemma_fields_are_bit_ranges(val);
    }
    get_bits(val, PRIM_TAG_FIRST, IMM1_VALUE_FIRST)
}

/// The kind that bits 2 and 3 of `val` stand for.
pub open spec fn spec_get_imm1_tag(val: Word) -> Immediate1 {
    match (val / 4) % 4 {
        0 => Immediate1::Pid,
        1 => Immediate1::Port,
        2 => Immediate1::Imm2,
        _ => Immediate1::Small,
    }
}

/// Reads the imm1 tag of a word. Any word has one, an immediate1 or not.
#[verifier::when_used_as_spec(spec_get_imm1_tag)]
#[inline]
pub fn get_imm1_tag(val: Word) -> (tag: Immediate1)
    ensures
        tag == spec_get_imm1_tag(val),
        tag.to_word() == (val / 4) % 4,
        tag.to_word() <= IMMEDIATE1_MAX,
{
    let t: Word = get_bits(val, IMM1_TAG_FIRST, IMM1_TAG_LAST);
    proof {
        lemma_fields_are_bit_ranges(val);
    }
    // Two bits cannot spell more than the largest tag, so a kind is found.
    assert(t <= IMMEDIATE1_MAX);
    Immediate1::from_word(t).unwrap()
}

/// The number in the bits of `val` above the imm1 tag.
pub open spec fn spec_get_imm1_value(val: Word) -> Word {
    val / 16
}

/// Reads the value of an immediate1 as an unsigned number, as process and
/// port identifiers hold it.
#[verifier::when_used_as_spec(spec_get_imm1_value)]
#[inline]
pub fn get_imm1_value(val: Word) -> (value: Word)
    requires
        is_immediate1(val),
    ensures
        value == val / 16,
        fits_imm1_value(value),
{
    proof {
        lemma_fields_are_bit_ranges(val);
    }
    get_bits(val, IMM1_VALUE_FIRST, IMM1_VALUE_LAST)
}

/// The number in the bits of `val` above the imm1 tag, the top bit of the
/// word being its sign: the signed reading of the word, divided by 16 and
/// rounded down.
pub open spec fn spec_get_imm1_value_s(val: Word) -> SWord {
    (word_as_signed(val) / 16) as SWord
}

/// Reads the value of an immediate1 as a signed number, as small integers
/// hold it. A value that was stored negative comes out negative.
#[verifier::when_used_as_spec(spec_get_imm1_value_s)]
#[inline]
pub fn get_imm1_value_s(val: Word) -> (value: SWord)
    requires
        is_immediate1(val),
    ensures
        value == word_as_signed(val) / 16,
        value == spec_get_imm1_value_s(val),
        value == (val as SWord) >> 4,
        fits_small(value),
{
    proof {
        lemma_cast_to_signed(val);
        assert(forall|m: isize| m >> 4 == m / 16) by (bit_vector);
    }
    (val as SWord) >> IMM1_VALUE_FIRST
}

/// Whether `prefix` is a primary tag with an imm1 tag and no bit above them.
pub open spec fn spec_fits_imm1_prefix(prefix: Word) -> bool {
    prefix < 16
}

/// Says whether a word may be the prefix of an immediate1: whether it is
/// below two to the power of `IMM1_VALUE_FIRST`.
#[verifier::when_used_as_spec(spec_fits_imm1_prefix)]
#[inline]
pub fn fits_imm1_prefix(prefix: Word) -> (yes: bool)
    ensures
        yes == spec_fits_imm1_prefix(prefix),
        yes == (prefix < pow2(IMM1_VALUE_FIRST as nat)),
{
    proof {
        lemma2_to64();
        assert(1usize << 4 == 16) by (bit_vector);
    }
    prefix < (1 << IMM1_VALUE_FIRST)
}

/// Whether `val`, moved up past the tags, is still within a word.
pub open spec fn spec_fits_imm1_value(val: Word) -> bool {
    16 * val <= usize::MAX
}

/// Says whether an unsigned value has room in an immediate1: whether it is
/// below two to the power of `SMALL_BITS`.
#[verifier::when_used_as_spec(spec_fits_imm1_value)]
#[inline]
pub fn fits_imm1_value(val: Word) -> (yes: bool)
    ensures
        yes == spec_fits_imm1_value(val),
        yes == (val < pow2(SMALL_BITS as nat)),
{
    proof {
        lemma_word_limits();
        if usize::BITS == 64 {
            assert(1usize << 60 == 0x1000_0000_0000_0000) by (bit_vector)
                requires
                    usize::BITS == 64,
            ;
        } else {
            assert(1usize << 28 == 0x1000_0000) by (bit_vector);
        }
    }
    val < (1 << (IMM1_VALUE_LAST - IMM1_VALUE_FIRST))
}

/// Whether `val` is in the range of the small integers.
pub open spec fn spec_fits_small(val: SWord) -> bool {
    MIN_NEG_SMALL <= val <= MAX_POS_SMALL
}

/// Says whether a signed value is a small integer: whether two's complement
/// can write it in `SMALL_BITS` bits.
#[verifier::when_used_as_spec(spec_fits_small)]
#[inline]
pub fn fits_small(val: SWord) -> (yes: bool)
    ensures
        yes == spec_fits_small(val),
        yes == (-pow2((SMALL_BITS - 1) as nat) <= val < pow2((SMALL_BITS - 1) as nat)),
{
    proof {
        lemma_word_limits();
    }
    MIN_NEG_SMALL <= val && val <= MAX_POS_SMALL
}

/// The word with `prefix` in its four lowest bits and `val` above them.
pub open spec fn spec_combine_imm1_prefix_and_val(val: Word, prefix: Word) -> Word
    recommends
        fits_imm1_prefix(prefix),
        fits_imm1_value(val),
{
    (prefix + 16 * val) as Word
}

/// Puts an unsigned value and a prefix together into one word. The prefix
/// is a primary tag with an imm1 tag, such as one of the precomposed ones.
///
/// Neither part reaches into the bits of the other, so joining them with
/// `|` adds them up.
#[verifier::when_used_as_spec(spec_combine_imm1_prefix_and_val)]
#[inline]
pub fn combine_imm1_prefix_and_val(val: Word, prefix0: Word) -> (word: Word)
    requires
        fits_imm1_prefix(prefix0),
        fits_imm1_value(val),
    ensures
        word == prefix0 + 16 * val,
        word == spec_combine_imm1_prefix_and_val(val, prefix0),
        word == prefix0 | (val << 4),
        get_imm1_prefix_and_tag(word) == prefix0,
        get_imm1_value(word) == val,
{
    let prefix = prefix0;
    proof {
        if usize::BITS == 64 {
            assert(prefix | (val << 4) == prefix + 16 * val) by (bit_vector)
                requires
                    usize::BITS == 64,
                    prefix < 16,
                    val < 0x1000_0000_0000_0000,
            ;
        } else {
            assert(prefix | (val << 4) == prefix + 16 * val) by (bit_vector)
                requires
                    prefix < 16,
                    val < 0x1000_0000,
            ;
        }
    }
    prefix | (val << IMM1_VALUE_FIRST)
}

/// The word with `prefix` in its four lowest bits and, above them, `val` in
/// two's complement.
pub open spec fn spec_combine_imm1_prefix_and_val_signed(val: SWord, prefix: Word) -> Word
    recommends
        fits_imm1_prefix(prefix),
        fits_small(val),
{
    signed_as_word(prefix + 16 * val) as Word
}

/// Puts a small integer and a prefix together into one word. The sign of the
/// value becomes the top bit of the word, so the word read as a signed
/// number is sixteen times the value, plus the prefix.
#[verifier::when_used_as_spec(spec_combine_imm1_prefix_and_val_signed)]
#[inline]
pub fn combine_imm1_prefix_and_val_signed(val: SWord, prefix0: Word) -> (word: Word)
    requires
        fits_imm1_prefix(prefix0),
        fits_small(val),
    ensures
        word_as_signed(word) == prefix0 + 16 * val,
        word == signed_as_word(prefix0 + 16 * val),
        word == spec_combine_imm1_prefix_and_val_signed(val, prefix0),
        word == prefix0 | ((val << 4) as Word),
        get_imm1_prefix_and_tag(word) == prefix0,
        get_imm1_value_s(word) == val,
{
    let prefix = prefix0;
    proof {
        lemma_signed_as_word(prefix + 16 * val);
        if usize::BITS == 64 {
            assert(prefix | ((val << 4) as usize) == (if val >= 0 {
                prefix + 16 * val
            } else {
                prefix + 16 * val + 0x1_0000_0000_0000_0000
            })) by (bit_vector)
                requires
                    usize::BITS == 64,
                    prefix < 16,
                    -0x0800_0000_0000_0000 <= val < 0x0800_0000_0000_0000,
            ;
        } else {
            assert(prefix | ((val << 4) as usize) == (if val >= 0 {
                prefix + 16 * val
            } else {
                prefix + 16 * val + 0x1_0000_0000
            })) by (bit_vector)
                requires
                    usize::BITS == 32,
                    prefix < 16,
                    -0x0800_0000 <= val < 0x0800_0000,
            ;
        }
    }
    prefix | (val << IMM1_VALUE_FIRST) as Word
}

/// The primary tag of the immediates and an imm1 tag `t`, put together, are a
/// prefix that fits, and its number is the primary tag plus four times `t`.
pub proof fn lemma_imm1_prefix_of_tag(t: Word)
    requires
        t <= IMMEDIATE1_MAX,
    ensures
        fits_imm1_prefix(IMM1_PREFIX | (t << IMM1_TAG_FIRST)),
        IMM1_PREFIX | (t << IMM1_TAG_FIRST) == IMM1_PREFIX + 4 * t,
{
    assert(1usize | (t << 2u8) == 1 + 4 * t) by (bit_vector)
        requires
            t <= 3,
    ;
}

/// The precomposed prefixes as numbers.
pub proof fn lemma_imm1_prefixes()
    ensures
        IMM1_PID_PREFIX == 0b0001,
        IMM1_PORT_PREFIX == 0b0101,
        IMM1_IMM2_PREFIX == 0b1001,
        IMM1_SMALL_PREFIX == 0b1101,
{
    lemma_imm1_prefix_of_tag(TAG_IMM1_PID);
    lemma_imm1_prefix_of_tag(TAG_IMM1_PORT);
    lemma_imm1_prefix_of_tag(TAG_IMM1_IMM2);
    lemma_imm1_prefix_of_tag(TAG_IMM1_SMALL);
}

/// An unsigned value goes into a word and comes out again: the word made of
/// the primary tag of the immediates, an imm1 tag `t` and a value that fits
/// is an immediate1, its imm1 tag is `t` and its value is the one put in.
pub proof fn lemma_round_trip_unsigned(t: Word, val: Word)
    requires
        t <= IMMEDIATE1_MAX,
        fits_imm1_value(val),
    ensures
        ({
            let prefix = IMM1_PREFIX | (t << IMM1_TAG_FIRST);
            let word = combine_imm1_prefix_and_val(val, prefix);
            &&& fits_imm1_prefix(prefix)
            &&& is_immediate1(word)
            &&& get_imm1_tag(word).to_word() == t
            &&& Some(get_imm1_tag(word)) == Immediate1::from_word(t)
            &&& get_imm1_value(word) == val
            &&& get_imm1_prefix_and_tag(word) == prefix
        }),
{
    lemma_imm1_prefix_of_tag(t);
}

/// A small integer goes into a word and comes out again: the word made of
/// the prefix of the small integers and a small integer is an immediate1
/// with the tag of the small integers, and its signed value is the integer
/// put in.
pub proof fn lemma_round_trip_signed(val: SWord)
    requires
        fits_small(val),
    ensures
        ({
            let word = combine_imm1_prefix_and_val_signed(val, IMM1_SMALL_PREFIX);
            &&& fits_imm1_prefix(IMM1_SMALL_PREFIX)
            &&& is_immediate1(word)
            &&& get_imm1_tag(word) == Immediate1::Small
            &&& get_imm1_value_s(word) == val
        }),
{
    lemma_imm1_prefixes();
    lemma_signed_as_word(IMM1_SMALL_PREFIX + 16 * val);
}

} // verus!
