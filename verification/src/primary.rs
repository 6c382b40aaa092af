//! The primary tag: the two lowest bits of every term word, which say to
//! which broad category the word belongs.

use crate::rt_defs::Word;
use vstd::prelude::*;

verus! {

/// First bit of the primary tag.
pub const PRIM_TAG_FIRST: u8 = 0;

/// One past the last bit of the primary tag.
pub const PRIM_TAG_LAST: u8 = 2;

/// Primary tag of the immediate values.
pub const TAG_IMMED: Word = 1;

} // verus!
