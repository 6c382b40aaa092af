//! Immediate values of a term: small scalars packed into one machine word
//! together with the tags that say what they are.

pub mod bits;
pub mod imm1;
pub mod primary;
pub mod rt_defs;
