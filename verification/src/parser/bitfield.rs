//! The one bit-slice utility every decoder stage goes through.
//!
//! Bits are numbered 7 (most significant) down to 0, matching the
//! standard's tables. Extraction is plain arithmetic so that the
//! specification and the executable code coincide.

use vstd::prelude::*;

verus! {

/// Bit `i` of `b`, with bit 7 the most significant.
pub open spec fn spec_bit(b: u8, i: u8) -> bool
    recommends
        i < 8,
{
    let p: u8 = if i == 0 {
        1
    } else if i == 1 {
        2
    } else if i == 2 {
        4
    } else if i == 3 {
        8
    } else if i == 4 {
        16
    } else if i == 5 {
        32
    } else if i == 6 {
        64
    } else {
        128
    };
    (b / p) % 2 == 1
}

/// Extracts bit `i` of `b`, with bit 7 the most significant.
pub fn bit(b: u8, i: u8) -> (r: bool)
    requires
        i < 8,
    ensures
        r == spec_bit(b, i),
{
    let p: u8 = if i == 0 {
        1
    } else if i == 1 {
        2
    } else if i == 2 {
        4
    } else if i == 3 {
        8
    } else if i == 4 {
        16
    } else if i == 5 {
        32
    } else if i == 6 {
        64
    } else {
        128
    };
    (b / p) % 2 == 1
}

} // verus!
