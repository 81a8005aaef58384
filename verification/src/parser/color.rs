//! Color characteristics: bytes `0x19`..=`0x22`.
//!
//! Each of the eight axis values is a 10-bit integer: eight high bits
//! from a dedicated byte, two low bits packed into a shared byte.

use crate::parser::bitfield::{bit, spec_bit};
use crate::ratio::{spec_ratio, Ratio};
use crate::structures::color::{ColorCharacteristics, ColorCoordinate};
use vstd::prelude::*;

verus! {

/// A 10-bit value from its two low bits and its high byte.
pub open spec fn spec_make_u10(_2nd_smallest: bool, smallest: bool, etc: u8) -> u16 {
    (etc * 4 + (if _2nd_smallest {
        2int
    } else {
        0
    }) + (if smallest {
        1int
    } else {
        0
    })) as u16
}

/// Builds a 10-bit value out of its two low bits and its high byte.
pub fn make_u10(_2nd_smallest: bool, smallest: bool, etc: u8) -> (r: u16)
    ensures
        r == spec_make_u10(_2nd_smallest, smallest, etc),
        r <= 1023,
{
    let low: u16 = (if _2nd_smallest {
        2
    } else {
        0
    }) + (if smallest {
        1
    } else {
        0
    });
    (etc as u16) * 4 + low
}

/// A 10-bit axis value as an exact fraction over 1024.
pub fn into_decimal(raw_value: u16) -> (r: Ratio)
    requires
        raw_value <= 1023,
    ensures
        r == spec_ratio(raw_value as nat, 1024),
{
    Ratio::new(raw_value as u32, 1024)
}

/// The 10-bit value of one axis: the dedicated byte `etc` supplies the
/// high eight bits, bits `hi` and `lo` of the shared byte the low two.
pub open spec fn spec_axis_u10(shared: u8, hi: u8, lo: u8, etc: u8) -> u16 {
    spec_make_u10(spec_bit(shared, hi), spec_bit(shared, lo), etc)
}

/// One axis as a fraction over 1024.
pub open spec fn spec_axis(shared: u8, hi: u8, lo: u8, etc: u8) -> Ratio {
    spec_ratio(spec_axis_u10(shared, hi, lo, etc) as nat, 1024)
}

/// All four coordinate pairs. Byte `0x19` shares the low bits of the
/// red and green axes, byte `0x1A` those of the blue and white axes.
pub open spec fn spec_color(s: Seq<u8>) -> ColorCharacteristics
    recommends
        s.len() >= 0x23,
{
    ColorCharacteristics {
        red: ColorCoordinate {
            x: spec_axis(s[0x19], 7, 6, s[0x1B]),
            y: spec_axis(s[0x19], 5, 4, s[0x1C]),
        },
        green: ColorCoordinate {
            x: spec_axis(s[0x19], 3, 2, s[0x1D]),
            y: spec_axis(s[0x19], 1, 0, s[0x1E]),
        },
        blue: ColorCoordinate {
            x: spec_axis(s[0x1A], 7, 6, s[0x1F]),
            y: spec_axis(s[0x1A], 5, 4, s[0x20]),
        },
        white_point: ColorCoordinate {
            x: spec_axis(s[0x1A], 3, 2, s[0x21]),
            y: spec_axis(s[0x1A], 1, 0, s[0x22]),
        },
    }
}

/// Decodes one axis.
fn axis(shared: u8, hi: u8, lo: u8, etc: u8) -> (r: Ratio)
    requires
        hi < 8,
        lo < 8,
    ensures
        r == spec_axis(shared, hi, lo, etc),
{
    into_decimal(make_u10(bit(shared, hi), bit(shared, lo), etc))
}

/// Decodes the color characteristics. Every bit pattern is valid; each
/// axis lands in `[0, 1023/1024]`.
pub fn parse(input: &[u8]) -> (r: ColorCharacteristics)
    requires
        input@.len() >= 0x23,
    ensures
        r == spec_color(input@),
{
    let shared_rg = input[0x19];
    let shared_bw = input[0x1A];
    ColorCharacteristics {
        red: ColorCoordinate {
            x: axis(shared_rg, 7, 6, input[0x1B]),
            y: axis(shared_rg, 5, 4, input[0x1C]),
        },
        green: ColorCoordinate {
            x: axis(shared_rg, 3, 2, input[0x1D]),
            y: axis(shared_rg, 1, 0, input[0x1E]),
        },
        blue: ColorCoordinate {
            x: axis(shared_bw, 7, 6, input[0x1F]),
            y: axis(shared_bw, 5, 4, input[0x20]),
        },
        white_point: ColorCoordinate {
            x: axis(shared_bw, 3, 2, input[0x21]),
            y: axis(shared_bw, 1, 0, input[0x22]),
        },
    }
}

} // verus!
