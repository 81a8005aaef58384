//! Color point descriptors (tag `0xFB`): two extra white points.

use crate::error::Warning;
use crate::parser::basic_info::spec_gamma;
use crate::parser::bitfield::bit;
use crate::parser::color::{into_decimal, make_u10, spec_axis};
use crate::ratio::Ratio;
use crate::structures::color::ColorCoordinate;
use crate::structures::desc::color_point::WhitePoint;
use crate::structures::desc::DisplayDescriptor;
use vstd::prelude::*;

verus! {

/// One white point, at offset 0 (first) or 5 (second) within the
/// payload. The coordinate uses the same shared-bit scheme as the
/// color characteristics; a gamma byte of `0xFF` defers to an
/// extension block.
pub open spec fn spec_white_point(w: Seq<u8>, off: int) -> WhitePoint
    recommends
        w.len() == 18,
        off == 0 || off == 5,
{
    WhitePoint {
        index_number: w[5 + off],
        coord: ColorCoordinate {
            x: spec_axis(w[6 + off], 3, 2, w[7 + off]),
            y: spec_axis(w[6 + off], 1, 0, w[8 + off]),
        },
        gamma: spec_gamma(w[9 + off]),
    }
}

/// Both white points of a color point descriptor.
pub open spec fn spec_color_point(w: Seq<u8>) -> DisplayDescriptor
    recommends
        w.len() == 18,
{
    DisplayDescriptor::ColorPointData {
        w1: spec_white_point(w, 0),
        w2: spec_white_point(w, 5),
    }
}

/// The warning one white point draws: one for the reserved index byte
/// zero, none otherwise.
pub open spec fn spec_white_point_warnings(w: Seq<u8>, off: int) -> Seq<Warning>
    recommends
        w.len() == 18,
        off == 0 || off == 5,
{
    if w[5 + off] == 0 {
        seq![Warning::WhitePointReservedIndex]
    } else {
        Seq::empty()
    }
}

/// The warnings of both white points, first point first.
pub open spec fn spec_color_point_warnings(w: Seq<u8>) -> Seq<Warning>
    recommends
        w.len() == 18,
{
    spec_white_point_warnings(w, 0) + spec_white_point_warnings(w, 5)
}

/// Decodes one white point; `wi` is 1 or 2. An index byte of zero is
/// reserved and draws a warning.
pub fn make_white_point(wi: u8, input: &[u8], warns: &mut Vec<Warning>) -> (r: WhitePoint)
    requires
        wi == 1 || wi == 2,
        input@.len() == 18,
    ensures
        r == spec_white_point(input@, if wi == 1 { 0int } else { 5int }),
        final(warns)@ == old(warns)@ + spec_white_point_warnings(
            input@,
            if wi == 1 { 0int } else { 5int },
        ),
{
    proof {
        crate::parser::lemma_concat_one(old(warns)@, Warning::WhitePointReservedIndex);
        crate::parser::lemma_concat_empty::<Warning>(old(warns)@);
    }
    let shift: usize = if wi == 1 {
        0
    } else {
        5
    };
    let index = input[5 + shift];
    if index == 0x00 {
        warns.push(Warning::WhitePointReservedIndex);
    }
    let shared = input[6 + shift];
    let wx: Ratio = into_decimal(make_u10(bit(shared, 3), bit(shared, 2), input[7 + shift]));
    let wy: Ratio = into_decimal(make_u10(bit(shared, 1), bit(shared, 0), input[8 + shift]));
    let raw_gamma = input[9 + shift];
    let gamma = if raw_gamma == 0xFF {
        None
    } else {
        Some(Ratio::new(raw_gamma as u32 + 100, 100))
    };
    WhitePoint { index_number: index, coord: ColorCoordinate { x: wx, y: wy }, gamma }
}

/// Decodes a color point descriptor. Every bit pattern is valid;
/// reserved index bytes only draw warnings.
pub fn parse(input: &[u8], warns: &mut Vec<Warning>) -> (r: DisplayDescriptor)
    requires
        input@.len() == 18,
    ensures
        r == spec_color_point(input@),
        final(warns)@ == old(warns)@ + spec_color_point_warnings(input@),
{
    let ghost w0 = warns@;
    let w1 = make_white_point(1, input, warns);
    let w2 = make_white_point(2, input, warns);
    proof {
        crate::parser::lemma_concat_assoc(
            w0,
            spec_white_point_warnings(input@, 0),
            spec_white_point_warnings(input@, 5),
        );
    }
    DisplayDescriptor::ColorPointData { w1, w2 }
}

} // verus!
