//! Display Color Management descriptors (tag `0xF9`): a version byte
//! and six raw little-endian coefficients, with no semantic decoding.

use crate::error::Warning;
use crate::structures::desc::DisplayDescriptor;
use vstd::prelude::*;

verus! {

/// A little-endian 16-bit coefficient.
pub open spec fn spec_u16_le(lo: u8, hi: u8) -> u16 {
    (lo + 256 * hi) as u16
}

/// The raw DCM payload.
pub open spec fn spec_dcm(w: Seq<u8>) -> DisplayDescriptor
    recommends
        w.len() == 18,
{
    DisplayDescriptor::DcmData {
        version_number: w[5],
        red_a3: spec_u16_le(w[6], w[7]),
        red_a2: spec_u16_le(w[8], w[9]),
        green_a3: spec_u16_le(w[10], w[11]),
        green_a2: spec_u16_le(w[12], w[13]),
        blue_a3: spec_u16_le(w[14], w[15]),
        blue_a2: spec_u16_le(w[16], w[17]),
    }
}

/// The warning a DCM descriptor draws: one for a reserved version
/// byte, none otherwise.
pub open spec fn spec_dcm_warnings(w: Seq<u8>) -> Seq<Warning>
    recommends
        w.len() == 18,
{
    if w[5] != 0x03 {
        seq![Warning::DcmReservedVersion]
    } else {
        Seq::empty()
    }
}

/// Decodes a DCM descriptor. Any version other than `0x03` is reserved
/// and draws a warning.
pub fn parse(input: &[u8], warns: &mut Vec<Warning>) -> (r: DisplayDescriptor)
    requires
        input@.len() == 18,
    ensures
        r == spec_dcm(input@),
        final(warns)@ == old(warns)@ + spec_dcm_warnings(input@),
{
    proof {
        crate::parser::lemma_concat_one(old(warns)@, Warning::DcmReservedVersion);
        crate::parser::lemma_concat_empty::<Warning>(old(warns)@);
    }
    let version_number = input[5];
    if version_number != 0x03 {
        warns.push(Warning::DcmReservedVersion);
    }
    DisplayDescriptor::DcmData {
        version_number,
        red_a3: input[6] as u16 + 256 * (input[7] as u16),
        red_a2: input[8] as u16 + 256 * (input[9] as u16),
        green_a3: input[10] as u16 + 256 * (input[11] as u16),
        green_a2: input[12] as u16 + 256 * (input[13] as u16),
        blue_a3: input[14] as u16 + 256 * (input[15] as u16),
        blue_a2: input[16] as u16 + 256 * (input[17] as u16),
    }
}

} // verus!
