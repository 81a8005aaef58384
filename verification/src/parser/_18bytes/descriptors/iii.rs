//! Established Timings III descriptors (tag `0xF7`): 44 named timing
//! flags over six bytes.

use crate::error::{EdidError, Warning};
use crate::parser::bitfield::{bit, spec_bit};
use crate::structures::desc::DisplayDescriptor;
use vstd::prelude::*;

verus! {

/// The 44 timing flags, bytes 6..=11 of the window, bit 7 first.
pub open spec fn spec_est_iii(w: Seq<u8>) -> DisplayDescriptor
    recommends
        w.len() == 18,
{
    DisplayDescriptor::EstablishedTimingsIII {
        _640x350_85hz: spec_bit(w[6], 7),
        _640x400_85hz: spec_bit(w[6], 6),
        _720x400_85hz: spec_bit(w[6], 5),
        _640x480_85hz: spec_bit(w[6], 4),
        _848x480_60hz: spec_bit(w[6], 3),
        _800x600_85hz: spec_bit(w[6], 2),
        _1024x768_85hz: spec_bit(w[6], 1),
        _1152x864_75hz: spec_bit(w[6], 0),
        _1280x768_60hz_reduced: spec_bit(w[7], 7),
        _1280x768_60hz: spec_bit(w[7], 6),
        _1280x768_75hz: spec_bit(w[7], 5),
        _1280x768_85hz: spec_bit(w[7], 4),
        _1280x960_60hz: spec_bit(w[7], 3),
        _1280x960_85hz: spec_bit(w[7], 2),
        _1280x1024_60hz: spec_bit(w[7], 1),
        _1280x1024_85hz: spec_bit(w[7], 0),
        _1360x768_60hz: spec_bit(w[8], 7),
        _1440x900_60hz_reduced: spec_bit(w[8], 6),
        _1440x900_60hz: spec_bit(w[8], 5),
        _1440x900_75hz: spec_bit(w[8], 4),
        _1440x900_85hz: spec_bit(w[8], 3),
        _1400x1050_60hz_reduced: spec_bit(w[8], 2),
        _1400x1050_60hz: spec_bit(w[8], 1),
        _1400x1050_75hz: spec_bit(w[8], 0),
        _1400x1050_85hz: spec_bit(w[9], 7),
        _1680x1050_60hz_reduced: spec_bit(w[9], 6),
        _1680x1050_60hz: spec_bit(w[9], 5),
        _1680x1050_75hz: spec_bit(w[9], 4),
        _1680x1050_85hz: spec_bit(w[9], 3),
        _1600x1200_60hz: spec_bit(w[9], 2),
        _1600x1200_65hz: spec_bit(w[9], 1),
        _1600x1200_70hz: spec_bit(w[9], 0),
        _1600x1200_75hz: spec_bit(w[10], 7),
        _1600x1200_85hz: spec_bit(w[10], 6),
        _1792x1344_60hz: spec_bit(w[10], 5),
        _1792x1344_75hz: spec_bit(w[10], 4),
        _1856x1392_60hz: spec_bit(w[10], 3),
        _1856x1392_75hz: spec_bit(w[10], 2),
        _1920x1200_60hz_reduced: spec_bit(w[10], 1),
        _1920x1200_60hz: spec_bit(w[10], 0),
        _1920x1200_75hz: spec_bit(w[11], 7),
        _1920x1200_85hz: spec_bit(w[11], 6),
        _1920x1440_60hz: spec_bit(w[11], 5),
        _1920x1440_75hz: spec_bit(w[11], 4),
    }
}

/// Whether the reserved space of the descriptor is untouched: the low
/// four bits of byte 11 and all of bytes 12..=17.
pub open spec fn spec_est_iii_reserved_clear(w: Seq<u8>) -> bool
    recommends
        w.len() == 18,
{
    &&& w[11] % 16 == 0
    &&& w[12] == 0 && w[13] == 0 && w[14] == 0 && w[15] == 0 && w[16] == 0 && w[17] == 0
}

/// The warning this descriptor draws: one when its reserved space is
/// in use, none otherwise.
pub open spec fn spec_est_iii_warnings(w: Seq<u8>) -> Seq<Warning>
    recommends
        w.len() == 18,
{
    if !spec_est_iii_reserved_clear(w) {
        seq![Warning::EstablishedTimingsIiiReservedBits]
    } else {
        Seq::empty()
    }
}

/// Decodes an Established Timings III descriptor. Reserved bits in use
/// only draw a warning.
pub fn parse(input: &[u8], warns: &mut Vec<Warning>) -> (r: Result<
    DisplayDescriptor,
    EdidError,
>)
    requires
        input@.len() == 18,
    ensures
        match r {
            Ok(d) => d == spec_est_iii(input@),
            Err(_) => false,
        },
        final(warns)@ == old(warns)@ + spec_est_iii_warnings(input@),
{
    proof {
        crate::parser::lemma_concat_one(
            old(warns)@,
            Warning::EstablishedTimingsIiiReservedBits,
        );
        crate::parser::lemma_concat_empty::<Warning>(old(warns)@);
    }
    if input[11] % 16 != 0 || input[12] != 0 || input[13] != 0 || input[14] != 0 || input[15]
        != 0 || input[16] != 0 || input[17] != 0 {
        warns.push(Warning::EstablishedTimingsIiiReservedBits);
    }
    Ok(DisplayDescriptor::EstablishedTimingsIII {
        _640x350_85hz: bit(input[6], 7),
        _640x400_85hz: bit(input[6], 6),
        _720x400_85hz: bit(input[6], 5),
        _640x480_85hz: bit(input[6], 4),
        _848x480_60hz: bit(input[6], 3),
        _800x600_85hz: bit(input[6], 2),
        _1024x768_85hz: bit(input[6], 1),
        _1152x864_75hz: bit(input[6], 0),
        _1280x768_60hz_reduced: bit(input[7], 7),
        _1280x768_60hz: bit(input[7], 6),
        _1280x768_75hz: bit(input[7], 5),
        _1280x768_85hz: bit(input[7], 4),
        _1280x960_60hz: bit(input[7], 3),
        _1280x960_85hz: bit(input[7], 2),
        _1280x1024_60hz: bit(input[7], 1),
        _1280x1024_85hz: bit(input[7], 0),
        _1360x768_60hz: bit(input[8], 7),
        _1440x900_60hz_reduced: bit(input[8], 6),
        _1440x900_60hz: bit(input[8], 5),
        _1440x900_75hz: bit(input[8], 4),
        _1440x900_85hz: bit(input[8], 3),
        _1400x1050_60hz_reduced: bit(input[8], 2),
        _1400x1050_60hz: bit(input[8], 1),
        _1400x1050_75hz: bit(input[8], 0),
        _1400x1050_85hz: bit(input[9], 7),
        _1680x1050_60hz_reduced: bit(input[9], 6),
        _1680x1050_60hz: bit(input[9], 5),
        _1680x1050_75hz: bit(input[9], 4),
        _1680x1050_85hz: bit(input[9], 3),
        _1600x1200_60hz: bit(input[9], 2),
        _1600x1200_65hz: bit(input[9], 1),
        _1600x1200_70hz: bit(input[9], 0),
        _1600x1200_75hz: bit(input[10], 7),
        _1600x1200_85hz: bit(input[10], 6),
        _1792x1344_60hz: bit(input[10], 5),
        _1792x1344_75hz: bit(input[10], 4),
        _1856x1392_60hz: bit(input[10], 3),
        _1856x1392_75hz: bit(input[10], 2),
        _1920x1200_60hz_reduced: bit(input[10], 1),
        _1920x1200_60hz: bit(input[10], 0),
        _1920x1200_75hz: bit(input[11], 7),
        _1920x1200_85hz: bit(input[11], 6),
        _1920x1440_60hz: bit(input[11], 5),
        _1920x1440_75hz: bit(input[11], 4),
    })
}

} // verus!
