//! Standard timings: the eight two-byte slots at `0x26`..=`0x35`.

use crate::error::Warning;
use crate::structures::std_timings::{STiming, StandardAspectRatio, StandardTimings};
use vstd::prelude::*;

verus! {

/// The aspect ratio selected by the top two bits of the second byte.
pub open spec fn spec_st_aspect_ratio(b1: u8) -> StandardAspectRatio {
    if b1 / 64 == 0 {
        StandardAspectRatio::_16_10
    } else if b1 / 64 == 1 {
        StandardAspectRatio::_4_3
    } else if b1 / 64 == 2 {
        StandardAspectRatio::_5_4
    } else {
        StandardAspectRatio::_16_9
    }
}

/// One standard timing slot. The pair `[0x01, 0x01]` encodes an unused
/// slot, as does the non-conformant `[0x01, 0x00]`; a first byte of
/// `0x00` is invalid and also yields no timing.
pub open spec fn spec_st_one(b0: u8, b1: u8) -> Option<STiming> {
    if b0 == 0x01 && (b1 == 0x01 || b1 == 0x00) {
        None
    } else if b0 == 0x00 {
        None
    } else {
        Some(
            STiming {
                horizontal_addr_pixel_ct: ((b0 + 31) * 8) as u16,
                aspect_ratio: spec_st_aspect_ratio(b1),
                field_refresh_rate: (b1 % 64 + 60) as u8,
            },
        )
    }
}

/// The warnings one standard timing slot draws: one for the
/// non-conformant `[0x01, 0x00]` sentinel, one for a zero pixel-count
/// byte, none otherwise.
pub open spec fn spec_st_warnings(b0: u8, b1: u8) -> Seq<Warning> {
    if b0 == 0x01 && b1 == 0x00 {
        seq![Warning::NonConformantStandardTimingSentinel]
    } else if !(b0 == 0x01 && b1 == 0x01) && b0 == 0x00 {
        seq![Warning::StandardTimingZeroPixelCount]
    } else {
        Seq::empty()
    }
}

/// Decodes one standard timing slot from its two bytes, appending
/// exactly the slot's warnings.
pub fn one(bytes: &[u8], warns: &mut Vec<Warning>) -> (r: Option<STiming>)
    requires
        bytes@.len() >= 2,
    ensures
        r == spec_st_one(bytes@[0], bytes@[1]),
        final(warns)@ == old(warns)@ + spec_st_warnings(bytes@[0], bytes@[1]),
{
    proof {
        assert(old(warns)@ + Seq::<Warning>::empty() =~= old(warns)@);
        assert(old(warns)@ + seq![Warning::NonConformantStandardTimingSentinel] =~= old(
            warns,
        )@.push(Warning::NonConformantStandardTimingSentinel));
        assert(old(warns)@ + seq![Warning::StandardTimingZeroPixelCount] =~= old(
            warns,
        )@.push(Warning::StandardTimingZeroPixelCount));
    }
    // both bytes 1: the slot is unused
    if bytes[0] == 0x01 && bytes[1] == 0x01 {
        return None;
    }
    // the non-conformant way of marking a slot unused
    if bytes[0] == 0x01 && bytes[1] == 0x00 {
        warns.push(Warning::NonConformantStandardTimingSentinel);
        return None;
    }
    let horizontal_addr_pixel_ct = match hoz_addr_pixels(bytes[0]) {
        Some(h) => h,
        None => {
            warns.push(Warning::StandardTimingZeroPixelCount);
            return None;
        },
    };
    let b1 = bytes[1];
    let aspect_ratio = match b1 / 64 {
        0 => StandardAspectRatio::_16_10,
        1 => StandardAspectRatio::_4_3,
        2 => StandardAspectRatio::_5_4,
        _ => StandardAspectRatio::_16_9,
    };
    let field_refresh_rate = b1 % 64 + 60;
    Some(STiming { horizontal_addr_pixel_ct, aspect_ratio, field_refresh_rate })
}

/// The horizontal addressable pixel count: `(raw + 31) * 8`, where the
/// raw byte `0x00` is invalid.
pub fn hoz_addr_pixels(ct: u8) -> (r: Option<u16>)
    ensures
        ct == 0 ==> r is None,
        ct != 0 ==> r == Some((((ct + 31) * 8) as u16)),
{
    if ct == 0x00 {
        return None;
    }
    Some((ct as u16 + 31) * 8)
}

/// All eight standard timing slots.
pub open spec fn spec_std_timings(s: Seq<u8>) -> StandardTimings
    recommends
        s.len() >= 0x36,
{
    StandardTimings {
        st1: spec_st_one(s[0x26], s[0x27]),
        st2: spec_st_one(s[0x28], s[0x29]),
        st3: spec_st_one(s[0x2A], s[0x2B]),
        st4: spec_st_one(s[0x2C], s[0x2D]),
        st5: spec_st_one(s[0x2E], s[0x2F]),
        st6: spec_st_one(s[0x30], s[0x31]),
        st7: spec_st_one(s[0x32], s[0x33]),
        st8: spec_st_one(s[0x34], s[0x35]),
    }
}

/// The warnings of all eight standard timing slots, in slot order.
pub open spec fn spec_std_warnings(s: Seq<u8>) -> Seq<Warning>
    recommends
        s.len() >= 0x36,
{
    spec_st_warnings(s[0x26], s[0x27]) + spec_st_warnings(s[0x28], s[0x29]) + spec_st_warnings(
        s[0x2A],
        s[0x2B],
    ) + spec_st_warnings(s[0x2C], s[0x2D]) + spec_st_warnings(s[0x2E], s[0x2F])
        + spec_st_warnings(s[0x30], s[0x31]) + spec_st_warnings(s[0x32], s[0x33])
        + spec_st_warnings(s[0x34], s[0x35])
}

/// Decodes the eight standard timing slots, appending exactly their
/// warnings in slot order.
pub fn parse(input: &[u8], warns: &mut Vec<Warning>) -> (r: StandardTimings)
    requires
        input@.len() >= 0x36,
    ensures
        r == spec_std_timings(input@),
        final(warns)@ == old(warns)@ + spec_std_warnings(input@),
{
    let ghost w0 = warns@;
    let ghost a1 = spec_st_warnings(input@[0x26], input@[0x27]);
    let ghost a2 = spec_st_warnings(input@[0x28], input@[0x29]);
    let ghost a3 = spec_st_warnings(input@[0x2A], input@[0x2B]);
    let ghost a4 = spec_st_warnings(input@[0x2C], input@[0x2D]);
    let ghost a5 = spec_st_warnings(input@[0x2E], input@[0x2F]);
    let ghost a6 = spec_st_warnings(input@[0x30], input@[0x31]);
    let ghost a7 = spec_st_warnings(input@[0x32], input@[0x33]);
    let ghost a8 = spec_st_warnings(input@[0x34], input@[0x35]);
    let st1 = one(&input[0x26..0x28], warns);
    let st2 = one(&input[0x28..0x2A], warns);
    proof {
        crate::parser::lemma_concat_assoc(w0, a1, a2);
    }
    let st3 = one(&input[0x2A..0x2C], warns);
    proof {
        crate::parser::lemma_concat_assoc(w0, a1 + a2, a3);
    }
    let st4 = one(&input[0x2C..0x2E], warns);
    proof {
        crate::parser::lemma_concat_assoc(w0, a1 + a2 + a3, a4);
    }
    let st5 = one(&input[0x2E..0x30], warns);
    proof {
        crate::parser::lemma_concat_assoc(w0, a1 + a2 + a3 + a4, a5);
    }
    let st6 = one(&input[0x30..0x32], warns);
    proof {
        crate::parser::lemma_concat_assoc(w0, a1 + a2 + a3 + a4 + a5, a6);
    }
    let st7 = one(&input[0x32..0x34], warns);
    proof {
        crate::parser::lemma_concat_assoc(w0, a1 + a2 + a3 + a4 + a5 + a6, a7);
    }
    let st8 = one(&input[0x34..0x36], warns);
    proof {
        crate::parser::lemma_concat_assoc(w0, a1 + a2 + a3 + a4 + a5 + a6 + a7, a8);
    }
    StandardTimings { st1, st2, st3, st4, st5, st6, st7, st8 }
}

} // verus!
