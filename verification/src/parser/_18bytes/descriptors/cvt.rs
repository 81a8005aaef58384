//! Coordinated Video Timings descriptors (tag `0xF8`): up to four
//! 3-byte timing codes.

use crate::error::{EdidError, Warning};
use crate::parser::bitfield::{bit, spec_bit};
use crate::structures::desc::cvt_3_byte_timing::{
    CvtAspectRatio, CvtPreferredVerticalRate, SupportedVRates, TimingCodeDesc,
};
use crate::structures::desc::DisplayDescriptor;
use vstd::prelude::*;

verus! {

/// One 3-byte timing code; an all-zero triplet is an unused slot.
pub open spec fn spec_cvt_one(b0: u8, b1: u8, b2: u8) -> Option<TimingCodeDesc> {
    if b0 == 0 && b1 == 0 && b2 == 0 {
        None
    } else {
        Some(
            TimingCodeDesc {
                addressable_lines: ((b1 / 16) * 256 + b0) as u16,
                aspect_ratio: if (b1 / 4) % 4 == 0 {
                    CvtAspectRatio::_4x3
                } else if (b1 / 4) % 4 == 1 {
                    CvtAspectRatio::_16x9
                } else if (b1 / 4) % 4 == 2 {
                    CvtAspectRatio::_16x10
                } else {
                    CvtAspectRatio::_15x9
                },
                preferred_vertical_rate: if (b2 / 32) % 4 == 0 {
                    CvtPreferredVerticalRate::_50Hz
                } else if (b2 / 32) % 4 == 1 {
                    CvtPreferredVerticalRate::_60Hz
                } else if (b2 / 32) % 4 == 2 {
                    CvtPreferredVerticalRate::_75Hz
                } else {
                    CvtPreferredVerticalRate::_85Hz
                },
                supported_vertical_rates: SupportedVRates {
                    _50_hz_standard: spec_bit(b2, 4),
                    _60_hz_standard: spec_bit(b2, 3),
                    _75_hz_standard: spec_bit(b2, 2),
                    _85_hz_standard: spec_bit(b2, 1),
                    _60_hz_reduced: spec_bit(b2, 0),
                },
            },
        )
    }
}

/// The warnings one 3-byte timing code draws: one per reserved bit
/// region in use (the low bits of the middle byte, the top bit of the
/// last byte), none for an unused slot.
pub open spec fn spec_cvt_one_warnings(b0: u8, b1: u8, b2: u8) -> Seq<Warning> {
    if b0 == 0 && b1 == 0 && b2 == 0 {
        Seq::empty()
    } else {
        (if b1 % 4 != 0 {
            seq![Warning::CvtReservedBits]
        } else {
            Seq::empty()
        }) + (if spec_bit(b2, 7) {
            seq![Warning::CvtReservedBits]
        } else {
            Seq::empty()
        })
    }
}

/// Decodes one 3-byte timing code, appending exactly its warnings.
pub fn one(b0: u8, b1: u8, b2: u8, warns: &mut Vec<Warning>) -> (r: Option<TimingCodeDesc>)
    ensures
        r == spec_cvt_one(b0, b1, b2),
        final(warns)@ == old(warns)@ + spec_cvt_one_warnings(b0, b1, b2),
{
    proof {
        let e = Seq::<Warning>::empty();
        let c = seq![Warning::CvtReservedBits];
        crate::parser::lemma_concat_empty::<Warning>(old(warns)@);
        crate::parser::lemma_concat_one(old(warns)@, Warning::CvtReservedBits);
        crate::parser::lemma_concat_one(
            old(warns)@.push(Warning::CvtReservedBits),
            Warning::CvtReservedBits,
        );
        assert(c + c =~= seq![Warning::CvtReservedBits, Warning::CvtReservedBits]);
        assert(old(warns)@ + (c + c) =~= old(warns)@.push(Warning::CvtReservedBits).push(
            Warning::CvtReservedBits,
        ));
        assert(c + e =~= c);
        assert(e + c =~= c);
        assert(e + e =~= e);
    }
    if b0 == 0 && b1 == 0 && b2 == 0 {
        return None;
    }
    let addressable_lines: u16 = ((b1 / 16) as u16) * 256 + b0 as u16;
    let aspect_ratio = match (b1 / 4) % 4 {
        0 => CvtAspectRatio::_4x3,
        1 => CvtAspectRatio::_16x9,
        2 => CvtAspectRatio::_16x10,
        _ => CvtAspectRatio::_15x9,
    };
    if b1 % 4 != 0 {
        warns.push(Warning::CvtReservedBits);
    }
    if bit(b2, 7) {
        warns.push(Warning::CvtReservedBits);
    }
    let preferred_vertical_rate = match (b2 / 32) % 4 {
        0 => CvtPreferredVerticalRate::_50Hz,
        1 => CvtPreferredVerticalRate::_60Hz,
        2 => CvtPreferredVerticalRate::_75Hz,
        _ => CvtPreferredVerticalRate::_85Hz,
    };
    let supported_vertical_rates = SupportedVRates {
        _50_hz_standard: bit(b2, 4),
        _60_hz_standard: bit(b2, 3),
        _75_hz_standard: bit(b2, 2),
        _85_hz_standard: bit(b2, 1),
        _60_hz_reduced: bit(b2, 0),
    };
    Some(TimingCodeDesc {
        addressable_lines,
        aspect_ratio,
        preferred_vertical_rate,
        supported_vertical_rates,
    })
}

/// Whether the descriptor decodes: the first code slot must be used.
pub open spec fn spec_cvt_ok(w: Seq<u8>) -> bool
    recommends
        w.len() == 18,
{
    spec_cvt_one(w[6], w[7], w[8]) is Some
}

/// The decoded CVT descriptor.
pub open spec fn spec_cvt(w: Seq<u8>) -> DisplayDescriptor
    recommends
        w.len() == 18,
        spec_cvt_ok(w),
{
    DisplayDescriptor::Cvt3ByteTimingCodes {
        version_number: w[5],
        first: spec_cvt_one(w[6], w[7], w[8])->Some_0,
        second: spec_cvt_one(w[9], w[10], w[11]),
        third: spec_cvt_one(w[12], w[13], w[14]),
        last: spec_cvt_one(w[15], w[16], w[17]),
    }
}

/// The warnings of a CVT descriptor: the reserved version first, then
/// each code's, in slot order; decoding stops after the first slot
/// when it is unused.
pub open spec fn spec_cvt_warnings(w: Seq<u8>) -> Seq<Warning>
    recommends
        w.len() == 18,
{
    (if w[5] != 0x01 {
        seq![Warning::CvtReservedVersion]
    } else {
        Seq::empty()
    }) + spec_cvt_one_warnings(w[6], w[7], w[8]) + (if spec_cvt_ok(w) {
        spec_cvt_one_warnings(w[9], w[10], w[11]) + spec_cvt_one_warnings(w[12], w[13], w[14])
            + spec_cvt_one_warnings(w[15], w[16], w[17])
    } else {
        Seq::empty()
    })
}

/// Decodes a CVT descriptor. A missing first code is a hard error; a
/// version other than `0x01` is reserved and draws a warning.
pub fn parse(input: &[u8], warns: &mut Vec<Warning>) -> (r: Result<
    DisplayDescriptor,
    EdidError,
>)
    requires
        input@.len() == 18,
    ensures
        spec_cvt_ok(input@) <==> r is Ok,
        match r {
            Ok(d) => d == spec_cvt(input@),
            Err(e) => e == EdidError::DescriptorNoFirstCvt,
        },
        final(warns)@ == old(warns)@ + spec_cvt_warnings(input@),
{
    let ghost w0 = warns@;
    let ghost vw = if input@[5] != 0x01 {
        seq![Warning::CvtReservedVersion]
    } else {
        Seq::<Warning>::empty()
    };
    let ghost c1 = spec_cvt_one_warnings(input@[6], input@[7], input@[8]);
    let ghost c2 = spec_cvt_one_warnings(input@[9], input@[10], input@[11]);
    let ghost c3 = spec_cvt_one_warnings(input@[12], input@[13], input@[14]);
    let version_number = input[5];
    if version_number != 0x01 {
        warns.push(Warning::CvtReservedVersion);
        proof {
            crate::parser::lemma_concat_one(w0, Warning::CvtReservedVersion);
        }
    } else {
        proof {
            crate::parser::lemma_concat_empty::<Warning>(w0);
        }
    }
    let first = match one(input[6], input[7], input[8], warns) {
        Some(f) => f,
        None => {
            proof {
                crate::parser::lemma_concat_assoc(w0, vw, c1);
                crate::parser::lemma_concat_empty::<Warning>(vw + c1);
            }
            return Err(EdidError::DescriptorNoFirstCvt);
        },
    };
    proof {
        crate::parser::lemma_concat_assoc(w0, vw, c1);
    }
    let second = one(input[9], input[10], input[11], warns);
    proof {
        crate::parser::lemma_concat_assoc(w0, vw + c1, c2);
    }
    let third = one(input[12], input[13], input[14], warns);
    proof {
        crate::parser::lemma_concat_assoc(w0, vw + c1 + c2, c3);
    }
    let last = one(input[15], input[16], input[17], warns);
    proof {
        crate::parser::lemma_concat_assoc(
            w0,
            vw + c1 + c2 + c3,
            spec_cvt_one_warnings(input@[15], input@[16], input@[17]),
        );
        crate::parser::lemma_concat_assoc(vw + c1, c2, c3);
        crate::parser::lemma_concat_assoc(
            vw + c1,
            c2 + c3,
            spec_cvt_one_warnings(input@[15], input@[16], input@[17]),
        );
        crate::parser::lemma_concat_assoc(
            w0,
            vw + c1,
            c2 + c3 + spec_cvt_one_warnings(input@[15], input@[16], input@[17]),
        );
    }
    Ok(DisplayDescriptor::Cvt3ByteTimingCodes { version_number, first, second, third, last })
}

} // verus!
