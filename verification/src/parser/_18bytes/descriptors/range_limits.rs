//! Display range limits descriptors (tag `0xFD`).

use crate::error::{EdidError, Warning};
use crate::parser::bitfield::{bit, spec_bit};
use crate::structures::desc::display_range_limits::{
    HorizontalOffset, Offsets, PreferredAspectRatio, RangeLimits, RangeLimitsDesc,
    SupportedAspectRatios, VerticalOffset,
};
use vstd::prelude::*;

verus! {

/// Whether a byte is valid packed binary-coded decimal: both nibbles
/// at most 9.
pub open spec fn spec_bcd_ok(b: u8) -> bool {
    b / 16 <= 9 && b % 16 <= 9
}

/// The decimal value of a packed BCD byte.
pub open spec fn spec_bcd(b: u8) -> u16
    recommends
        spec_bcd_ok(b),
{
    ((b / 16) * 10 + b % 16) as u16
}

/// Converts one packed BCD byte into its decimal value.
pub fn from_bcd(input: u8) -> (r: Result<u16, EdidError>)
    ensures
        spec_bcd_ok(input) <==> r is Ok,
        match r {
            Ok(v) => v == spec_bcd(input),
            Err(e) => e == EdidError::BcdError,
        },
{
    let hi = input / 16;
    let lo = input % 16;
    if hi > 9 || lo > 9 {
        return Err(EdidError::BcdError);
    }
    Ok((hi * 10 + lo) as u16)
}

/// Whether the offset byte decodes: bits 7..=4 are reserved, and the
/// 2-bit sub-code 1 ("minimum offset without maximum") is reserved in
/// each direction.
pub open spec fn spec_offsets_ok(b: u8) -> bool {
    b / 16 == 0 && (b / 4) % 4 != 1 && b % 4 != 1
}

/// The decoded offset scheme.
pub open spec fn spec_offsets(b: u8) -> Offsets
    recommends
        spec_offsets_ok(b),
{
    Offsets {
        horizontal: if (b / 4) % 4 == 0 {
            HorizontalOffset::Zero
        } else if (b / 4) % 4 == 2 {
            HorizontalOffset::Max255kHz_MinNotOffset
        } else {
            HorizontalOffset::Max255kHz_Min255kHz
        },
        vertical: if b % 4 == 0 {
            VerticalOffset::Zero
        } else if b % 4 == 2 {
            VerticalOffset::Max255Hz_MinNotOffset
        } else {
            VerticalOffset::Max255Hz_Min255Hz
        },
    }
}

/// Decodes the offset byte.
pub fn limit_offsets(byte: u8) -> (r: Result<Offsets, EdidError>)
    ensures
        spec_offsets_ok(byte) <==> r is Ok,
        match r {
            Ok(o) => o == spec_offsets(byte),
            Err(e) => e == EdidError::DescriptorRangeLimitsUsedReservedBits { input: byte },
        },
{
    if byte / 16 != 0 {
        return Err(EdidError::DescriptorRangeLimitsUsedReservedBits { input: byte });
    }
    let horizontal = match (byte / 4) % 4 {
        0 => HorizontalOffset::Zero,
        2 => HorizontalOffset::Max255kHz_MinNotOffset,
        3 => HorizontalOffset::Max255kHz_Min255kHz,
        _ => {
            return Err(EdidError::DescriptorRangeLimitsUsedReservedBits { input: byte });
        },
    };
    let vertical = match byte % 4 {
        0 => VerticalOffset::Zero,
        2 => VerticalOffset::Max255Hz_MinNotOffset,
        3 => VerticalOffset::Max255Hz_Min255Hz,
        _ => {
            return Err(EdidError::DescriptorRangeLimitsUsedReservedBits { input: byte });
        },
    };
    Ok(Offsets { horizontal, vertical })
}

/// Whether the shared range limits decode without a hard error.
pub open spec fn spec_limits_ok(w: Seq<u8>) -> bool
    recommends
        w.len() == 18,
{
    &&& spec_offsets_ok(w[4])
    &&& spec_bcd_ok(w[5])
    &&& spec_bcd_ok(w[6])
    &&& spec_bcd_ok(w[7])
    &&& spec_bcd_ok(w[8])
    &&& spec_bcd_ok(w[9])
}

/// The error of the shared range limits: a reserved offset byte first,
/// a bad BCD byte after.
pub open spec fn spec_limits_err(w: Seq<u8>) -> EdidError
    recommends
        w.len() == 18,
        !spec_limits_ok(w),
{
    if !spec_offsets_ok(w[4]) {
        EdidError::DescriptorRangeLimitsUsedReservedBits { input: w[4] }
    } else {
        EdidError::BcdError
    }
}

/// The decoded shared range limits: BCD rates from bytes 5..=8, each
/// raised by 255 where its offset applies, and the BCD pixel clock of
/// byte 9 times ten.
pub open spec fn spec_limits(w: Seq<u8>) -> RangeLimits
    recommends
        w.len() == 18,
        spec_limits_ok(w),
{
    let off = spec_offsets(w[4]);
    RangeLimits {
        min_v_rate_hz: (spec_bcd(w[5]) + if off.vertical == VerticalOffset::Max255Hz_Min255Hz {
            255int
        } else {
            0
        }) as u16,
        max_v_rate_hz: (spec_bcd(w[6]) + if off.vertical != VerticalOffset::Zero {
            255int
        } else {
            0
        }) as u16,
        min_h_rate_khz: (spec_bcd(w[7]) + if off.horizontal
            == HorizontalOffset::Max255kHz_Min255kHz {
            255int
        } else {
            0
        }) as u16,
        max_h_rate_khz: (spec_bcd(w[8]) + if off.horizontal != HorizontalOffset::Zero {
            255int
        } else {
            0
        }) as u16,
        offsets: off,
        max_pixel_clock_mhz: (spec_bcd(w[9]) * 10) as u16,
    }
}

/// The warning one rate byte draws: one when its decimal value is
/// zero, none otherwise.
pub open spec fn spec_rate_warning(b: u8) -> Seq<Warning>
    recommends
        spec_bcd_ok(b),
{
    if spec_bcd(b) == 0 {
        seq![Warning::RangeLimitsRateZero]
    } else {
        Seq::empty()
    }
}

/// The warnings of the shared range limits: one per zero rate byte, in
/// byte order, cut off at the first hard error.
pub open spec fn spec_limits_warnings(w: Seq<u8>) -> Seq<Warning>
    recommends
        w.len() == 18,
{
    if !spec_offsets_ok(w[4]) || !spec_bcd_ok(w[5]) {
        Seq::empty()
    } else if !spec_bcd_ok(w[6]) {
        spec_rate_warning(w[5])
    } else if !spec_bcd_ok(w[7]) {
        spec_rate_warning(w[5]) + spec_rate_warning(w[6])
    } else if !spec_bcd_ok(w[8]) {
        spec_rate_warning(w[5]) + spec_rate_warning(w[6]) + spec_rate_warning(w[7])
    } else {
        spec_rate_warning(w[5]) + spec_rate_warning(w[6]) + spec_rate_warning(w[7])
            + spec_rate_warning(w[8])
    }
}

/// Decodes the shared range limits. A rate byte of zero is
/// non-conformant and draws a warning.
pub fn just_limits(input: &[u8], warns: &mut Vec<Warning>) -> (r: Result<
    RangeLimits,
    EdidError,
>)
    requires
        input@.len() == 18,
    ensures
        spec_limits_ok(input@) <==> r is Ok,
        match r {
            Ok(l) => l == spec_limits(input@) && l.max_pixel_clock_mhz <= 990,
            Err(e) => e == spec_limits_err(input@),
        },
        final(warns)@ == old(warns)@ + spec_limits_warnings(input@),
{
    let ghost w0 = warns@;
    let ghost z5 = spec_rate_warning(input@[5]);
    let ghost z6 = spec_rate_warning(input@[6]);
    let ghost z7 = spec_rate_warning(input@[7]);
    proof {
        crate::parser::lemma_concat_empty::<Warning>(w0);
    }
    let offsets = match limit_offsets(input[4]) {
        Ok(o) => o,
        Err(e) => {
            return Err(e);
        },
    };

    let raw_min_v = match from_bcd(input[5]) {
        Ok(v) => v,
        Err(e) => {
            return Err(e);
        },
    };
    if raw_min_v == 0 {
        warns.push(Warning::RangeLimitsRateZero);
        proof {
            crate::parser::lemma_concat_one(w0, Warning::RangeLimitsRateZero);
        }
    }
    let raw_max_v = match from_bcd(input[6]) {
        Ok(v) => v,
        Err(e) => {
            return Err(e);
        },
    };
    if raw_max_v == 0 {
        warns.push(Warning::RangeLimitsRateZero);
        proof {
            crate::parser::lemma_concat_one(w0 + z5, Warning::RangeLimitsRateZero);
        }
    } else {
        proof {
            crate::parser::lemma_concat_empty::<Warning>(w0 + z5);
        }
    }
    proof {
        crate::parser::lemma_concat_assoc(w0, z5, z6);
    }
    let raw_min_h = match from_bcd(input[7]) {
        Ok(v) => v,
        Err(e) => {
            return Err(e);
        },
    };
    if raw_min_h == 0 {
        warns.push(Warning::RangeLimitsRateZero);
        proof {
            crate::parser::lemma_concat_one(w0 + (z5 + z6), Warning::RangeLimitsRateZero);
        }
    } else {
        proof {
            crate::parser::lemma_concat_empty::<Warning>(w0 + (z5 + z6));
        }
    }
    proof {
        crate::parser::lemma_concat_assoc(w0, z5 + z6, z7);
    }
    let raw_max_h = match from_bcd(input[8]) {
        Ok(v) => v,
        Err(e) => {
            return Err(e);
        },
    };
    if raw_max_h == 0 {
        warns.push(Warning::RangeLimitsRateZero);
        proof {
            crate::parser::lemma_concat_one(w0 + (z5 + z6 + z7), Warning::RangeLimitsRateZero);
        }
    } else {
        proof {
            crate::parser::lemma_concat_empty::<Warning>(w0 + (z5 + z6 + z7));
        }
    }
    proof {
        crate::parser::lemma_concat_assoc(w0, z5 + z6 + z7, spec_rate_warning(input@[8]));
    }
    let raw_clock = match from_bcd(input[9]) {
        Ok(v) => v,
        Err(e) => {
            return Err(e);
        },
    };

    let min_v_rate_hz = if offsets.vertical.has_min() {
        raw_min_v + 255
    } else {
        raw_min_v
    };
    let max_v_rate_hz = if offsets.vertical.has_max() {
        raw_max_v + 255
    } else {
        raw_max_v
    };
    let min_h_rate_khz = if offsets.horizontal.has_min() {
        raw_min_h + 255
    } else {
        raw_min_h
    };
    let max_h_rate_khz = if offsets.horizontal.has_max() {
        raw_max_h + 255
    } else {
        raw_max_h
    };

    Ok(RangeLimits {
        min_v_rate_hz,
        max_v_rate_hz,
        min_h_rate_khz,
        max_h_rate_khz,
        offsets,
        max_pixel_clock_mhz: raw_clock * 10,
    })
}

/// A GTF secondary curve block: the shared limits plus five raw
/// coefficient fields.
pub open spec fn spec_gtf_secondary(w: Seq<u8>, limits: RangeLimits) -> RangeLimitsDesc
    recommends
        w.len() == 18,
{
    RangeLimitsDesc::GtfSecondaryCurveSupported {
        limits,
        start_break_freq: (w[12] * 2) as u16,
        c2: w[13],
        m: (w[14] + 256 * w[15]) as u16,
        k: w[16],
        j2: w[17],
    }
}

/// The warning a GTF secondary curve block draws: one when its
/// reserved byte 11 is non-zero, none otherwise.
pub open spec fn spec_gtf_secondary_warnings(w: Seq<u8>) -> Seq<Warning>
    recommends
        w.len() == 18,
{
    if w[11] != 0 {
        seq![Warning::GtfSecondaryReservedByte]
    } else {
        Seq::empty()
    }
}

/// Decodes a GTF secondary curve block. A non-zero reserved byte 11
/// draws a warning.
pub fn gtf_secondary_curve(limits: RangeLimits, input: &[u8], warns: &mut Vec<Warning>) -> (r:
    RangeLimitsDesc)
    requires
        input@.len() == 18,
    ensures
        r == spec_gtf_secondary(input@, limits),
        final(warns)@ == old(warns)@ + spec_gtf_secondary_warnings(input@),
{
    proof {
        crate::parser::lemma_concat_one(old(warns)@, Warning::GtfSecondaryReservedByte);
        crate::parser::lemma_concat_empty::<Warning>(old(warns)@);
    }
    if input[11] != 0x00 {
        warns.push(Warning::GtfSecondaryReservedByte);
    }
    let start_break_freq = input[12] as u16 * 2;
    let c2 = input[13];
    let m: u16 = input[14] as u16 + 256 * (input[15] as u16);
    let k = input[16];
    let j2 = input[17];
    RangeLimitsDesc::GtfSecondaryCurveSupported { limits, start_break_freq, c2, m, k, j2 }
}

/// Whether the CVT part decodes: the 3-bit preferred-aspect-ratio code
/// allows only five values.
pub open spec fn spec_cvt_rl_ok(w: Seq<u8>) -> bool
    recommends
        w.len() == 18,
{
    w[15] / 32 <= 4
}

/// The CVT part of a range limits descriptor.
pub open spec fn spec_cvt_supported(w: Seq<u8>, limits: RangeLimits) -> RangeLimitsDesc
    recommends
        w.len() == 18,
        spec_cvt_rl_ok(w),
        limits.max_pixel_clock_mhz <= 990,
{
    RangeLimitsDesc::CvtSupported {
        limits,
        enhanced_px_clk_quarter_mhz: (limits.max_pixel_clock_mhz * 4 - w[12] / 4) as i32,
        cvt_version: w[11],
        maximum_active_pxls_per_line: if w[13] == 0 {
            None
        } else {
            Some((((w[12] % 4) * 256 + w[13]) * 8) as u16)
        },
        supported_aspect_ratios: SupportedAspectRatios {
            _4x3: spec_bit(w[14], 7),
            _16x9: spec_bit(w[14], 6),
            _16x10: spec_bit(w[14], 5),
            _5x4: spec_bit(w[14], 4),
            _15x9: spec_bit(w[14], 3),
        },
        preferred_aspect_ratio: if w[15] / 32 == 0 {
            PreferredAspectRatio::_4x3
        } else if w[15] / 32 == 1 {
            PreferredAspectRatio::_16x9
        } else if w[15] / 32 == 2 {
            PreferredAspectRatio::_16x10
        } else if w[15] / 32 == 3 {
            PreferredAspectRatio::_5x4
        } else {
            PreferredAspectRatio::_15x9
        },
        supports_standard_cvt_blanking: spec_bit(w[15], 3),
        supports_reduced_cvt_blanking: spec_bit(w[15], 4),
        supports_h_shrink_scaling: spec_bit(w[16], 7),
        supports_h_stretch_scaling: spec_bit(w[16], 6),
        supports_v_shrink_scaling: spec_bit(w[16], 5),
        supports_v_stretch_scaling: spec_bit(w[16], 4),
        preferred_v_refresh_rate_hz: w[17],
    }
}

/// The warning the CVT part draws, whether or not it then errors: one
/// when the reserved low bits of its aspect-ratio byte are set, none
/// otherwise.
pub open spec fn spec_cvt_rl_warnings(w: Seq<u8>) -> Seq<Warning>
    recommends
        w.len() == 18,
{
    if w[14] % 8 != 0 {
        seq![Warning::CvtReservedBits]
    } else {
        Seq::empty()
    }
}

/// Decodes the CVT part of a range limits descriptor. Reserved
/// aspect-ratio bits in use draw a warning (exactly when byte 14's
/// bits 2..=0 are set); a reserved preferred-aspect-ratio code is a
/// hard error.
pub fn cvt(limits: RangeLimits, input: &[u8], warns: &mut Vec<Warning>) -> (r: Result<
    RangeLimitsDesc,
    EdidError,
>)
    requires
        input@.len() == 18,
        limits.max_pixel_clock_mhz <= 990,
    ensures
        spec_cvt_rl_ok(input@) <==> r is Ok,
        match r {
            Ok(d) => d == spec_cvt_supported(input@, limits),
            Err(e) => e == EdidError::DescriptorRangeLimitsCvtReservedBits,
        },
        final(warns)@ == old(warns)@ + spec_cvt_rl_warnings(input@),
{
    proof {
        crate::parser::lemma_concat_one(old(warns)@, Warning::CvtReservedBits);
        crate::parser::lemma_concat_empty::<Warning>(old(warns)@);
    }
    let cvt_version = input[11];
    let enhanced_px_clk_quarter_mhz: i32 = (limits.max_pixel_clock_mhz as i32) * 4 - (input[12]
        / 4) as i32;

    let maximum_active_pxls_per_line = if input[13] == 0x00 {
        // byte 13 all zero: no limit on active pixels
        None
    } else {
        let combined: u16 = ((input[12] % 4) as u16) * 256 + input[13] as u16;
        Some(combined * 8)
    };

    if input[14] % 8 != 0 {
        warns.push(Warning::CvtReservedBits);
    }
    let supported_aspect_ratios = SupportedAspectRatios {
        _4x3: bit(input[14], 7),
        _16x9: bit(input[14], 6),
        _16x10: bit(input[14], 5),
        _5x4: bit(input[14], 4),
        _15x9: bit(input[14], 3),
    };

    let preferred_aspect_ratio = match input[15] / 32 {
        0 => PreferredAspectRatio::_4x3,
        1 => PreferredAspectRatio::_16x9,
        2 => PreferredAspectRatio::_16x10,
        3 => PreferredAspectRatio::_5x4,
        4 => PreferredAspectRatio::_15x9,
        _ => {
            return Err(EdidError::DescriptorRangeLimitsCvtReservedBits);
        },
    };

    let supports_standard_cvt_blanking = bit(input[15], 3);
    let supports_reduced_cvt_blanking = bit(input[15], 4);

    let supports_h_shrink_scaling = bit(input[16], 7);
    let supports_h_stretch_scaling = bit(input[16], 6);
    let supports_v_shrink_scaling = bit(input[16], 5);
    let supports_v_stretch_scaling = bit(input[16], 4);

    let preferred_v_refresh_rate_hz = input[17];

    Ok(RangeLimitsDesc::CvtSupported {
        limits,
        enhanced_px_clk_quarter_mhz,
        cvt_version,
        maximum_active_pxls_per_line,
        supported_aspect_ratios,
        preferred_aspect_ratio,
        supports_standard_cvt_blanking,
        supports_reduced_cvt_blanking,
        supports_h_shrink_scaling,
        supports_h_stretch_scaling,
        supports_v_shrink_scaling,
        supports_v_stretch_scaling,
        preferred_v_refresh_rate_hz,
    })
}

/// Whether the whole range limits descriptor decodes.
pub open spec fn spec_range_limits_ok(w: Seq<u8>) -> bool
    recommends
        w.len() == 18,
{
    &&& spec_limits_ok(w)
    &&& (w[10] == 0 || w[10] == 1 || w[10] == 2 || w[10] == 4)
    &&& (w[10] == 4 ==> spec_cvt_rl_ok(w))
}

/// The first hard error of a range limits descriptor.
pub open spec fn spec_range_limits_err(w: Seq<u8>) -> EdidError
    recommends
        w.len() == 18,
        !spec_range_limits_ok(w),
{
    if !spec_limits_ok(w) {
        spec_limits_err(w)
    } else if !(w[10] == 0 || w[10] == 1 || w[10] == 2 || w[10] == 4) {
        EdidError::DescriptorRangeLimitsUsedReservedVTSFlag { flag: w[10] }
    } else {
        EdidError::DescriptorRangeLimitsCvtReservedBits
    }
}

/// The decoded range limits descriptor; byte 10 selects the sub-kind,
/// and `cf` is the EDID's continuous-frequency feature bit.
pub open spec fn spec_range_limits(w: Seq<u8>, cf: bool) -> RangeLimitsDesc
    recommends
        w.len() == 18,
        spec_range_limits_ok(w),
{
    let limits = spec_limits(w);
    if w[10] == 0 {
        RangeLimitsDesc::GtfSupported { limits }
    } else if w[10] == 1 {
        RangeLimitsDesc::LimitsOnly { limits, flexible: cf }
    } else if w[10] == 2 {
        spec_gtf_secondary(w, limits)
    } else {
        spec_cvt_supported(w, limits)
    }
}

/// The continuous-frequency cross-check warning: a block that claims
/// GTF or CVT support while the feature bit is off draws one.
pub open spec fn spec_cf_warnings(cf: bool) -> Seq<Warning> {
    if !cf {
        seq![Warning::ContinuousFrequencyMismatch]
    } else {
        Seq::empty()
    }
}

/// All warnings of a range limits descriptor, whether or not it then
/// errors: the shared limits' first, then the sub-kind's.
pub open spec fn spec_range_limits_warnings(w: Seq<u8>, cf: bool) -> Seq<Warning>
    recommends
        w.len() == 18,
{
    spec_limits_warnings(w) + (if !spec_limits_ok(w) {
        Seq::empty()
    } else if w[10] == 0 {
        spec_cf_warnings(cf)
    } else if w[10] == 1 {
        Seq::empty()
    } else if w[10] == 2 {
        spec_cf_warnings(cf) + spec_gtf_secondary_warnings(w)
    } else if w[10] == 4 {
        spec_cf_warnings(cf) + spec_cvt_rl_warnings(w)
    } else {
        Seq::empty()
    })
}

/// Decodes a range limits descriptor. `edid` is the whole input: the
/// continuous-frequency feature bit is cross-checked, since every
/// GTF- or CVT-compliant display is continuous-frequency.
pub fn parse(input: &[u8], edid: &[u8], warns: &mut Vec<Warning>) -> (r: Result<
    RangeLimitsDesc,
    EdidError,
>)
    requires
        input@.len() == 18,
        edid@.len() >= 0x19,
    ensures
        spec_range_limits_ok(input@) <==> r is Ok,
        match r {
            Ok(d) => d == spec_range_limits(input@, spec_bit(edid@[0x18], 0)),
            Err(e) => e == spec_range_limits_err(input@),
        },
        final(warns)@ == old(warns)@ + spec_range_limits_warnings(
            input@,
            spec_bit(edid@[0x18], 0),
        ),
{
    let ghost w0 = warns@;
    let ghost jl = spec_limits_warnings(input@);
    let limits = match just_limits(input, warns) {
        Ok(l) => l,
        Err(e) => {
            proof {
                crate::parser::lemma_concat_empty::<Warning>(jl);
            }
            return Err(e);
        },
    };

    // every GTF- or CVT-compliant display is continuous-frequency
    let cf = bit(edid[0x18], 0);
    let ghost cfw = spec_cf_warnings(spec_bit(edid@[0x18], 0));

    match input[10] {
        0x00 => {
            if !cf {
                warns.push(Warning::ContinuousFrequencyMismatch);
                proof {
                    crate::parser::lemma_concat_one(
                        w0 + jl,
                        Warning::ContinuousFrequencyMismatch,
                    );
                }
            } else {
                proof {
                    crate::parser::lemma_concat_empty::<Warning>(w0 + jl);
                }
            }
            proof {
                crate::parser::lemma_concat_assoc(w0, jl, cfw);
            }
            Ok(RangeLimitsDesc::GtfSupported { limits })
        },
        0x01 => {
            proof {
                crate::parser::lemma_concat_empty::<Warning>(jl);
            }
            Ok(RangeLimitsDesc::LimitsOnly { limits, flexible: cf })
        },
        0x02 => {
            if !cf {
                warns.push(Warning::ContinuousFrequencyMismatch);
                proof {
                    crate::parser::lemma_concat_one(
                        w0 + jl,
                        Warning::ContinuousFrequencyMismatch,
                    );
                }
            } else {
                proof {
                    crate::parser::lemma_concat_empty::<Warning>(w0 + jl);
                }
            }
            let d = gtf_secondary_curve(limits, input, warns);
            proof {
                crate::parser::lemma_concat_assoc(w0, jl, cfw);
                crate::parser::lemma_concat_assoc(
                    w0 + jl,
                    cfw,
                    spec_gtf_secondary_warnings(input@),
                );
                crate::parser::lemma_concat_assoc(
                    w0,
                    jl,
                    cfw + spec_gtf_secondary_warnings(input@),
                );
            }
            Ok(d)
        },
        0x04 => {
            if !cf {
                warns.push(Warning::ContinuousFrequencyMismatch);
                proof {
                    crate::parser::lemma_concat_one(
                        w0 + jl,
                        Warning::ContinuousFrequencyMismatch,
                    );
                }
            } else {
                proof {
                    crate::parser::lemma_concat_empty::<Warning>(w0 + jl);
                }
            }
            let d = cvt(limits, input, warns);
            proof {
                crate::parser::lemma_concat_assoc(w0, jl, cfw);
                crate::parser::lemma_concat_assoc(w0 + jl, cfw, spec_cvt_rl_warnings(input@));
                crate::parser::lemma_concat_assoc(w0, jl, cfw + spec_cvt_rl_warnings(input@));
            }
            d
        },
        reserved => {
            proof {
                crate::parser::lemma_concat_empty::<Warning>(jl);
            }
            Err(EdidError::DescriptorRangeLimitsUsedReservedVTSFlag { flag: reserved })
        },
    }
}

} // verus!
