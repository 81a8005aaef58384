//! Basic display parameters: bytes `0x14`..=`0x18`.

use crate::error::{EdidError, Warning};
use crate::parser::bitfield::{bit, spec_bit};
use crate::ratio::{spec_ratio, Ratio};
use crate::structures::basic_info::{
    BasicDisplayInfo, ColorBitDepth, ColorEncodingFormats, ColorSupport, ColorType,
    FeatureSupport, PowerManagement, SignalLevelStandard, SizeOrRatio, SupportedVideoInterface,
    SyncTypes, VideoSetup, VideoSignalInterface,
};
use vstd::prelude::*;

verus! {

/// The color bit depth of a digital display, from bits 6..=4.
pub open spec fn spec_color_bit_depth(byte: u8) -> ColorBitDepth {
    let v = (byte / 16) % 8;
    if v == 0 {
        ColorBitDepth::Undefined
    } else if v == 1 {
        ColorBitDepth::D6Bits
    } else if v == 2 {
        ColorBitDepth::D8Bits
    } else if v == 3 {
        ColorBitDepth::D10Bits
    } else if v == 4 {
        ColorBitDepth::D12Bits
    } else if v == 5 {
        ColorBitDepth::D14Bits
    } else if v == 6 {
        ColorBitDepth::D16Bits
    } else {
        ColorBitDepth::Reserved
    }
}

/// Whether byte `0x14` decodes without a hard error: analog always
/// does; a digital interface code above the lookup table does not.
pub open spec fn spec_vsi_ok(byte: u8) -> bool {
    !spec_bit(byte, 7) || byte % 16 <= 5
}

/// The video signal interface of byte `0x14`.
pub open spec fn spec_vsi(byte: u8) -> VideoSignalInterface
    recommends
        spec_vsi_ok(byte),
{
    if spec_bit(byte, 7) {
        let code = byte % 16;
        VideoSignalInterface::Digital {
            color_bit_depth: spec_color_bit_depth(byte),
            supported_interface: if code == 0 {
                None
            } else if code == 1 {
                Some(SupportedVideoInterface::Dvi)
            } else if code == 2 {
                Some(SupportedVideoInterface::HdmiA)
            } else if code == 3 {
                Some(SupportedVideoInterface::HdmiB)
            } else if code == 4 {
                Some(SupportedVideoInterface::Mddi)
            } else {
                Some(SupportedVideoInterface::DisplayPort)
            },
        }
    } else {
        let sls = (byte / 32) % 4;
        VideoSignalInterface::Analog {
            signal_level_standard: if sls == 0 {
                SignalLevelStandard::_0700S_0300L_1000T
            } else if sls == 1 {
                SignalLevelStandard::_0714S_0286L_1000T
            } else if sls == 2 {
                SignalLevelStandard::_1000S_0400L_1400T
            } else {
                SignalLevelStandard::_0700S_0000L_0700T
            },
            video_setup: if spec_bit(byte, 4) {
                VideoSetup::B2BOrPedestal
            } else {
                VideoSetup::BlackLevel
            },
            sync_types: SyncTypes {
                separate_sync_h_and_v: spec_bit(byte, 3),
                composite_sync_horizontal: spec_bit(byte, 2),
                composite_sync_green_video: spec_bit(byte, 1),
            },
            serrations: spec_bit(byte, 0),
        }
    }
}

/// Decodes byte `0x14`. A reserved digital interface code is a
/// recoverable error, for forward compatibility with interface codes
/// not yet in the table.
pub fn video_input_definition(byte: u8) -> (r: Result<VideoSignalInterface, EdidError>)
    ensures
        spec_vsi_ok(byte) <==> r is Ok,
        match r {
            Ok(v) => v == spec_vsi(byte),
            Err(e) => e == EdidError::UnknownDigitalInterface(byte % 16),
        },
{
    // bit 7 selects digital over analog
    if bit(byte, 7) {
        let depth_code = (byte / 16) % 8;
        let color_bit_depth = match depth_code {
            0 => ColorBitDepth::Undefined,
            1 => ColorBitDepth::D6Bits,
            2 => ColorBitDepth::D8Bits,
            3 => ColorBitDepth::D10Bits,
            4 => ColorBitDepth::D12Bits,
            5 => ColorBitDepth::D14Bits,
            6 => ColorBitDepth::D16Bits,
            _ => ColorBitDepth::Reserved,
        };
        let code = byte % 16;
        let supported_interface = match code {
            0 => None,
            1 => Some(SupportedVideoInterface::Dvi),
            2 => Some(SupportedVideoInterface::HdmiA),
            3 => Some(SupportedVideoInterface::HdmiB),
            4 => Some(SupportedVideoInterface::Mddi),
            5 => Some(SupportedVideoInterface::DisplayPort),
            other => {
                return Err(EdidError::UnknownDigitalInterface(other));
            },
        };
        Ok(VideoSignalInterface::Digital { color_bit_depth, supported_interface })
    } else {
        let sls = (byte / 32) % 4;
        let signal_level_standard = match sls {
            0 => SignalLevelStandard::_0700S_0300L_1000T,
            1 => SignalLevelStandard::_0714S_0286L_1000T,
            2 => SignalLevelStandard::_1000S_0400L_1400T,
            _ => SignalLevelStandard::_0700S_0000L_0700T,
        };
        let video_setup = if bit(byte, 4) {
            VideoSetup::B2BOrPedestal
        } else {
            VideoSetup::BlackLevel
        };
        let sync_types = SyncTypes {
            separate_sync_h_and_v: bit(byte, 3),
            composite_sync_horizontal: bit(byte, 2),
            composite_sync_green_video: bit(byte, 1),
        };
        Ok(VideoSignalInterface::Analog {
            signal_level_standard,
            video_setup,
            sync_types,
            serrations: bit(byte, 0),
        })
    }
}

/// An aspect-ratio code as a reduced horizontal:vertical pair: six
/// named ratios, and `(100 + code) : 100` in lowest terms for the rest.
pub open spec fn spec_make_ratio(ar: u8) -> (u16, u16)
    recommends
        ar != 0,
{
    if ar == 0x4F {
        (16u16, 9u16)
    } else if ar == 0x3D {
        (16u16, 10u16)
    } else if ar == 0x22 {
        (4u16, 3u16)
    } else if ar == 0x1A {
        (5u16, 4u16)
    } else if ar == 0x05 {
        (3u16, 2u16)
    } else if ar == 134 {
        (21u16, 9u16)
    } else {
        let r = spec_ratio((100 + ar) as nat, 100);
        (r.numer as u16, r.denom as u16)
    }
}

/// Turns an aspect-ratio code into a reduced ratio pair. Pattern-match
/// the result as `(horizontal, vertical)` for landscape and
/// `(vertical, horizontal)` for portrait.
pub fn make_ratio(ar: u8) -> (r: Option<(u16, u16)>)
    requires
        ar != 0,
    ensures
        r == Some(spec_make_ratio(ar)),
{
    match ar {
        0x4F => Some((16, 9)),
        0x3D => Some((16, 10)),
        0x22 => Some((4, 3)),
        0x1A => Some((5, 4)),
        0x05 => Some((3, 2)),
        134 => Some((21, 9)),
        _ => {
            let reduced = Ratio::new(100 + ar as u32, 100);
            Some((reduced.numer as u16, reduced.denom as u16))
        },
    }
}

/// The screen size or aspect ratio of bytes `0x15` and `0x16`: both
/// zero means unreported, one zero makes the other an aspect-ratio
/// code, and two non-zero bytes are centimeter dimensions.
pub open spec fn spec_size_or_ratio(b15: u8, b16: u8) -> Option<SizeOrRatio> {
    if b15 == 0 && b16 == 0 {
        None
    } else if b16 == 0 {
        let r = spec_make_ratio(b15);
        Some(SizeOrRatio::AspectRatio { horizontal: r.0, vertical: r.1 })
    } else if b15 == 0 {
        let r = spec_make_ratio(b16);
        Some(SizeOrRatio::AspectRatio { horizontal: r.1, vertical: r.0 })
    } else {
        Some(SizeOrRatio::ScreenSize { vertical_cm: b16, horizontal_cm: b15 })
    }
}

/// The warning the size bytes draw: one when an aspect-ratio code is
/// the extreme `0xFF`, none otherwise.
pub open spec fn spec_size_warnings(b15: u8, b16: u8) -> Seq<Warning> {
    if (b16 == 0 && b15 == 0xFF) || (b15 == 0 && b16 == 0xFF) {
        seq![Warning::AspectRatioPrecisionLoss]
    } else {
        Seq::empty()
    }
}

/// Decodes the screen size or aspect ratio. A code of `0xFF` is valid
/// but draws a precision-loss warning, because the display's true
/// ratio may lie beyond the representable range.
pub fn size_or_ratio(input: &[u8], warns: &mut Vec<Warning>) -> (r: Option<SizeOrRatio>)
    requires
        input@.len() >= 0x17,
    ensures
        r == spec_size_or_ratio(input@[0x15], input@[0x16]),
        final(warns)@ == old(warns)@ + spec_size_warnings(input@[0x15], input@[0x16]),
{
    proof {
        crate::parser::lemma_concat_one(old(warns)@, Warning::AspectRatioPrecisionLoss);
        crate::parser::lemma_concat_empty::<Warning>(old(warns)@);
    }
    let b15 = input[0x15];
    let b16 = input[0x16];
    if b15 == 0 && b16 == 0 {
        // the screen size is not given, or is dynamic
        return None;
    }
    if b16 == 0 {
        // landscape orientation: the other byte is a ratio code
        if b15 == 0xFF {
            warns.push(Warning::AspectRatioPrecisionLoss);
        }
        let (hoz, vert) = match make_ratio(b15) {
            Some(p) => p,
            None => {
                return None;
            },
        };
        return Some(SizeOrRatio::AspectRatio { horizontal: hoz, vertical: vert });
    }
    if b15 == 0 {
        // portrait orientation
        if b16 == 0xFF {
            warns.push(Warning::AspectRatioPrecisionLoss);
        }
        let (vert, hoz) = match make_ratio(b16) {
            Some(p) => p,
            None => {
                return None;
            },
        };
        return Some(SizeOrRatio::AspectRatio { horizontal: hoz, vertical: vert });
    }
    // both non-zero: literal centimeter dimensions
    Some(SizeOrRatio::ScreenSize { vertical_cm: b16, horizontal_cm: b15 })
}

/// The gamma of byte `0x17`: `0xFF` defers to an extension block, any
/// other byte encodes `(byte + 100) / 100`.
pub open spec fn spec_gamma(b: u8) -> Option<Ratio> {
    if b == 0xFF {
        None
    } else {
        Some(spec_ratio((b + 100) as nat, 100))
    }
}

/// The warning the gamma byte draws: one for the undefined byte zero,
/// none otherwise.
pub open spec fn spec_gamma_warnings(b: u8) -> Seq<Warning> {
    if b == 0 {
        seq![Warning::GammaZeroByte]
    } else {
        Seq::empty()
    }
}

/// Decodes the gamma byte. A byte of zero is out of spec but accepted
/// with a warning.
pub fn gamma(input: &[u8], warns: &mut Vec<Warning>) -> (r: Option<Ratio>)
    requires
        input@.len() >= 0x18,
    ensures
        r == spec_gamma(input@[0x17]),
        final(warns)@ == old(warns)@ + spec_gamma_warnings(input@[0x17]),
{
    proof {
        crate::parser::lemma_concat_one(old(warns)@, Warning::GammaZeroByte);
        crate::parser::lemma_concat_empty::<Warning>(old(warns)@);
    }
    let byte = input[0x17];
    if byte == 0xFF {
        // an extension block must carry the gamma
        return None;
    }
    if byte == 0x00 {
        warns.push(Warning::GammaZeroByte);
    }
    // the byte stores (gamma x 100) - 100
    Some(Ratio::new(byte as u32 + 100, 100))
}

/// The feature support flags of byte `0x18`; the color support reading
/// depends on whether byte `0x14` selects analog or digital.
pub open spec fn spec_feature_support(b14: u8, b18: u8) -> FeatureSupport {
    FeatureSupport {
        power_management: PowerManagement {
            standby: spec_bit(b18, 7),
            suspend: spec_bit(b18, 6),
            active_off: spec_bit(b18, 5),
        },
        color_support: if spec_bit(b14, 7) {
            let v = (b18 / 8) % 4;
            ColorSupport::EncodingFormats(
                if v == 0 {
                    ColorEncodingFormats::Rgb444
                } else if v == 1 {
                    ColorEncodingFormats::Rgb444_YCrCb444
                } else if v == 2 {
                    ColorEncodingFormats::Rgb444_YCrCb422
                } else {
                    ColorEncodingFormats::Rgb444_YCrCb444_YCrCb422
                },
            )
        } else {
            let v = (b18 / 8) % 4;
            ColorSupport::Type(
                if v == 0 {
                    ColorType::MonochromeOrGrayscale
                } else if v == 1 {
                    ColorType::RgbColor
                } else if v == 2 {
                    ColorType::NonRgbColor
                } else {
                    ColorType::Undefined
                },
            )
        },
        srgb_std: spec_bit(b18, 2),
        says_pixel_format_and_refresh: spec_bit(b18, 1),
        is_continuous_freq: spec_bit(b18, 0),
    }
}

/// Decodes the feature support byte. Every bit pattern is valid.
pub fn feature_support(b14: u8, b18: u8) -> (r: FeatureSupport)
    ensures
        r == spec_feature_support(b14, b18),
{
    let power_management = PowerManagement {
        standby: bit(b18, 7),
        suspend: bit(b18, 6),
        active_off: bit(b18, 5),
    };
    let v = (b18 / 8) % 4;
    let color_support = if bit(b14, 7) {
        ColorSupport::EncodingFormats(
            match v {
                0 => ColorEncodingFormats::Rgb444,
                1 => ColorEncodingFormats::Rgb444_YCrCb444,
                2 => ColorEncodingFormats::Rgb444_YCrCb422,
                _ => ColorEncodingFormats::Rgb444_YCrCb444_YCrCb422,
            },
        )
    } else {
        ColorSupport::Type(
            match v {
                0 => ColorType::MonochromeOrGrayscale,
                1 => ColorType::RgbColor,
                2 => ColorType::NonRgbColor,
                _ => ColorType::Undefined,
            },
        )
    };
    FeatureSupport {
        power_management,
        color_support,
        srgb_std: bit(b18, 2),
        says_pixel_format_and_refresh: bit(b18, 1),
        is_continuous_freq: bit(b18, 0),
    }
}

/// Whether the basic display parameters decode without a hard error.
pub open spec fn spec_basic_ok(s: Seq<u8>) -> bool
    recommends
        s.len() >= 0x19,
{
    spec_vsi_ok(s[0x14])
}

/// The decoded basic display parameters.
pub open spec fn spec_basic(s: Seq<u8>) -> BasicDisplayInfo
    recommends
        s.len() >= 0x19,
        spec_basic_ok(s),
{
    BasicDisplayInfo {
        input_definition: spec_vsi(s[0x14]),
        screen_size_or_aspect_ratio: spec_size_or_ratio(s[0x15], s[0x16]),
        reported_gamma: spec_gamma(s[0x17]),
        feature_support: spec_feature_support(s[0x14], s[0x18]),
    }
}

/// The warnings of the basic display parameters: size first, gamma
/// after, and none at all when the signal interface byte is rejected
/// before either is read.
pub open spec fn spec_basic_warnings(s: Seq<u8>) -> Seq<Warning>
    recommends
        s.len() >= 0x19,
{
    if spec_basic_ok(s) {
        spec_size_warnings(s[0x15], s[0x16]) + spec_gamma_warnings(s[0x17])
    } else {
        Seq::empty()
    }
}

/// Decodes the basic display parameters block, appending exactly its
/// warnings.
pub fn parse(input: &[u8], warns: &mut Vec<Warning>) -> (r: Result<
    BasicDisplayInfo,
    EdidError,
>)
    requires
        input@.len() >= 0x19,
    ensures
        spec_basic_ok(input@) <==> r is Ok,
        match r {
            Ok(b) => b == spec_basic(input@),
            Err(e) => e == EdidError::UnknownDigitalInterface(input@[0x14] % 16),
        },
        final(warns)@ == old(warns)@ + spec_basic_warnings(input@),
{
    let ghost w0 = warns@;
    let input_definition = match video_input_definition(input[0x14]) {
        Ok(v) => v,
        Err(e) => {
            proof {
                crate::parser::lemma_concat_empty::<Warning>(w0);
            }
            return Err(e);
        },
    };
    let screen_size_or_aspect_ratio = size_or_ratio(input, warns);
    let reported_gamma = gamma(input, warns);
    proof {
        crate::parser::lemma_concat_assoc(
            w0,
            spec_size_warnings(input@[0x15], input@[0x16]),
            spec_gamma_warnings(input@[0x17]),
        );
    }
    let feature_support = feature_support(input[0x14], input[0x18]);
    Ok(BasicDisplayInfo {
        input_definition,
        screen_size_or_aspect_ratio,
        reported_gamma,
        feature_support,
    })
}

} // verus!
