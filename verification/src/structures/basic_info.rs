//! Basic display parameters.

use crate::ratio::Ratio;
use vstd::prelude::*;

verus! {

/// Basic display parameters from bytes `0x14`..=`0x18`: video signal
/// interface, screen size, gamma and feature support.
#[derive(Clone, Copy, Debug, PartialEq, Eq, Structural)]
pub struct BasicDisplayInfo {
    /// Whether the input is analog or digital, and its parameters.
    pub input_definition: VideoSignalInterface,
    /// The screen size or aspect ratio; absent when the display does
    /// not report one (projectors, for example).
    pub screen_size_or_aspect_ratio: Option<SizeOrRatio>,
    /// The display's gamma; when absent, an extension block must
    /// supply it.
    pub reported_gamma: Option<Ratio>,
    /// Miscellaneous feature support flags.
    pub feature_support: FeatureSupport,
}

/// The video signal interface, selected by the top bit of byte `0x14`.
#[derive(Clone, Copy, Debug, PartialEq, Eq, Structural)]
pub enum VideoSignalInterface {
    Analog {
        signal_level_standard: SignalLevelStandard,
        video_setup: VideoSetup,
        sync_types: SyncTypes,
        /// Whether serration on the vertical sync is supported.
        serrations: bool,
    },
    Digital {
        color_bit_depth: ColorBitDepth,
        /// The supported interface standard, or `None` when not
        /// reported.
        supported_interface: Option<SupportedVideoInterface>,
    },
}

/// "Signal, level, total" voltages of an analog display.
#[allow(non_camel_case_types)]
#[derive(Clone, Copy, Debug, PartialEq, Eq, Structural)]
pub enum SignalLevelStandard {
    /// 0.7 + 0.3 = 1.0 V
    _0700S_0300L_1000T,
    /// 0.714 + 0.286 = 1.0 V
    _0714S_0286L_1000T,
    /// 1.0 + 0.4 = 1.4 V
    _1000S_0400L_1400T,
    /// 0.7 + 0.0 = 0.7 V
    _0700S_0000L_0700T,
}

/// The video setup of an analog display.
#[derive(Clone, Copy, Debug, PartialEq, Eq, Structural)]
pub enum VideoSetup {
    BlackLevel,
    B2BOrPedestal,
}

/// Which synchronization types an analog display supports.
#[derive(Clone, Copy, Debug, PartialEq, Eq, Structural)]
pub struct SyncTypes {
    pub separate_sync_h_and_v: bool,
    pub composite_sync_horizontal: bool,
    pub composite_sync_green_video: bool,
}

/// The color bit depth of a digital display.
#[derive(Clone, Copy, Debug, PartialEq, Eq, Structural)]
pub enum ColorBitDepth {
    /// The display did not report a depth.
    Undefined,
    D6Bits,
    D8Bits,
    D10Bits,
    D12Bits,
    D14Bits,
    D16Bits,
    /// Unused as of EDID 1.4.
    Reserved,
}

/// A digital video interface standard.
#[derive(Clone, Copy, Debug, PartialEq, Eq, Structural)]
pub enum SupportedVideoInterface {
    Dvi,
    HdmiA,
    HdmiB,
    Mddi,
    DisplayPort,
}

/// The screen size or aspect ratio from bytes `0x15`..=`0x16`.
#[derive(Clone, Copy, Debug, PartialEq, Eq, Structural)]
pub enum SizeOrRatio {
    /// The screen size in centimeters.
    ScreenSize { vertical_cm: u8, horizontal_cm: u8 },
    /// An aspect ratio, in lowest terms.
    AspectRatio { horizontal: u16, vertical: u16 },
}

/// Feature support flags from byte `0x18`.
#[derive(Clone, Copy, Debug, PartialEq, Eq, Structural)]
pub struct FeatureSupport {
    pub power_management: PowerManagement,
    /// Color support: a color type for analog displays, encoding
    /// formats for digital ones.
    pub color_support: ColorSupport,
    /// Whether sRGB is the default color space.
    pub srgb_std: bool,
    /// Whether the preferred timing mode carries the native pixel
    /// format and refresh rate.
    pub says_pixel_format_and_refresh: bool,
    /// Whether the display accepts any timing within its range limits.
    pub is_continuous_freq: bool,
}

/// Supported power management modes.
#[derive(Clone, Copy, Debug, PartialEq, Eq, Structural)]
pub struct PowerManagement {
    pub standby: bool,
    pub suspend: bool,
    pub active_off: bool,
}

/// Color support, which depends on the signal interface kind.
#[derive(Clone, Copy, Debug, PartialEq, Eq, Structural)]
pub enum ColorSupport {
    /// For analog displays.
    Type(ColorType),
    /// For digital displays.
    EncodingFormats(ColorEncodingFormats),
}

/// The color type of an analog display.
#[derive(Clone, Copy, Debug, PartialEq, Eq, Structural)]
pub enum ColorType {
    MonochromeOrGrayscale,
    RgbColor,
    NonRgbColor,
    Undefined,
}

/// The color encoding formats of a digital display.
#[allow(non_camel_case_types)]
#[derive(Clone, Copy, Debug, PartialEq, Eq, Structural)]
pub enum ColorEncodingFormats {
    Rgb444,
    Rgb444_YCrCb444,
    Rgb444_YCrCb422,
    Rgb444_YCrCb444_YCrCb422,
}

} // verus!
