//! Display range limits descriptors.

use vstd::prelude::*;

verus! {

/// A range limits descriptor (tag `0xFD`): the display's scanning rate
/// and pixel clock limits, plus which timing formula it supports.
#[derive(Clone, Copy, Debug, PartialEq, Eq, Structural)]
pub enum RangeLimitsDesc {
    /// Range limits only; neither GTF nor CVT is supported.
    LimitsOnly {
        limits: RangeLimits,
        /// Copied from the continuous-frequency feature bit: when true,
        /// the display presents an image for any valid timing within
        /// the limits.
        flexible: bool,
    },
    /// Default GTF is supported; no extra data.
    GtfSupported { limits: RangeLimits },
    /// The GTF secondary curve is supported, with its coefficients.
    GtfSecondaryCurveSupported {
        limits: RangeLimits,
        /// The start break frequency: the stored byte times 2.
        start_break_freq: u16,
        /// Twice the C coefficient.
        c2: u8,
        /// The M coefficient.
        m: u16,
        /// The K coefficient.
        k: u8,
        /// Twice the J coefficient.
        j2: u8,
    },
    /// CVT is supported, with its parameters.
    CvtSupported {
        limits: RangeLimits,
        /// The maximum pixel clock with 0.25 MHz precision, in
        /// quarter-MHz units. Negative only for non-conformant inputs
        /// whose subtrahend exceeds the coarse clock.
        enhanced_px_clk_quarter_mhz: i32,
        /// The CVT version; `0x11` is version 1.1.
        cvt_version: u8,
        /// The maximum active pixels per line; `None` means no limit.
        maximum_active_pxls_per_line: Option<u16>,
        supported_aspect_ratios: SupportedAspectRatios,
        preferred_aspect_ratio: PreferredAspectRatio,
        supports_standard_cvt_blanking: bool,
        supports_reduced_cvt_blanking: bool,
        supports_h_shrink_scaling: bool,
        supports_h_stretch_scaling: bool,
        supports_v_shrink_scaling: bool,
        supports_v_stretch_scaling: bool,
        /// The preferred vertical refresh rate in Hz, verbatim.
        preferred_v_refresh_rate_hz: u8,
    },
}

impl RangeLimitsDesc {
    /// The range limits that every variant carries.
    pub fn limits(&self) -> (r: RangeLimits)
        ensures
            r == self.spec_limits(),
    {
        match self {
            Self::LimitsOnly { limits, .. } => *limits,
            Self::GtfSupported { limits } => *limits,
            Self::GtfSecondaryCurveSupported { limits, .. } => *limits,
            Self::CvtSupported { limits, .. } => *limits,
        }
    }

    /// The range limits that every variant carries.
    pub open spec fn spec_limits(&self) -> RangeLimits {
        match self {
            Self::LimitsOnly { limits, .. } => *limits,
            Self::GtfSupported { limits } => *limits,
            Self::GtfSecondaryCurveSupported { limits, .. } => *limits,
            Self::CvtSupported { limits, .. } => *limits,
        }
    }
}

/// The minimum and maximum scanning rates and the maximum pixel clock.
#[derive(Clone, Copy, Debug, PartialEq, Eq, Structural)]
pub struct RangeLimits {
    /// Minimum vertical rate in Hz.
    pub min_v_rate_hz: u16,
    /// Maximum vertical rate in Hz.
    pub max_v_rate_hz: u16,
    /// Minimum horizontal rate in kHz.
    pub min_h_rate_khz: u16,
    /// Maximum horizontal rate in kHz.
    pub max_h_rate_khz: u16,
    /// The offsets already applied to the rates above.
    pub offsets: Offsets,
    /// The maximum pixel clock in MHz, always a multiple of ten.
    pub max_pixel_clock_mhz: u16,
}

/// The offset scheme of a range limits descriptor.
#[derive(Clone, Copy, Debug, PartialEq, Eq, Structural)]
pub struct Offsets {
    pub vertical: VerticalOffset,
    pub horizontal: HorizontalOffset,
}

impl Offsets {
    /// True when there is any offset, in either direction; false only
    /// when both directions are `Zero`.
    pub fn is_offset(&self) -> (r: bool)
        ensures
            r == (self.horizontal != HorizontalOffset::Zero
                || self.vertical != VerticalOffset::Zero),
    {
        !matches!(self.horizontal, HorizontalOffset::Zero)
            || !matches!(self.vertical, VerticalOffset::Zero)
    }
}

/// The vertical rate offset scheme.
#[allow(non_camel_case_types)]
#[derive(Clone, Copy, Debug, PartialEq, Eq, Structural)]
pub enum VerticalOffset {
    Zero,
    Max255Hz_MinNotOffset,
    Max255Hz_Min255Hz,
}

impl VerticalOffset {
    /// Whether the maximum vertical rate is offset by 255 Hz.
    pub fn has_max(&self) -> (r: bool)
        ensures
            r == (*self == VerticalOffset::Max255Hz_Min255Hz
                || *self == VerticalOffset::Max255Hz_MinNotOffset),
    {
        matches!(self, Self::Max255Hz_Min255Hz | Self::Max255Hz_MinNotOffset)
    }

    /// Whether the minimum vertical rate is offset by 255 Hz.
    pub fn has_min(&self) -> (r: bool)
        ensures
            r == (*self == VerticalOffset::Max255Hz_Min255Hz),
    {
        matches!(self, Self::Max255Hz_Min255Hz)
    }
}

/// The horizontal rate offset scheme.
#[allow(non_camel_case_types)]
#[derive(Clone, Copy, Debug, PartialEq, Eq, Structural)]
pub enum HorizontalOffset {
    Zero,
    Max255kHz_MinNotOffset,
    Max255kHz_Min255kHz,
}

impl HorizontalOffset {
    /// Whether the maximum horizontal rate is offset by 255 kHz.
    pub fn has_max(&self) -> (r: bool)
        ensures
            r == (*self == HorizontalOffset::Max255kHz_Min255kHz
                || *self == HorizontalOffset::Max255kHz_MinNotOffset),
    {
        matches!(self, Self::Max255kHz_Min255kHz | Self::Max255kHz_MinNotOffset)
    }

    /// Whether the minimum horizontal rate is offset by 255 kHz.
    pub fn has_min(&self) -> (r: bool)
        ensures
            r == (*self == HorizontalOffset::Max255kHz_Min255kHz),
    {
        matches!(self, Self::Max255kHz_Min255kHz)
    }
}

/// The aspect ratios a CVT display supports.
#[derive(Clone, Copy, Debug, PartialEq, Eq, Structural)]
pub struct SupportedAspectRatios {
    pub _4x3: bool,
    pub _16x9: bool,
    pub _16x10: bool,
    pub _5x4: bool,
    pub _15x9: bool,
}

/// The preferred aspect ratio of a CVT display; the 3-bit code allows
/// only these five.
#[derive(Clone, Copy, Debug, PartialEq, Eq, Structural)]
pub enum PreferredAspectRatio {
    _4x3,
    _16x9,
    _16x10,
    _5x4,
    _15x9,
}

} // verus!
