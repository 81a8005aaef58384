//! Coordinated Video Timings 3-byte codes.

use vstd::prelude::*;

verus! {

/// One decoded CVT 3-byte timing code.
#[derive(Clone, Copy, Debug, PartialEq, Eq, Structural)]
pub struct TimingCodeDesc {
    /// The addressable line count, a 12-bit value.
    pub addressable_lines: u16,
    pub aspect_ratio: CvtAspectRatio,
    pub preferred_vertical_rate: CvtPreferredVerticalRate,
    pub supported_vertical_rates: SupportedVRates,
}

/// The aspect ratio of a CVT timing code; the 2-bit field allows only
/// these four.
#[derive(Clone, Copy, Debug, PartialEq, Eq, Structural)]
pub enum CvtAspectRatio {
    _16x10,
    _4x3,
    _16x9,
    _15x9,
}

/// The preferred vertical refresh rate of a CVT timing code.
#[derive(Clone, Copy, Debug, PartialEq, Eq, Structural)]
pub enum CvtPreferredVerticalRate {
    _50Hz,
    _60Hz,
    _75Hz,
    _85Hz,
}

/// The supported vertical rates of a CVT timing code, together with
/// their blanking styles.
#[derive(Clone, Copy, Debug, PartialEq, Eq, Structural)]
pub struct SupportedVRates {
    pub _50_hz_standard: bool,
    pub _60_hz_standard: bool,
    pub _75_hz_standard: bool,
    pub _85_hz_standard: bool,
    pub _60_hz_reduced: bool,
}

} // verus!
