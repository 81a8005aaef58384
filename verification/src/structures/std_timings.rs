//! Standard timings: the eight two-byte timing slots.

use vstd::prelude::*;

verus! {

/// The eight standard timing slots from bytes `0x26`..=`0x35`.
/// Slots holding a sentinel pair are `None`.
#[derive(Clone, Copy, Debug, PartialEq, Eq, Structural)]
pub struct StandardTimings {
    pub st1: Option<STiming>,
    pub st2: Option<STiming>,
    pub st3: Option<STiming>,
    pub st4: Option<STiming>,
    pub st5: Option<STiming>,
    pub st6: Option<STiming>,
    pub st7: Option<STiming>,
    pub st8: Option<STiming>,
}

/// One decoded standard timing.
#[derive(Clone, Copy, Debug, PartialEq, Eq, Structural)]
pub struct STiming {
    /// Horizontal active pixels: `(raw + 31) * 8`.
    pub horizontal_addr_pixel_ct: u16,
    pub aspect_ratio: StandardAspectRatio,
    /// The refresh rate in Hz: `raw + 60`.
    pub field_refresh_rate: u8,
}

/// The aspect ratio of a standard timing; the standard allows only
/// these four.
#[derive(Clone, Copy, Debug, PartialEq, Eq, Structural)]
pub enum StandardAspectRatio {
    _16_10,
    _4_3,
    _5_4,
    _16_9,
}

} // verus!
