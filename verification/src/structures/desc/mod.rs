//! Display descriptors: the non-timing contents of 18-byte blocks.

pub mod color_point;
pub mod cvt_3_byte_timing;
pub mod display_range_limits;

use crate::structures::desc::color_point::WhitePoint;
use crate::structures::desc::cvt_3_byte_timing::TimingCodeDesc;
use crate::structures::desc::display_range_limits::RangeLimitsDesc;
use crate::structures::std_timings::STiming;
use vstd::prelude::*;

verus! {

/// A display descriptor, selected by the tag byte at offset 3 of an
/// 18-byte block.
#[derive(Clone, Debug, PartialEq)]
pub enum DisplayDescriptor {
    /// Up to 13 characters of a serial number. Tag `0xFF`.
    ProductSerial(String),
    /// Up to 13 characters of free-form data. Tag `0xFE`.
    DataString(String),
    /// Range limits and timing support. Tag `0xFD`.
    DisplayRangeLimits(RangeLimitsDesc),
    /// Up to 13 characters of the model name. Tag `0xFC`.
    ProductName(String),
    /// Two additional white points. Tag `0xFB`.
    ColorPointData { w1: WhitePoint, w2: WhitePoint },
    /// Six more standard timings. Tag `0xFA`.
    StandardTimingIdentifications {
        _9: Option<STiming>,
        _10: Option<STiming>,
        _11: Option<STiming>,
        _12: Option<STiming>,
        _13: Option<STiming>,
        _14: Option<STiming>,
    },
    /// Display Color Management coefficients, stored raw. Tag `0xF9`.
    DcmData {
        version_number: u8,
        red_a3: u16,
        red_a2: u16,
        green_a3: u16,
        green_a2: u16,
        blue_a3: u16,
        blue_a2: u16,
    },
    /// Coordinated Video Timings 3-byte codes. Tag `0xF8`.
    Cvt3ByteTimingCodes {
        version_number: u8,
        /// The first code, which the standard requires to be present.
        first: TimingCodeDesc,
        second: Option<TimingCodeDesc>,
        third: Option<TimingCodeDesc>,
        last: Option<TimingCodeDesc>,
    },
    /// Established Timings III flags. Tag `0xF7`.
    EstablishedTimingsIII {
        _640x350_85hz: bool,
        _640x400_85hz: bool,
        _720x400_85hz: bool,
        _640x480_85hz: bool,
        _848x480_60hz: bool,
        _800x600_85hz: bool,
        _1024x768_85hz: bool,
        _1152x864_75hz: bool,
        _1280x768_60hz_reduced: bool,
        _1280x768_60hz: bool,
        _1280x768_75hz: bool,
        _1280x768_85hz: bool,
        _1280x960_60hz: bool,
        _1280x960_85hz: bool,
        _1280x1024_60hz: bool,
        _1280x1024_85hz: bool,
        _1360x768_60hz: bool,
        _1440x900_60hz_reduced: bool,
        _1440x900_60hz: bool,
        _1440x900_75hz: bool,
        _1440x900_85hz: bool,
        _1400x1050_60hz_reduced: bool,
        _1400x1050_60hz: bool,
        _1400x1050_75hz: bool,
        _1400x1050_85hz: bool,
        _1680x1050_60hz_reduced: bool,
        _1680x1050_60hz: bool,
        _1680x1050_75hz: bool,
        _1680x1050_85hz: bool,
        _1600x1200_60hz: bool,
        _1600x1200_65hz: bool,
        _1600x1200_70hz: bool,
        _1600x1200_75hz: bool,
        _1600x1200_85hz: bool,
        _1792x1344_60hz: bool,
        _1792x1344_75hz: bool,
        _1856x1392_60hz: bool,
        _1856x1392_75hz: bool,
        _1920x1200_60hz_reduced: bool,
        _1920x1200_60hz: bool,
        _1920x1200_75hz: bool,
        _1920x1200_85hz: bool,
        _1920x1440_60hz: bool,
        _1920x1440_75hz: bool,
    },
    /// A manufacturer-reserved descriptor, stored verbatim. Tags
    /// `0x00`..=`0x0F`.
    Manufacturer { data: [u8; 18] },
    /// Unused descriptor space. Tag `0x10`.
    DummyDescriptor,
}

} // verus!
