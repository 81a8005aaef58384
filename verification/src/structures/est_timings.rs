//! Established timings: fixed legacy mode flags.

use vstd::prelude::*;

verus! {

/// The three bytes of hardcoded legacy timing support flags.
#[derive(Clone, Copy, Debug, PartialEq, Eq, Structural)]
pub struct EstablishedTimings {
    pub i: EstablishedTimingsI,
    pub ii: EstablishedTimingsII,
    pub manufacturer_timings: ManufacturerTimings,
}

/// Established timings from byte `0x23`, one flag per bit.
#[derive(Clone, Copy, Debug, PartialEq, Eq, Structural)]
pub struct EstablishedTimingsI {
    pub _720x400_70hz: bool,
    pub _720x400_88hz: bool,
    pub _640x480_60hz: bool,
    pub _640x480_67hz: bool,
    pub _640x480_72hz: bool,
    pub _640x480_75hz: bool,
    pub _800x600_56hz: bool,
    pub _800x600_60hz: bool,
}

/// Established timings from byte `0x24`, one flag per bit.
#[derive(Clone, Copy, Debug, PartialEq, Eq, Structural)]
pub struct EstablishedTimingsII {
    pub _800x600_72hz: bool,
    pub _800x600_75hz: bool,
    pub _832x624_75hz: bool,
    pub _1024x768_87hz_interlaced: bool,
    pub _1024x768_60hz: bool,
    pub _1024x768_70hz: bool,
    pub _1024x768_75hz: bool,
    pub _1280x1024_75hz: bool,
}

/// Byte `0x25`: one named Apple timing and seven bits reserved for
/// manufacturer-specified timings, stored generically.
#[derive(Clone, Copy, Debug, PartialEq, Eq, Structural)]
pub struct ManufacturerTimings {
    pub _1152x870_75hz: bool,
    pub _6: bool,
    pub _5: bool,
    pub _4: bool,
    pub _3: bool,
    pub _2: bool,
    pub _1: bool,
    pub _0: bool,
}

} // verus!
