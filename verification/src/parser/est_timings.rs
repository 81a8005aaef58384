//! Established timings: bytes `0x23`..=`0x25`, one flag per bit.

use crate::parser::bitfield::{bit, spec_bit};
use crate::structures::est_timings::{
    EstablishedTimings, EstablishedTimingsI, EstablishedTimingsII, ManufacturerTimings,
};
use vstd::prelude::*;

verus! {

/// The flags of byte `0x23`, bit 7 first.
pub open spec fn spec_est_i(b: u8) -> EstablishedTimingsI {
    EstablishedTimingsI {
        _720x400_70hz: spec_bit(b, 7),
        _720x400_88hz: spec_bit(b, 6),
        _640x480_60hz: spec_bit(b, 5),
        _640x480_67hz: spec_bit(b, 4),
        _640x480_72hz: spec_bit(b, 3),
        _640x480_75hz: spec_bit(b, 2),
        _800x600_56hz: spec_bit(b, 1),
        _800x600_60hz: spec_bit(b, 0),
    }
}

/// The flags of byte `0x24`, bit 7 first.
pub open spec fn spec_est_ii(b: u8) -> EstablishedTimingsII {
    EstablishedTimingsII {
        _800x600_72hz: spec_bit(b, 7),
        _800x600_75hz: spec_bit(b, 6),
        _832x624_75hz: spec_bit(b, 5),
        _1024x768_87hz_interlaced: spec_bit(b, 4),
        _1024x768_60hz: spec_bit(b, 3),
        _1024x768_70hz: spec_bit(b, 2),
        _1024x768_75hz: spec_bit(b, 1),
        _1280x1024_75hz: spec_bit(b, 0),
    }
}

/// The flags of byte `0x25`, bit 7 first.
pub open spec fn spec_manufacturer_timings(b: u8) -> ManufacturerTimings {
    ManufacturerTimings {
        _1152x870_75hz: spec_bit(b, 7),
        _6: spec_bit(b, 6),
        _5: spec_bit(b, 5),
        _4: spec_bit(b, 4),
        _3: spec_bit(b, 3),
        _2: spec_bit(b, 2),
        _1: spec_bit(b, 1),
        _0: spec_bit(b, 0),
    }
}

/// All three established timing bytes.
pub open spec fn spec_est_timings(s: Seq<u8>) -> EstablishedTimings
    recommends
        s.len() >= 0x26,
{
    EstablishedTimings {
        i: spec_est_i(s[0x23]),
        ii: spec_est_ii(s[0x24]),
        manufacturer_timings: spec_manufacturer_timings(s[0x25]),
    }
}

/// Decodes the established timing flags. Every bit pattern is valid.
pub fn parse(input: &[u8]) -> (r: EstablishedTimings)
    requires
        input@.len() >= 0x26,
    ensures
        r == spec_est_timings(input@),
{
    EstablishedTimings {
        i: est_i(input[0x23]),
        ii: est_ii(input[0x24]),
        manufacturer_timings: manufacturer(input[0x25]),
    }
}

/// Unpacks byte `0x23`.
pub fn est_i(byte: u8) -> (r: EstablishedTimingsI)
    ensures
        r == spec_est_i(byte),
{
    EstablishedTimingsI {
        _720x400_70hz: bit(byte, 7),
        _720x400_88hz: bit(byte, 6),
        _640x480_60hz: bit(byte, 5),
        _640x480_67hz: bit(byte, 4),
        _640x480_72hz: bit(byte, 3),
        _640x480_75hz: bit(byte, 2),
        _800x600_56hz: bit(byte, 1),
        _800x600_60hz: bit(byte, 0),
    }
}

/// Unpacks byte `0x24`.
pub fn est_ii(byte: u8) -> (r: EstablishedTimingsII)
    ensures
        r == spec_est_ii(byte),
{
    EstablishedTimingsII {
        _800x600_72hz: bit(byte, 7),
        _800x600_75hz: bit(byte, 6),
        _832x624_75hz: bit(byte, 5),
        _1024x768_87hz_interlaced: bit(byte, 4),
        _1024x768_60hz: bit(byte, 3),
        _1024x768_70hz: bit(byte, 2),
        _1024x768_75hz: bit(byte, 1),
        _1280x1024_75hz: bit(byte, 0),
    }
}

/// Unpacks byte `0x25`: the manufacturer timing flags.
pub fn manufacturer(byte: u8) -> (r: ManufacturerTimings)
    ensures
        r == spec_manufacturer_timings(byte),
{
    ManufacturerTimings {
        _1152x870_75hz: bit(byte, 7),
        _6: bit(byte, 6),
        _5: bit(byte, 5),
        _4: bit(byte, 4),
        _3: bit(byte, 3),
        _2: bit(byte, 2),
        _1: bit(byte, 1),
        _0: bit(byte, 0),
    }
}

} // verus!
