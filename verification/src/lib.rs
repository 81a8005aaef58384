//! A verified decoder for EDID (Extended Display Identification Data),
//! the 128-byte metadata block that displays expose to describe their
//! vendor identity, signal capabilities, color characteristics and
//! timings.
//!
//! The entry point is [`Edid::new`], which takes the raw bytes of a base
//! EDID block and returns either a fully populated [`Edid`] or a typed
//! [`error::EdidError`] naming the structural rule that was violated.

use vstd::prelude::*;

pub mod error;
pub mod laws;
pub mod parser;
pub mod ratio;
pub mod structures;
pub mod text;

use crate::error::EdidError;
use crate::structures::_18bytes::EighteenByteDescriptors;
use crate::structures::basic_info::BasicDisplayInfo;
use crate::structures::color::ColorCharacteristics;
use crate::structures::est_timings::EstablishedTimings;
use crate::structures::id::VendorProductId;
use crate::structures::std_timings::StandardTimings;
use crate::structures::version::EdidVersion;

verus! {

/// The latest EDID version this library supports.
pub const LATEST_SUPPORTED_VERSION: u8 = 0x01;

/// The latest EDID revision this library supports.
pub const LATEST_SUPPORTED_REVISION: u8 = 0x04;

/// The decoded base EDID block.
#[derive(Clone, Debug, PartialEq)]
pub struct Edid {
    /// Identity of the display product and its vendor.
    pub vendor_product_info: VendorProductId,
    /// The version and revision of the standard the block was written for.
    pub version: EdidVersion,
    /// Basic display parameters: signal interface, screen size, gamma
    /// and feature support.
    pub basic_display_info: BasicDisplayInfo,
    /// The display's placement in the CIE 1931 color space.
    pub color_characteristics: ColorCharacteristics,
    /// Fixed legacy timing flags.
    pub established_timings: EstablishedTimings,
    /// The eight two-byte standard timing slots.
    pub standard_timings: StandardTimings,
    /// The four 18-byte descriptor blocks.
    pub eighteen_byte_data_blocks: EighteenByteDescriptors,
    /// How many extension blocks follow the base block.
    pub extension_info: u8,
    /// The checksum byte, stored as observed even when the block does
    /// not sum to zero.
    pub checksum: u8,
}

impl Edid {
    /// Decodes a base EDID block from its raw bytes.
    ///
    /// Succeeds exactly on inputs that every stage accepts and then
    /// returns the decode of the bytes; otherwise it returns the first
    /// stage's error. Tolerated deviations are dropped here; use
    /// [`parser::parse_with_warnings`] to observe them.
    pub fn new(edid_data: &[u8]) -> (r: Result<Edid, EdidError>)
        ensures
            parser::parse_result_matches(r, edid_data@),
    {
        parser::parse(edid_data)
    }
}

} // verus!
