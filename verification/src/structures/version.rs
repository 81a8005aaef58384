//! The EDID version and revision bytes.

use vstd::prelude::*;

verus! {

/// The version and revision of the standard an EDID block was written
/// for. Both bytes are stored verbatim.
#[derive(Clone, Copy, Debug, PartialEq, Eq, Structural)]
pub struct EdidVersion {
    /// `0x01` for EDID 1.4.
    pub version: u8,
    /// `0x04` for EDID 1.4.
    pub revision: u8,
}

} // verus!
