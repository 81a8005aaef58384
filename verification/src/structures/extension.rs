//! The trailing bytes of the base block.

use vstd::prelude::*;

verus! {

/// Info about the extension blocks that follow the base EDID.
#[derive(Clone, Copy, Debug, PartialEq, Eq, Structural)]
pub struct ExtensionInfo {
    /// The number of extension blocks (including optional block maps)
    /// that follow the base EDID.
    pub flag: u8,
    /// The value that makes the 128-byte block sum to zero modulo 256.
    pub checksum: u8,
}

} // verus!
