//! White points from color point descriptors.

use crate::ratio::Ratio;
use crate::structures::color::ColorCoordinate;
use vstd::prelude::*;

verus! {

/// An additional white point on the CIE 1931 chart, from a color point
/// descriptor.
#[derive(Clone, Copy, Debug, PartialEq, Eq, Structural)]
pub struct WhitePoint {
    /// The manufacturer's index for this white point; `0x00` is
    /// reserved.
    pub index_number: u8,
    pub coord: ColorCoordinate,
    /// The gamma for this white point; when absent, an extension block
    /// defines it.
    pub gamma: Option<Ratio>,
}

} // verus!
