//! Color characteristics: CIE 1931 chromaticity coordinates.

use crate::ratio::Ratio;
use vstd::prelude::*;

verus! {

/// The four chromaticity coordinate pairs of a display: its red, green
/// and blue primaries and its default white point.
#[derive(Clone, Copy, Debug, PartialEq, Eq, Structural)]
pub struct ColorCharacteristics {
    pub red: ColorCoordinate,
    pub green: ColorCoordinate,
    pub blue: ColorCoordinate,
    pub white_point: ColorCoordinate,
}

/// One coordinate on the CIE 1931 chart. Each axis is a 10-bit
/// fixed-point fraction over 1024, stored in lowest terms.
#[derive(Clone, Copy, Debug, PartialEq, Eq, Structural)]
pub struct ColorCoordinate {
    pub x: Ratio,
    pub y: Ratio,
}

impl ColorCoordinate {
    /// Pairs two axis values into a coordinate.
    pub fn new(x: Ratio, y: Ratio) -> (r: ColorCoordinate)
        ensures
            r == (ColorCoordinate { x, y }),
    {
        ColorCoordinate { x, y }
    }
}

} // verus!
