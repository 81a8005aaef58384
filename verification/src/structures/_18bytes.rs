//! The four 18-byte descriptor blocks.

use crate::structures::desc::DisplayDescriptor;
use vstd::prelude::*;

verus! {

/// The four 18-byte blocks of the base EDID: the preferred timing
/// followed by three more blocks in their on-wire order.
#[derive(Clone, Debug, PartialEq)]
pub struct EighteenByteDescriptors {
    /// The timing that produces the best image according to the
    /// manufacturer. On conformant EDID 1.3/1.4 inputs this is a
    /// detailed timing definition.
    pub preferred_timing_mode: EighteenByteBlock,
    /// The remaining three blocks, in block order.
    pub blocks: [EighteenByteBlock; 3],
}

/// An 18-byte block: either a detailed timing definition or a display
/// descriptor, distinguished by its first two bytes.
#[derive(Clone, Debug, PartialEq)]
pub enum EighteenByteBlock {
    Timing(DetailedTimingDefinition),
    Display(DisplayDescriptor),
}

/// A detailed timing definition.
#[derive(Clone, Copy, Debug, PartialEq, Eq, Structural)]
pub struct DetailedTimingDefinition {
    /// The pixel clock in units of 10 kHz. Zero is reserved by the
    /// standard but stored as observed.
    pub pixel_clock_khz: u16,
    pub horizontal_addressable_video_px: u16,
    pub horizontal_blanking_px: u16,
    pub vertical_addressable_video_lines: u16,
    pub vertical_blanking_lines: u16,
    /// From blanking start to sync start, in pixels.
    pub horizontal_front_porch: u16,
    /// The horizontal sync pulse width, in pixels.
    pub horizontal_sync_pulse_width_px: u16,
    /// From blanking start to sync start, in lines.
    pub vertical_front_porch_lines: u8,
    /// The vertical sync pulse width, in lines.
    pub vertical_sync_pulse_width_lines: u8,
    /// The horizontal size of the displayed image in millimeters, when
    /// specified.
    pub horizontal_addressable_video_size_mm: Option<u16>,
    /// The vertical size of the displayed image in millimeters, when
    /// specified.
    pub vertical_addressable_video_size_mm: Option<u16>,
    pub horizontal_border_px: u8,
    pub vertical_border_lines: u8,
    pub signal_interface_type: SignalInterfaceType,
    pub stereo_support: StereoViewingSupport,
    pub sync_signal: SyncSignal,
}

/// Whether a frame is one field or two.
#[derive(Clone, Copy, Debug, PartialEq, Eq, Structural)]
pub enum SignalInterfaceType {
    NonInterlaced,
    Interlaced,
}

/// Stereo viewing support of a detailed timing.
#[derive(Clone, Copy, Debug, PartialEq, Eq, Structural)]
pub enum StereoViewingSupport {
    NormalDisplay,
    FieldSequentialRight,
    FieldSequentialLeft,
    TwoWayInterleavedRight,
    TwoWayInterleavedLeft,
    FourWayInterleaved,
    SideBySide,
}

/// The sync signal description of a detailed timing.
#[derive(Clone, Copy, Debug, PartialEq, Eq, Structural)]
pub enum SyncSignal {
    Analog { bipolar: bool, with_serrations: bool, sync_mode: AnalogSyncOn },
    Digital(DigitalSyncSignal),
}

/// Which channels an analog sync rides on.
#[derive(Clone, Copy, Debug, PartialEq, Eq, Structural)]
pub enum AnalogSyncOn {
    Green,
    Rgb,
}

/// The digital sync signal kind.
#[derive(Clone, Copy, Debug, PartialEq, Eq, Structural)]
pub enum DigitalSyncSignal {
    Composite,
    CompositeSerrations,
    SeparateNegVNegH,
    SeparateNegVPosH,
    SeparatePosVNegH,
    SeparatePosVPosH,
}

} // verus!
