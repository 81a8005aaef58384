//! Detailed timing definitions: 18-byte blocks whose first two bytes
//! are not both zero.

use crate::parser::bitfield::{bit, spec_bit};
use crate::structures::_18bytes::{
    AnalogSyncOn, DetailedTimingDefinition, DigitalSyncSignal, SignalInterfaceType,
    StereoViewingSupport, SyncSignal,
};
use vstd::prelude::*;

verus! {

/// The pixel clock: a little-endian 16-bit value in units of 10 kHz.
pub open spec fn spec_pixel_clock(b0: u8, b1: u8) -> u16 {
    (b0 + 256 * b1) as u16
}

/// Reads the pixel clock bytes.
pub fn pixel_clock(b0: u8, b1: u8) -> (r: u16)
    ensures
        r == spec_pixel_clock(b0, b1),
{
    b0 as u16 + 256 * (b1 as u16)
}

/// A 12-bit value whose high four bits sit in the upper nibble of a
/// shared byte.
pub open spec fn spec_upper_nibble(shared: u8, byte: u8) -> u16 {
    ((shared / 16) * 256 + byte) as u16
}

/// Combines a dedicated byte with the upper nibble of its shared byte.
pub fn upper_nibble(shared_byte: u8, byte: u8) -> (r: u16)
    ensures
        r == spec_upper_nibble(shared_byte, byte),
{
    ((shared_byte / 16) as u16) * 256 + byte as u16
}

/// A 12-bit value whose high four bits sit in the lower nibble of a
/// shared byte.
pub open spec fn spec_lower_nibble(shared: u8, byte: u8) -> u16 {
    ((shared % 16) * 256 + byte) as u16
}

/// Combines a dedicated byte with the lower nibble of its shared byte.
pub fn lower_nibble(shared_byte: u8, byte: u8) -> (r: u16)
    ensures
        r == spec_lower_nibble(shared_byte, byte),
{
    ((shared_byte % 16) as u16) * 256 + byte as u16
}

/// The stereo viewing support of the final byte, from bits 6, 5 and 0.
pub open spec fn spec_stereo(b: u8) -> StereoViewingSupport {
    let b6 = spec_bit(b, 6);
    let b5 = spec_bit(b, 5);
    let b0 = spec_bit(b, 0);
    if !b6 && !b5 {
        StereoViewingSupport::NormalDisplay
    } else if !b6 && b5 && !b0 {
        StereoViewingSupport::FieldSequentialRight
    } else if b6 && !b5 && !b0 {
        StereoViewingSupport::FieldSequentialLeft
    } else if !b6 && b5 && b0 {
        StereoViewingSupport::TwoWayInterleavedRight
    } else if b6 && !b5 && b0 {
        StereoViewingSupport::TwoWayInterleavedLeft
    } else if b6 && b5 && !b0 {
        StereoViewingSupport::FourWayInterleaved
    } else {
        StereoViewingSupport::SideBySide
    }
}

/// The sync signal description of the final byte: bit 4 selects
/// digital over analog.
pub open spec fn spec_sync(b: u8) -> SyncSignal {
    let b3 = spec_bit(b, 3);
    let b2 = spec_bit(b, 2);
    let b1 = spec_bit(b, 1);
    if spec_bit(b, 4) {
        SyncSignal::Digital(
            if !b3 && !b2 {
                DigitalSyncSignal::Composite
            } else if !b3 && b2 {
                DigitalSyncSignal::CompositeSerrations
            } else if b3 && !b2 && !b1 {
                DigitalSyncSignal::SeparateNegVNegH
            } else if b3 && !b2 && b1 {
                DigitalSyncSignal::SeparateNegVPosH
            } else if b3 && b2 && !b1 {
                DigitalSyncSignal::SeparatePosVNegH
            } else {
                DigitalSyncSignal::SeparatePosVPosH
            },
        )
    } else {
        SyncSignal::Analog {
            bipolar: b3,
            with_serrations: b2,
            sync_mode: if b1 {
                AnalogSyncOn::Rgb
            } else {
                AnalogSyncOn::Green
            },
        }
    }
}

/// Decodes the final byte into its three orthogonal classifications.
pub fn part_2(byte: u8) -> (r: (SignalInterfaceType, StereoViewingSupport, SyncSignal))
    ensures
        r.0 == if spec_bit(byte, 7) {
            SignalInterfaceType::Interlaced
        } else {
            SignalInterfaceType::NonInterlaced
        },
        r.1 == spec_stereo(byte),
        r.2 == spec_sync(byte),
{
    let sit = if bit(byte, 7) {
        SignalInterfaceType::Interlaced
    } else {
        SignalInterfaceType::NonInterlaced
    };
    let stereo_viewing = match (bit(byte, 6), bit(byte, 5), bit(byte, 0)) {
        (false, false, _) => StereoViewingSupport::NormalDisplay,
        (false, true, false) => StereoViewingSupport::FieldSequentialRight,
        (true, false, false) => StereoViewingSupport::FieldSequentialLeft,
        (false, true, true) => StereoViewingSupport::TwoWayInterleavedRight,
        (true, false, true) => StereoViewingSupport::TwoWayInterleavedLeft,
        (true, true, false) => StereoViewingSupport::FourWayInterleaved,
        (true, true, true) => StereoViewingSupport::SideBySide,
    };
    let sync_signal = if bit(byte, 4) {
        SyncSignal::Digital(
            match (bit(byte, 3), bit(byte, 2), bit(byte, 1)) {
                (false, false, _) => DigitalSyncSignal::Composite,
                (false, true, _) => DigitalSyncSignal::CompositeSerrations,
                (true, false, false) => DigitalSyncSignal::SeparateNegVNegH,
                (true, false, true) => DigitalSyncSignal::SeparateNegVPosH,
                (true, true, false) => DigitalSyncSignal::SeparatePosVNegH,
                (true, true, true) => DigitalSyncSignal::SeparatePosVPosH,
            },
        )
    } else {
        SyncSignal::Analog {
            bipolar: bit(byte, 3),
            with_serrations: bit(byte, 2),
            sync_mode: if bit(byte, 1) {
                AnalogSyncOn::Rgb
            } else {
                AnalogSyncOn::Green
            },
        }
    };
    (sit, stereo_viewing, sync_signal)
}

/// The decoded detailed timing definition of an 18-byte window.
pub open spec fn spec_dtd(w: Seq<u8>) -> DetailedTimingDefinition
    recommends
        w.len() == 18,
{
    DetailedTimingDefinition {
        pixel_clock_khz: spec_pixel_clock(w[0], w[1]),
        horizontal_addressable_video_px: spec_upper_nibble(w[4], w[2]),
        horizontal_blanking_px: spec_lower_nibble(w[4], w[3]),
        vertical_addressable_video_lines: spec_upper_nibble(w[7], w[5]),
        vertical_blanking_lines: spec_lower_nibble(w[7], w[6]),
        horizontal_front_porch: ((w[11] / 64) * 256 + w[8]) as u16,
        horizontal_sync_pulse_width_px: (((w[11] / 16) % 4) * 256 + w[9]) as u16,
        vertical_front_porch_lines: (((w[11] / 4) % 4) * 16 + w[10] / 16) as u8,
        vertical_sync_pulse_width_lines: ((w[11] % 4) * 16 + w[10] % 16) as u8,
        horizontal_addressable_video_size_mm: if spec_upper_nibble(w[14], w[12]) == 0 {
            None
        } else {
            Some(spec_upper_nibble(w[14], w[12]))
        },
        vertical_addressable_video_size_mm: if spec_lower_nibble(w[14], w[13]) == 0 {
            None
        } else {
            Some(spec_lower_nibble(w[14], w[13]))
        },
        horizontal_border_px: w[15],
        vertical_border_lines: w[16],
        signal_interface_type: if spec_bit(w[17], 7) {
            SignalInterfaceType::Interlaced
        } else {
            SignalInterfaceType::NonInterlaced
        },
        stereo_support: spec_stereo(w[17]),
        sync_signal: spec_sync(w[17]),
    }
}

/// Decodes a detailed timing definition. The caller has already ruled
/// out the all-zero prefix that marks a display descriptor.
pub fn parse(bytes: &[u8]) -> (r: DetailedTimingDefinition)
    requires
        bytes@.len() == 18,
        bytes@[0] != 0 || bytes@[1] != 0,
    ensures
        r == spec_dtd(bytes@),
{
    let pixel_clock_khz = pixel_clock(bytes[0], bytes[1]);

    let horizontal_addressable_video_px = upper_nibble(bytes[4], bytes[2]);
    let horizontal_blanking_px = lower_nibble(bytes[4], bytes[3]);
    let vertical_addressable_video_lines = upper_nibble(bytes[7], bytes[5]);
    let vertical_blanking_lines = lower_nibble(bytes[7], bytes[6]);

    // byte 11 holds four independent 2-bit slices, one per field below
    let shared = bytes[11];
    let horizontal_front_porch: u16 = ((shared / 64) as u16) * 256 + bytes[8] as u16;
    let horizontal_sync_pulse_width_px: u16 = (((shared / 16) % 4) as u16) * 256
        + bytes[9] as u16;
    let vertical_front_porch_lines: u8 = ((shared / 4) % 4) * 16 + bytes[10] / 16;
    let vertical_sync_pulse_width_lines: u8 = (shared % 4) * 16 + bytes[10] % 16;

    let h_mm = upper_nibble(bytes[14], bytes[12]);
    let horizontal_addressable_video_size_mm = if h_mm == 0 {
        None
    } else {
        Some(h_mm)
    };
    let v_mm = lower_nibble(bytes[14], bytes[13]);
    let vertical_addressable_video_size_mm = if v_mm == 0 {
        None
    } else {
        Some(v_mm)
    };
    let horizontal_border_px = bytes[15];
    let vertical_border_lines = bytes[16];

    let (signal_interface_type, stereo_support, sync_signal) = part_2(bytes[17]);

    DetailedTimingDefinition {
        pixel_clock_khz,
        horizontal_addressable_video_px,
        horizontal_blanking_px,
        vertical_addressable_video_lines,
        vertical_blanking_lines,
        horizontal_front_porch,
        horizontal_sync_pulse_width_px,
        vertical_front_porch_lines,
        vertical_sync_pulse_width_lines,
        horizontal_addressable_video_size_mm,
        vertical_addressable_video_size_mm,
        horizontal_border_px,
        vertical_border_lines,
        signal_interface_type,
        stereo_support,
        sync_signal,
    }
}

} // verus!
