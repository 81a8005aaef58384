//! Tests for the timing decoders: established, standard, detailed and
//! CVT timing codes.

use liboptic_edid::error::Warning;
use liboptic_edid::error::EdidError;
use liboptic_edid::parser::_18bytes::descriptors::cvt;
use liboptic_edid::parser::_18bytes::one;
use liboptic_edid::parser::_18bytes::preferred_tm::{lower_nibble, pixel_clock, upper_nibble};
use liboptic_edid::parser::est_timings;
use liboptic_edid::parser::std_timings;
use liboptic_edid::structures::_18bytes::EighteenByteBlock;
use liboptic_edid::structures::desc::cvt_3_byte_timing::{
    CvtAspectRatio, CvtPreferredVerticalRate,
};
use liboptic_edid::structures::desc::DisplayDescriptor;
use liboptic_edid::structures::std_timings::{STiming, StandardAspectRatio};

#[test]
fn check_pixel_clock_ordering() {
    let one = [0x01, 0x00];
    assert_eq!(pixel_clock(one[0], one[1]), 1_u16);

    let max_minus_one = [0xFE, 0xFF];
    assert_eq!(
        pixel_clock(max_minus_one[0], max_minus_one[1]),
        0b1111_1111_1111_1110
    );
}

#[test]
fn check_nibble_ordering() {
    let shared = 0b1111_0000;
    let byte = 0b0000_0001;

    assert_eq!(upper_nibble(shared, byte), 0b0000_1111_0000_0001);
    assert_eq!(lower_nibble(shared, byte), 0b0000_0000_0000_0001);

    // the other's shouldn't matter. try again with another full shared
    let shared = 0b1111_1111;
    assert_eq!(upper_nibble(shared, byte), 0b0000_1111_0000_0001);
    assert_eq!(lower_nibble(shared, byte), 0b0000_1111_0000_0001);

    // we'll use another byte pattern here
    let shared = 0b1100_0001;
    let byte = 0b1111_0000;
    assert_eq!(upper_nibble(shared, byte), 0b0000_1100_1111_0000);
    assert_eq!(lower_nibble(shared, byte), 0b0000_0001_1111_0000);
}

#[test]
fn standard_timing_sentinels() {
    // [0x01, 0x01] is the conformant unused marker: no warning
    let mut warns: Vec<Warning> = Vec::new();
    assert_eq!(std_timings::one(&[0x01, 0x01], &mut warns), None);
    assert!(warns.is_empty());

    // [0x01, 0x00] also marks an unused slot, but against the standard
    assert_eq!(std_timings::one(&[0x01, 0x00], &mut warns), None);
    assert_eq!(warns, vec![Warning::NonConformantStandardTimingSentinel]);

    // a zero pixel-count byte is invalid, whatever follows it
    for x in [0x00u8, 0x01, 0x37, 0xC0, 0xFF] {
        let mut warns: Vec<Warning> = Vec::new();
        assert_eq!(std_timings::one(&[0x00, x], &mut warns), None);
        assert_eq!(warns, vec![Warning::StandardTimingZeroPixelCount]);
    }
}

#[test]
fn standard_timing_decodes() {
    let mut warns: Vec<Warning> = Vec::new();
    let got = std_timings::one(&[0xD1, 0xC0], &mut warns);
    assert_eq!(
        got,
        Some(STiming {
            horizontal_addr_pixel_ct: 1920,
            aspect_ratio: StandardAspectRatio::_16_9,
            field_refresh_rate: 60,
        })
    );
    assert!(warns.is_empty());

    // 0x81 0x99: 1280 px, 5:4, 25 + 60 Hz
    let got = std_timings::one(&[0x81, 0x99], &mut warns);
    assert_eq!(
        got,
        Some(STiming {
            horizontal_addr_pixel_ct: 1280,
            aspect_ratio: StandardAspectRatio::_5_4,
            field_refresh_rate: 85,
        })
    );
}

#[test]
fn established_timing_bits() {
    let got = est_timings::est_i(0b0010_0001);
    assert!(got._640x480_60hz && got._800x600_60hz);
    assert!(!got._720x400_70hz && !got._800x600_56hz);

    let got = est_timings::est_ii(0b0000_1000);
    assert!(got._1024x768_60hz && !got._1280x1024_75hz);

    let got = est_timings::manufacturer(0b1000_0000);
    assert!(got._1152x870_75hz && !got._0);
}

#[test]
fn detailed_timing_window() {
    // 1440x900 at a 106.5 MHz pixel clock, digital separate sync
    let window: [u8; 18] = [
        0x9A, 0x29, // pixel clock 0x299A = 10650
        0xA0, 0xD0, 0x51, // h addressable 1440, h blanking 464
        0x84, 0x22, 0x30, // v addressable 900, v blanking 34
        0x50, // h front porch 80
        0x98, // h sync width 152
        0x36, // v front porch 3, v sync width 6
        0x00, // the shared 2-bit slices
        0x6F, 0xE5, 0x10, // image size 367 mm x 229 mm
        0x00, 0x00, // borders
        0x1E, // non-interlaced, normal display, digital separate sync
    ];
    let edid = vec![0u8; 128];
    let mut warns: Vec<Warning> = Vec::new();
    let got = one(&window, &edid, &mut warns).unwrap();

    let EighteenByteBlock::Timing(t) = got else {
        panic!("expected a detailed timing");
    };
    assert_eq!(t.pixel_clock_khz, 10650);
    assert_eq!(t.horizontal_addressable_video_px, 1440);
    assert_eq!(t.horizontal_blanking_px, 0x1D0);
    assert_eq!(t.vertical_addressable_video_lines, 900);
    assert_eq!(t.vertical_blanking_lines, 34);
    assert_eq!(t.horizontal_front_porch, 80);
    assert_eq!(t.horizontal_sync_pulse_width_px, 152);
    assert_eq!(t.vertical_front_porch_lines, 3);
    assert_eq!(t.vertical_sync_pulse_width_lines, 6);
    assert_eq!(t.horizontal_addressable_video_size_mm, Some(367));
    assert_eq!(t.vertical_addressable_video_size_mm, Some(229));
}

#[test]
fn single_nonzero_clock_byte_is_still_a_timing() {
    // a window is a descriptor only when BOTH leading bytes are zero
    let mut window = [0u8; 18];
    window[1] = 0x01;
    let edid = vec![0u8; 128];
    let mut warns: Vec<Warning> = Vec::new();
    let got = one(&window, &edid, &mut warns).unwrap();
    let EighteenByteBlock::Timing(t) = got else {
        panic!("expected a detailed timing");
    };
    assert_eq!(t.pixel_clock_khz, 256);
}

#[test]
fn cvt_descriptor_window() {
    let window: [u8; 18] = [
        0x00, 0x00, 0x00, 0xF8, 0x00, // tag and header
        0x01, // version 1
        0x57, 0x18, 0x5F, // first code
        0x00, 0x00, 0x00, // unused
        0x00, 0x00, 0x00, // unused
        0x00, 0x00, 0x00, // unused
    ];
    let edid = vec![0u8; 128];
    let mut warns: Vec<Warning> = Vec::new();
    let got = one(&window, &edid, &mut warns).unwrap();

    let EighteenByteBlock::Display(DisplayDescriptor::Cvt3ByteTimingCodes {
        version_number,
        first,
        second,
        third,
        last,
    }) = got
    else {
        panic!("expected a CVT descriptor");
    };
    assert_eq!(version_number, 1);
    // 0x18: addressable lines (1 << 8) + 0x57 = 343, ratio bits 10
    assert_eq!(first.addressable_lines, 343);
    assert_eq!(first.aspect_ratio, CvtAspectRatio::_16x10);
    // 0x5F: preferred rate bits 10 -> 75 Hz, all five rates supported
    assert_eq!(first.preferred_vertical_rate, CvtPreferredVerticalRate::_75Hz);
    assert!(first.supported_vertical_rates._50_hz_standard);
    assert!(first.supported_vertical_rates._60_hz_reduced);
    assert_eq!(second, None);
    assert_eq!(third, None);
    assert_eq!(last, None);
    assert!(warns.is_empty());
}

#[test]
fn cvt_descriptor_without_first_code_errors() {
    let mut window = [0u8; 18];
    window[3] = 0xF8;
    window[5] = 0x01;
    let edid = vec![0u8; 128];
    let mut warns: Vec<Warning> = Vec::new();
    assert_eq!(
        one(&window, &edid, &mut warns),
        Err(EdidError::DescriptorNoFirstCvt)
    );
}

#[test]
fn cvt_code_reserved_bits_warn() {
    let mut warns: Vec<Warning> = Vec::new();
    let got = cvt::one(0x57, 0x1A, 0x00, &mut warns);
    assert!(got.is_some());
    assert_eq!(warns, vec![Warning::CvtReservedBits]);
}

#[test]
fn cvt_descriptor_reserved_version_warns() {
    let mut window = [0u8; 18];
    window[3] = 0xF8;
    window[5] = 0x02; // anything but 0x01 is reserved
    window[6] = 0x57;
    window[7] = 0x18;
    window[8] = 0x00;
    let edid = vec![0u8; 128];
    let mut warns: Vec<Warning> = Vec::new();
    assert!(one(&window, &edid, &mut warns).is_ok());
    assert_eq!(warns, vec![Warning::CvtReservedVersion]);
}
