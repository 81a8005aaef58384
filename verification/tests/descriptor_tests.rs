//! Tests for the 18-byte block dispatcher and the descriptor
//! sub-decoders.

use liboptic_edid::error::{EdidError, Warning};
use liboptic_edid::parser::_18bytes::descriptors::{
    _13_byte_string, color_point, dcm, iii, more_std_timings, range_limits,
};
use liboptic_edid::parser::_18bytes::one;
use liboptic_edid::ratio::Ratio;
use liboptic_edid::structures::_18bytes::EighteenByteBlock;
use liboptic_edid::structures::color::ColorCoordinate;
use liboptic_edid::structures::desc::color_point::WhitePoint;
use liboptic_edid::structures::desc::display_range_limits::{
    HorizontalOffset, Offsets, PreferredAspectRatio, RangeLimits, RangeLimitsDesc, VerticalOffset,
};
use liboptic_edid::structures::desc::DisplayDescriptor;
use liboptic_edid::structures::std_timings::{STiming, StandardAspectRatio};

fn edid_with_cf() -> Vec<u8> {
    let mut edid = vec![0u8; 128];
    edid[0x18] = 0x01;
    edid
}

#[test]
fn std_sample_thisisatest_string() {
    // note: first five in this array are for a data string descriptor
    let bytes = [
        0x00, 0x00, 0x00, 0xFE, 0x00, 0x54, 0x48, 0x49, 0x53, 0x49, 0x53, 0x41, 0x54, 0x45,
        0x53, 0x54, 0x0a, 0x20,
    ];
    let got = _13_byte_string::parse(&bytes).unwrap();

    let expected = String::from("THISISATEST\n ");
    assert_eq!(got, expected);
}

#[test]
fn std_sample_a0123456789_string() {
    // note: from the serial number descriptor example
    let bytes = [
        0x00, 0x00, 0x00, 0xFF, 0x00, 0x41, 0x30, 0x31, 0x32, 0x33, 0x34, 0x35, 0x36, 0x37,
        0x38, 0x39, 0x0a, 0x20,
    ];
    let got = _13_byte_string::parse(&bytes).unwrap();

    let expected = String::from("A0123456789\n ");
    assert_eq!(got, expected);
}

#[test]
fn serial_window_dispatches_to_product_serial() {
    let window = [
        0x00, 0x00, 0x00, 0xFF, 0x00, 0x41, 0x30, 0x31, 0x32, 0x33, 0x34, 0x35, 0x36, 0x37,
        0x38, 0x39, 0x0a, 0x20,
    ];
    let edid = edid_with_cf();
    let mut warns: Vec<Warning> = Vec::new();
    let got = one(&window, &edid, &mut warns).unwrap();

    assert_eq!(
        got,
        EighteenByteBlock::Display(DisplayDescriptor::ProductSerial(String::from(
            "A0123456789\n "
        )))
    );
}

#[test]
fn non_ascii_text_becomes_question_marks() {
    let window = [
        0x00, 0x00, 0x00, 0xFC, 0x00, 0x80, 0xFF, 0x42, 0x43, 0x44, 0x45, 0x46, 0x47, 0x48,
        0x49, 0x4A, 0x4B, 0x4C,
    ];
    let got = _13_byte_string::parse(&window).unwrap();
    assert_eq!(got, String::from("??BCDEFGHIJKL"));
}

#[test]
fn reserved_kind_is_a_typed_error() {
    let mut window = [0u8; 18];
    window[3] = 0x20;
    let edid = edid_with_cf();
    let mut warns: Vec<Warning> = Vec::new();
    let got = one(&window, &edid, &mut warns);
    assert_eq!(
        got,
        Err(EdidError::DescriptorUsedReservedKind { kind_byte: 0x20 })
    );
}

#[test]
fn malformed_descriptor_header_is_a_typed_error() {
    let mut window = [0u8; 18];
    window[2] = 0x07;
    window[3] = 0xFC;
    let edid = edid_with_cf();
    let mut warns: Vec<Warning> = Vec::new();
    let got = one(&window, &edid, &mut warns);
    assert_eq!(
        got,
        Err(EdidError::DescriptorUnexpectedHeader([0, 0, 0x07, 0xFC, 0]))
    );
}

#[test]
fn dummy_and_manufacturer_windows() {
    let edid = edid_with_cf();
    let mut warns: Vec<Warning> = Vec::new();

    let mut dummy = [0u8; 18];
    dummy[3] = 0x10;
    let got = one(&dummy, &edid, &mut warns).unwrap();
    assert_eq!(got, EighteenByteBlock::Display(DisplayDescriptor::DummyDescriptor));
    assert!(warns.is_empty());

    // a dummy descriptor carrying data draws a warning
    dummy[9] = 0x55;
    let got = one(&dummy, &edid, &mut warns).unwrap();
    assert_eq!(got, EighteenByteBlock::Display(DisplayDescriptor::DummyDescriptor));
    assert_eq!(warns, vec![Warning::DummyDescriptorNonZero]);

    let mut manufacturer = [0u8; 18];
    manufacturer[3] = 0x0B;
    manufacturer[7] = 0xAB;
    let got = one(&manufacturer, &edid, &mut warns).unwrap();
    assert_eq!(
        got,
        EighteenByteBlock::Display(DisplayDescriptor::Manufacturer { data: manufacturer })
    );
}

#[test]
fn _fictional_color_point() {
    // no real capture out of about 100k uses this block, so the data
    // is made up
    let data = [
        // indicate that this is a valid color point descriptor
        0x00,
        0x00,
        0x00,
        0xFB,
        0x00,
        ///////////////
        //
        // start with w1
        1,           // white point index: 1
        0b0000_1100, // w1 shared (x: b11, y: b00)
        0b0000_1111, // w1x has its lower bits set only. that's 0b1111_11
        0b1000_0000, // w1y just has its highest bit set. => 0b10_0000_0000
        254,         // gamma is the highest allowed, 3.54
        ///////////////
        //
        // ok now here's w2
        2,
        0b0000_0001, // shared (x: b00, y: b01),
        0b0100_0000, // x: only has its second-highest bit
        0b1111_0001, // y
        23,          // gamma of 1.23
        ///////////////
        //
        // unused/reserved bytes
        0xff,
        0x0a,
        0x0a,
    ];
    let mut warns: Vec<Warning> = Vec::new();
    let got = color_point::parse(&data, &mut warns);

    let expected = DisplayDescriptor::ColorPointData {
        w1: WhitePoint {
            index_number: 1,
            coord: ColorCoordinate::new(Ratio::new(63, 1024), Ratio::new(1, 2)),
            gamma: Some(Ratio::new(354, 100)),
        },
        w2: WhitePoint {
            index_number: 2,
            coord: ColorCoordinate::new(Ratio::new(1, 4), Ratio::new(965, 1024)),
            gamma: Some(Ratio::new(123, 100)),
        },
    };

    assert_eq!(got, expected);
}

#[test]
fn more_std_timings_window() {
    let window = [
        0x00, 0x00, 0x00, 0xFA, 0x00, // two used slots, then sentinels
        0xD1, 0xC0, 0x81, 0x40, 0x01, 0x01, 0x01, 0x01, 0x01, 0x01, 0x01, 0x01, 0x0A,
    ];
    let mut warns: Vec<Warning> = Vec::new();
    let got = more_std_timings::parse(&window, &mut warns).unwrap();

    let expected = DisplayDescriptor::StandardTimingIdentifications {
        _9: Some(STiming {
            horizontal_addr_pixel_ct: 1920,
            aspect_ratio: StandardAspectRatio::_16_9,
            field_refresh_rate: 60,
        }),
        _10: Some(STiming {
            horizontal_addr_pixel_ct: 1280,
            aspect_ratio: StandardAspectRatio::_4_3,
            field_refresh_rate: 60,
        }),
        _11: None,
        _12: None,
        _13: None,
        _14: None,
    };
    assert_eq!(got, expected);
    assert!(warns.is_empty());
}

#[test]
fn more_std_timings_reserved_final_byte_warns() {
    let mut window = [0u8; 18];
    window[3] = 0xFA;
    for i in 0..6 {
        window[5 + 2 * i] = 0x01;
        window[6 + 2 * i] = 0x01;
    }
    window[17] = 0x00;
    let mut warns: Vec<Warning> = Vec::new();
    let got = more_std_timings::parse(&window, &mut warns).unwrap();
    assert_eq!(
        got,
        DisplayDescriptor::StandardTimingIdentifications {
            _9: None,
            _10: None,
            _11: None,
            _12: None,
            _13: None,
            _14: None,
        }
    );
    assert_eq!(warns, vec![Warning::MoreStandardTimingsReservedByte]);
}

#[test]
fn white_point_reserved_index_warns() {
    let mut window = [0u8; 18];
    window[3] = 0xFB;
    window[5] = 0x00; // the first white point uses the reserved index
    window[10] = 0x02;
    window[9] = 0xFF; // no gamma for the first point
    window[14] = 0xFF;
    let mut warns: Vec<Warning> = Vec::new();
    let got = color_point::parse(&window, &mut warns);
    let DisplayDescriptor::ColorPointData { w1, w2 } = got else {
        panic!("expected color point data");
    };
    assert_eq!(w1.gamma, None);
    assert_eq!(w2.index_number, 2);
    assert_eq!(warns, vec![Warning::WhitePointReservedIndex]);
}

#[test]
fn dcm_window_decodes_coefficients() {
    let window = [
        0x00, 0x00, 0x00, 0xF9, 0x00, 0x03, // version 3
        0x34, 0x12, // red a3, little endian
        0x78, 0x56, // red a2
        0x01, 0x00, // green a3
        0x00, 0x01, // green a2
        0xFF, 0x00, // blue a3
        0x00, 0xFF, // blue a2
    ];
    let mut warns: Vec<Warning> = Vec::new();
    let got = dcm::parse(&window, &mut warns);
    assert_eq!(
        got,
        DisplayDescriptor::DcmData {
            version_number: 3,
            red_a3: 0x1234,
            red_a2: 0x5678,
            green_a3: 1,
            green_a2: 256,
            blue_a3: 255,
            blue_a2: 0xFF00,
        }
    );
    assert!(warns.is_empty());

    // any other version is reserved and only warns
    let mut reserved = window;
    reserved[5] = 0x00;
    let _ = dcm::parse(&reserved, &mut warns);
    assert_eq!(warns, vec![Warning::DcmReservedVersion]);
}

#[test]
fn established_timings_iii_window() {
    let mut window = [0u8; 18];
    window[3] = 0xF7;
    window[6] = 0b1000_0001; // 640x350@85 and 1152x864@75
    window[9] = 0b0000_0100; // 1600x1200@60
    let mut warns: Vec<Warning> = Vec::new();
    let got = iii::parse(&window, &mut warns).unwrap();
    let DisplayDescriptor::EstablishedTimingsIII {
        _640x350_85hz,
        _1152x864_75hz,
        _1600x1200_60hz,
        _1920x1440_75hz,
        ..
    } = got
    else {
        panic!("expected an established timings descriptor");
    };
    assert!(_640x350_85hz && _1152x864_75hz && _1600x1200_60hz);
    assert!(!_1920x1440_75hz);
    assert!(warns.is_empty());

    // reserved space in use only warns
    window[12] = 0x01;
    let _ = iii::parse(&window, &mut warns).unwrap();
    assert_eq!(warns, vec![Warning::EstablishedTimingsIiiReservedBits]);
}

fn range_limits_window(vts: u8) -> [u8; 18] {
    let mut w = [0u8; 18];
    w[3] = 0xFD;
    // offsets byte 4 zero; BCD rates; BCD pixel clock
    w[4] = 0x00;
    w[5] = 0x56;
    w[6] = 0x75;
    w[7] = 0x30;
    w[8] = 0x81;
    w[9] = 0x14;
    w[10] = vts;
    w
}

fn expected_limits() -> RangeLimits {
    RangeLimits {
        min_v_rate_hz: 56,
        max_v_rate_hz: 75,
        min_h_rate_khz: 30,
        max_h_rate_khz: 81,
        offsets: Offsets {
            vertical: VerticalOffset::Zero,
            horizontal: HorizontalOffset::Zero,
        },
        max_pixel_clock_mhz: 140,
    }
}

#[test]
fn range_limits_gtf_window() {
    let window = range_limits_window(0x00);
    let edid = edid_with_cf();
    let mut warns: Vec<Warning> = Vec::new();
    let got = range_limits::parse(&window, &edid, &mut warns).unwrap();

    assert_eq!(got, RangeLimitsDesc::GtfSupported { limits: expected_limits() });
    assert!(warns.is_empty());
}

#[test]
fn range_limits_flexible_copies_continuous_frequency() {
    let window = range_limits_window(0x01);
    let mut warns: Vec<Warning> = Vec::new();

    let with_cf = range_limits::parse(&window, &edid_with_cf(), &mut warns).unwrap();
    assert_eq!(
        with_cf,
        RangeLimitsDesc::LimitsOnly { limits: expected_limits(), flexible: true }
    );

    let without_cf = range_limits::parse(&window, &vec![0u8; 128], &mut warns).unwrap();
    assert_eq!(
        without_cf,
        RangeLimitsDesc::LimitsOnly { limits: expected_limits(), flexible: false }
    );
}

#[test]
fn range_limits_gtf_without_cf_flag_warns() {
    let window = range_limits_window(0x00);
    let edid = vec![0u8; 128];
    let mut warns: Vec<Warning> = Vec::new();
    let got = range_limits::parse(&window, &edid, &mut warns).unwrap();
    assert_eq!(got, RangeLimitsDesc::GtfSupported { limits: expected_limits() });
    assert_eq!(warns, vec![Warning::ContinuousFrequencyMismatch]);
}

#[test]
fn range_limits_offsets_applied() {
    let mut window = range_limits_window(0x01);
    // vertical max-and-min offsets, horizontal max-only
    window[4] = 0b0000_1011;
    let mut warns: Vec<Warning> = Vec::new();
    let got = range_limits::parse(&window, &edid_with_cf(), &mut warns).unwrap();

    let expected = RangeLimits {
        min_v_rate_hz: 56 + 255,
        max_v_rate_hz: 75 + 255,
        min_h_rate_khz: 30,
        max_h_rate_khz: 81 + 255,
        offsets: Offsets {
            vertical: VerticalOffset::Max255Hz_Min255Hz,
            horizontal: HorizontalOffset::Max255kHz_MinNotOffset,
        },
        max_pixel_clock_mhz: 140,
    };
    assert_eq!(got, RangeLimitsDesc::LimitsOnly { limits: expected, flexible: true });
}

#[test]
fn range_limits_reserved_bits_and_flags_error() {
    let edid = edid_with_cf();
    let mut warns: Vec<Warning> = Vec::new();

    let mut window = range_limits_window(0x01);
    window[4] = 0xA0;
    assert_eq!(
        range_limits::parse(&window, &edid, &mut warns),
        Err(EdidError::DescriptorRangeLimitsUsedReservedBits { input: 0xA0 })
    );

    // the 2-bit sub-code 1 is reserved in each direction
    let mut window = range_limits_window(0x01);
    window[4] = 0b0000_0001;
    assert_eq!(
        range_limits::parse(&window, &edid, &mut warns),
        Err(EdidError::DescriptorRangeLimitsUsedReservedBits { input: 0b0000_0001 })
    );

    let window = range_limits_window(0x03);
    assert_eq!(
        range_limits::parse(&window, &edid, &mut warns),
        Err(EdidError::DescriptorRangeLimitsUsedReservedVTSFlag { flag: 0x03 })
    );

    // a rate byte that is not packed BCD
    let mut window = range_limits_window(0x01);
    window[6] = 0x3C;
    assert_eq!(
        range_limits::parse(&window, &edid, &mut warns),
        Err(EdidError::BcdError)
    );
}

#[test]
fn range_limits_zero_rate_warns() {
    let mut window = range_limits_window(0x01);
    window[7] = 0x00; // a minimum horizontal rate of zero
    let mut warns: Vec<Warning> = Vec::new();
    let got = range_limits::parse(&window, &edid_with_cf(), &mut warns).unwrap();
    let RangeLimitsDesc::LimitsOnly { limits, .. } = got else {
        panic!("expected a limits-only block");
    };
    assert_eq!(limits.min_h_rate_khz, 0);
    assert_eq!(warns, vec![Warning::RangeLimitsRateZero]);
}

#[test]
fn range_limits_gtf_secondary_curve() {
    let mut window = range_limits_window(0x02);
    window[12] = 40; // start break frequency: stored halved
    window[13] = 0x28;
    window[14] = 0x90; // M, little endian
    window[15] = 0x01;
    window[16] = 0x17;
    window[17] = 0x32;
    let mut warns: Vec<Warning> = Vec::new();
    let got = range_limits::parse(&window, &edid_with_cf(), &mut warns).unwrap();
    assert_eq!(
        got,
        RangeLimitsDesc::GtfSecondaryCurveSupported {
            limits: expected_limits(),
            start_break_freq: 80,
            c2: 0x28,
            m: 0x190,
            k: 0x17,
            j2: 0x32,
        }
    );
    assert!(warns.is_empty());

    // a non-zero reserved byte 11 only warns
    window[11] = 0x01;
    let _ = range_limits::parse(&window, &edid_with_cf(), &mut warns).unwrap();
    assert_eq!(warns, vec![Warning::GtfSecondaryReservedByte]);
}

#[test]
fn cvt_preferred_aspect_ratio_decode() {
    let edid = edid_with_cf();

    // bit patterns over byte 15's top three bits
    let cases = [
        (0b000u8, PreferredAspectRatio::_4x3),
        (0b001u8, PreferredAspectRatio::_16x9),
        (0b100u8, PreferredAspectRatio::_15x9),
    ];
    for (bits, expected) in cases {
        let mut window = range_limits_window(0x04);
        window[15] = bits << 5;
        let mut warns: Vec<Warning> = Vec::new();
        let got = range_limits::parse(&window, &edid, &mut warns).unwrap();
        let RangeLimitsDesc::CvtSupported { preferred_aspect_ratio, .. } = got else {
            panic!("expected a CVT block");
        };
        assert_eq!(preferred_aspect_ratio, expected);
    }

    // the all-ones pattern is reserved and must be a hard error
    let mut window = range_limits_window(0x04);
    window[15] = 0b111 << 5;
    let mut warns: Vec<Warning> = Vec::new();
    assert_eq!(
        range_limits::parse(&window, &edid, &mut warns),
        Err(EdidError::DescriptorRangeLimitsCvtReservedBits)
    );
}

#[test]
fn range_limits_getters() {
    let limits = expected_limits();
    let desc = RangeLimitsDesc::GtfSupported { limits };
    assert_eq!(desc.limits(), limits);

    assert!(!limits.offsets.is_offset());
    assert!(!limits.offsets.vertical.has_max());
    assert!(!limits.offsets.vertical.has_min());

    // one offset direction alone is already an offset
    let horizontal_only = Offsets {
        vertical: VerticalOffset::Zero,
        horizontal: HorizontalOffset::Max255kHz_MinNotOffset,
    };
    assert!(horizontal_only.is_offset());

    let offsets = Offsets {
        vertical: VerticalOffset::Max255Hz_Min255Hz,
        horizontal: HorizontalOffset::Max255kHz_MinNotOffset,
    };
    assert!(offsets.is_offset());
    assert!(offsets.vertical.has_max() && offsets.vertical.has_min());
    assert!(offsets.horizontal.has_max() && !offsets.horizontal.has_min());
}

#[test]
fn cvt_enhanced_pixel_clock_precision() {
    let edid = edid_with_cf();
    let mut window = range_limits_window(0x04);
    // a subtrahend of 5 in byte 12's top six bits: 140 MHz - 1.25 MHz
    window[12] = 5 << 2;
    // and a maximum active pixel count of (1 * 256 + 0x20) * 8
    window[12] |= 0b01;
    window[13] = 0x20;
    let mut warns: Vec<Warning> = Vec::new();
    let got = range_limits::parse(&window, &edid, &mut warns).unwrap();
    let RangeLimitsDesc::CvtSupported {
        enhanced_px_clk_quarter_mhz,
        maximum_active_pxls_per_line,
        ..
    } = got
    else {
        panic!("expected a CVT block");
    };
    assert_eq!(enhanced_px_clk_quarter_mhz, 140 * 4 - 5);
    assert_eq!(maximum_active_pxls_per_line, Some((256 + 0x20) * 8));
}
