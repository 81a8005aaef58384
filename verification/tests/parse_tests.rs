//! End-to-end decode tests over a full, hand-built base EDID block.

use liboptic_edid::error::{EdidError, Warning};
use liboptic_edid::parser::{check_checksum, header, make_checksum, parse, parse_with_warnings};
use liboptic_edid::ratio::Ratio;
use liboptic_edid::structures::_18bytes::EighteenByteBlock;
use liboptic_edid::structures::basic_info::{
    ColorBitDepth, SizeOrRatio, SupportedVideoInterface, VideoSignalInterface,
};
use liboptic_edid::structures::desc::display_range_limits::RangeLimitsDesc;
use liboptic_edid::structures::desc::DisplayDescriptor;
use liboptic_edid::structures::id::{Date, Manufacturer};
use liboptic_edid::structures::std_timings::{STiming, StandardAspectRatio};
use liboptic_edid::Edid;

/// Builds a complete, conformant base EDID block.
fn sample_edid() -> Vec<u8> {
    let mut b = vec![0u8; 128];
    // the fixed header magic
    b[0..8].copy_from_slice(&[0x00, 0xFF, 0xFF, 0xFF, 0xFF, 0xFF, 0xFF, 0x00]);
    // vendor/product: "DEL", product 41191, serial 1, week 28 of 2018
    b[0x08..0x12].copy_from_slice(&[0x10, 0xAC, 0xE7, 0xA0, 0x01, 0x00, 0x00, 0x00, 28, 28]);
    // EDID 1.4
    b[0x12] = 0x01;
    b[0x13] = 0x04;
    // digital input, 8 bits per color, DisplayPort
    b[0x14] = 0xA5;
    // 53 cm x 30 cm, gamma 2.2, sRGB default
    b[0x15] = 53;
    b[0x16] = 30;
    b[0x17] = 120;
    b[0x18] = 0x04;
    // color characteristics of a real capture
    b[0x19..0x23]
        .copy_from_slice(&[0xEE, 0x91, 0xA3, 0x54, 0x4C, 0x99, 0x26, 0x0F, 0x50, 0x54]);
    // established timings: 640x480@60, 800x600@60, 1024x768@60
    b[0x23] = 0x21;
    b[0x24] = 0x08;
    // one standard timing, the rest unused
    b[0x26] = 0xD1;
    b[0x27] = 0xC0;
    for i in 0..7 {
        b[0x28 + 2 * i] = 0x01;
        b[0x29 + 2 * i] = 0x01;
    }
    // preferred timing: 1440x900 at 106.5 MHz
    b[0x36..0x48].copy_from_slice(&[
        0x9A, 0x29, 0xA0, 0xD0, 0x51, 0x84, 0x22, 0x30, 0x50, 0x98, 0x36, 0x00, 0x6F, 0xE5,
        0x10, 0x00, 0x00, 0x1E,
    ]);
    // product name descriptor
    b[0x48..0x5A].copy_from_slice(&[
        0x00, 0x00, 0x00, 0xFC, 0x00, b'D', b'e', b'l', b'l', b' ', b'S', b'2', b'4', b'1',
        b'7', b'D', b'G', 0x0A,
    ]);
    // range limits, limits only
    b[0x5A..0x6C].copy_from_slice(&[
        0x00, 0x00, 0x00, 0xFD, 0x00, 0x56, 0x75, 0x30, 0x81, 0x14, 0x01, 0x0A, 0x20, 0x20,
        0x20, 0x20, 0x20, 0x20,
    ]);
    // a dummy descriptor
    b[0x6C] = 0x00;
    b[0x6F] = 0x10;
    // no extension blocks; make the block sum to zero
    b[0x7E] = 0x00;
    b[0x7F] = make_checksum(&b);
    b
}

#[test]
fn sample_edid_decodes_fully() {
    let bytes = sample_edid();
    let edid = Edid::new(&bytes).unwrap();

    assert_eq!(
        edid.vendor_product_info.manufacturer_name,
        Manufacturer::Name(String::from("Dell Inc."))
    );
    assert_eq!(edid.vendor_product_info.product_code, 41191);
    assert_eq!(edid.vendor_product_info.serial_number, Some(1));
    assert_eq!(
        edid.vendor_product_info.date,
        Date::Manufacture { week: Some(28), year: 2018 }
    );

    assert_eq!(edid.version.version, 0x1);
    assert_eq!(edid.version.revision, 0x4);

    assert_eq!(
        edid.basic_display_info.input_definition,
        VideoSignalInterface::Digital {
            color_bit_depth: ColorBitDepth::D8Bits,
            supported_interface: Some(SupportedVideoInterface::DisplayPort),
        }
    );
    assert_eq!(
        edid.basic_display_info.screen_size_or_aspect_ratio,
        Some(SizeOrRatio::ScreenSize { vertical_cm: 30, horizontal_cm: 53 })
    );
    assert_eq!(edid.basic_display_info.reported_gamma, Some(Ratio::new(11, 5)));
    assert!(edid.basic_display_info.feature_support.srgb_std);
    assert!(!edid.basic_display_info.feature_support.is_continuous_freq);

    assert_eq!(edid.color_characteristics.red.x, Ratio::new(655, 1024));
    assert_eq!(edid.color_characteristics.white_point.x, Ratio::new(320, 1024));

    assert!(edid.established_timings.i._640x480_60hz);
    assert!(edid.established_timings.i._800x600_60hz);
    assert!(edid.established_timings.ii._1024x768_60hz);
    assert!(!edid.established_timings.manufacturer_timings._1152x870_75hz);

    assert_eq!(
        edid.standard_timings.st1,
        Some(STiming {
            horizontal_addr_pixel_ct: 1920,
            aspect_ratio: StandardAspectRatio::_16_9,
            field_refresh_rate: 60,
        })
    );
    assert_eq!(edid.standard_timings.st2, None);

    let EighteenByteBlock::Timing(preferred) =
        &edid.eighteen_byte_data_blocks.preferred_timing_mode
    else {
        panic!("the first window should be the preferred timing");
    };
    assert_eq!(preferred.pixel_clock_khz, 10650);
    assert_eq!(preferred.horizontal_addressable_video_px, 1440);
    assert_eq!(preferred.vertical_addressable_video_lines, 900);

    assert_eq!(
        edid.eighteen_byte_data_blocks.blocks[0],
        EighteenByteBlock::Display(DisplayDescriptor::ProductName(String::from(
            "Dell S2417DG\n"
        )))
    );
    let EighteenByteBlock::Display(DisplayDescriptor::DisplayRangeLimits(
        RangeLimitsDesc::LimitsOnly { limits, flexible },
    )) = &edid.eighteen_byte_data_blocks.blocks[1]
    else {
        panic!("the third window should hold range limits");
    };
    assert_eq!(limits.min_v_rate_hz, 56);
    assert_eq!(limits.max_v_rate_hz, 75);
    assert_eq!(limits.min_h_rate_khz, 30);
    assert_eq!(limits.max_h_rate_khz, 81);
    assert_eq!(limits.max_pixel_clock_mhz, 140);
    assert!(!flexible);
    assert_eq!(
        edid.eighteen_byte_data_blocks.blocks[2],
        EighteenByteBlock::Display(DisplayDescriptor::DummyDescriptor)
    );

    assert_eq!(edid.extension_info, 0);
    // the checksum byte is stored as observed, and the block checks out
    assert_eq!(edid.checksum, bytes[0x7F]);
    assert!(check_checksum(&bytes));

    // a conformant block decodes without a single warning
    let (result, warns) = parse_with_warnings(&bytes);
    assert!(result.is_ok());
    assert!(warns.is_empty());
}

#[test]
fn bad_checksum_is_tolerated_and_reported() {
    let mut bytes = sample_edid();
    bytes[0x7F] = bytes[0x7F].wrapping_add(1);

    let (result, warns) = parse_with_warnings(&bytes);
    let edid = result.unwrap();
    // still stored as observed
    assert_eq!(edid.checksum, bytes[0x7F]);
    assert!(!check_checksum(&bytes));
    assert_eq!(warns, vec![Warning::ChecksumMismatch]);
}

#[test]
fn warnings_come_in_stage_order() {
    let mut bytes = sample_edid();
    // a revision above the supported pair, an undefined gamma byte,
    // and a checksum that no longer matches
    bytes[0x13] = 0x05;
    bytes[0x17] = 0x00;
    let (result, warns) = parse_with_warnings(&bytes);
    assert!(result.is_ok());
    assert_eq!(
        warns,
        vec![
            Warning::VersionAboveSupported,
            Warning::GammaZeroByte,
            Warning::ChecksumMismatch,
        ]
    );
}

#[test]
fn empty() {
    let empty_input = [];
    let result = header::parse(empty_input.as_slice());

    assert!(result.is_err());
}

#[test]
fn header_too_short_variant() {
    let result = header::parse(&[0x00, 0xFF]);
    assert_eq!(
        result,
        Err(EdidError::HeaderTooShort { real_len: 2, expected_len: 8 })
    );
}

#[test]
fn checksum_helpers_agree() {
    let bytes = sample_edid();
    // the sum of all 128 bytes is a multiple of 256 exactly because
    // the last byte was set to the computed complement
    let total = liboptic_edid::parser::add(&bytes);
    assert_eq!(total % 256, 0);
    assert_eq!(make_checksum(&bytes), bytes[0x7F]);

    let mut broken = bytes;
    broken[0x20] = broken[0x20].wrapping_add(3);
    assert!(!check_checksum(&broken));
    assert_ne!(make_checksum(&broken), broken[0x7F]);
}

#[test]
fn too_short_input() {
    let bytes = sample_edid();
    let result = parse(&bytes[..100]);
    assert_eq!(result, Err(EdidError::TooShort { got: 100, expected: 0x80 }));
}

#[test]
fn missing_header_magic() {
    let mut bytes = sample_edid();
    bytes[0] = 0x42;
    assert_eq!(parse(&bytes), Err(EdidError::NoHeader));
}

#[test]
fn zero_vendor_codes_abort_the_decode() {
    let mut bytes = sample_edid();
    bytes[0x08] = 0x00;
    bytes[0x09] = 0x00;
    assert_eq!(parse(&bytes), Err(EdidError::IdNoZeroesAllowed));
}

#[test]
fn reserved_descriptor_kind_aborts_the_decode() {
    let mut bytes = sample_edid();
    // turn the dummy descriptor into a reserved-tag one
    bytes[0x6F] = 0x20;
    assert_eq!(
        parse(&bytes),
        Err(EdidError::DescriptorUsedReservedKind { kind_byte: 0x20 })
    );
}

#[test]
fn reserved_digital_interface_aborts_the_decode() {
    let mut bytes = sample_edid();
    bytes[0x14] = 0x87;
    assert_eq!(parse(&bytes), Err(EdidError::UnknownDigitalInterface(0x07)));
}

#[test]
fn version_above_supported_warns() {
    let mut bytes = sample_edid();
    bytes[0x13] = 0x05;
    bytes[0x7F] = make_checksum(&bytes);
    let (result, warns) = parse_with_warnings(&bytes);
    assert!(result.is_ok());
    assert_eq!(warns, vec![Warning::VersionAboveSupported]);
}

#[test]
fn continuous_frequency_without_range_limits_warns() {
    let mut bytes = sample_edid();
    // claim continuous frequency, but replace the range limits
    // descriptor with a dummy one
    bytes[0x18] |= 0x01;
    bytes[0x5A..0x6C].copy_from_slice(&[
        0x00, 0x00, 0x00, 0x10, 0x00, 0x00, 0x00, 0x00, 0x00, 0x00, 0x00, 0x00, 0x00, 0x00,
        0x00, 0x00, 0x00, 0x00,
    ]);
    bytes[0x7F] = make_checksum(&bytes);
    let (result, warns) = parse_with_warnings(&bytes);
    assert!(result.is_ok());
    assert_eq!(warns, vec![Warning::MissingRangeLimits]);
}

#[test]
fn first_window_as_descriptor_warns() {
    let mut bytes = sample_edid();
    // swap the preferred timing for a dummy descriptor
    bytes[0x36..0x48].copy_from_slice(&[
        0x00, 0x00, 0x00, 0x10, 0x00, 0x00, 0x00, 0x00, 0x00, 0x00, 0x00, 0x00, 0x00, 0x00,
        0x00, 0x00, 0x00, 0x00,
    ]);
    bytes[0x7F] = make_checksum(&bytes);
    let (result, warns) = parse_with_warnings(&bytes);
    assert!(result.is_ok());
    assert_eq!(warns, vec![Warning::FirstBlockNotTiming]);
}
