//! Tests for the basic display parameters decoder.

use liboptic_edid::error::{EdidError, Warning};
use liboptic_edid::parser::basic_info::{
    feature_support, gamma, make_ratio, size_or_ratio, video_input_definition,
};
use liboptic_edid::ratio::Ratio;
use liboptic_edid::structures::basic_info::{
    ColorBitDepth, ColorEncodingFormats, ColorSupport, ColorType, SizeOrRatio,
    SupportedVideoInterface, VideoSignalInterface,
};

#[test]
fn digital_displayport_vsi() {
    // the byte a Dell S2417DG reports: digital, 8 bits, DisplayPort
    let got = video_input_definition(0xA5).unwrap();
    let expected = VideoSignalInterface::Digital {
        color_bit_depth: ColorBitDepth::D8Bits,
        supported_interface: Some(SupportedVideoInterface::DisplayPort),
    };
    assert_eq!(got, expected);
}

#[test]
fn digital_unreported_interface_vsi() {
    let got = video_input_definition(0b1001_0000).unwrap();
    let expected = VideoSignalInterface::Digital {
        color_bit_depth: ColorBitDepth::D6Bits,
        supported_interface: None,
    };
    assert_eq!(got, expected);
}

#[test]
fn digital_reserved_interface_code_errors() {
    for code in 6..=15u8 {
        let got = video_input_definition(0b1000_0000 | code);
        assert_eq!(got, Err(EdidError::UnknownDigitalInterface(code)));
    }
}

#[test]
fn analog_vsi_decodes_every_bit() {
    let got = video_input_definition(0b0110_1001).unwrap();
    let VideoSignalInterface::Analog { signal_level_standard: _, sync_types, serrations, .. } =
        got
    else {
        panic!("expected an analog interface");
    };
    assert!(sync_types.separate_sync_h_and_v);
    assert!(!sync_types.composite_sync_horizontal);
    assert!(!sync_types.composite_sync_green_video);
    assert!(serrations);
}

#[test]
fn lotta_aspect_ratios() {
    assert_eq!(make_ratio(79_u8), Some((16, 9)));
    assert_eq!(make_ratio(61_u8), Some((16, 10)));
    assert_eq!(make_ratio(34_u8), Some((4, 3)));
    assert_eq!(make_ratio(26_u8), Some((5, 4)));
    assert_eq!(make_ratio(5_u8), Some((3, 2)));
    assert_eq!(make_ratio(134_u8), Some((21, 9)));

    // some codes outside the named table, via the fallback formula
    assert_eq!(make_ratio(16_u8), Some((29, 25)));
    assert_eq!(make_ratio(45_u8), Some((29, 20)));
    assert_eq!(make_ratio(255_u8), Some((71, 20)));
}

#[test]
fn screen_size_and_ratio_variants() {
    let mut warns: Vec<Warning> = Vec::new();

    let mut input = vec![0u8; 128];
    assert_eq!(size_or_ratio(&input, &mut warns), None);

    // both bytes set: centimeter dimensions
    input[0x15] = 53;
    input[0x16] = 30;
    assert_eq!(
        size_or_ratio(&input, &mut warns),
        Some(SizeOrRatio::ScreenSize { vertical_cm: 30, horizontal_cm: 53 })
    );

    // a zero vertical byte makes the other a landscape ratio code
    input[0x15] = 79;
    input[0x16] = 0;
    assert_eq!(
        size_or_ratio(&input, &mut warns),
        Some(SizeOrRatio::AspectRatio { horizontal: 16, vertical: 9 })
    );

    // and a zero horizontal byte a portrait one
    input[0x15] = 0;
    input[0x16] = 79;
    assert_eq!(
        size_or_ratio(&input, &mut warns),
        Some(SizeOrRatio::AspectRatio { horizontal: 9, vertical: 16 })
    );
    assert!(warns.is_empty());

    // the extreme code is tolerated with a precision-loss warning
    input[0x15] = 255;
    input[0x16] = 0;
    assert_eq!(
        size_or_ratio(&input, &mut warns),
        Some(SizeOrRatio::AspectRatio { horizontal: 71, vertical: 20 })
    );
    assert_eq!(warns, vec![Warning::AspectRatioPrecisionLoss]);
}

#[test]
fn gamma_bytes() {
    let mut warns: Vec<Warning> = Vec::new();
    let mut input = vec![0u8; 128];

    // 120 encodes a gamma of 2.20
    input[0x17] = 120;
    assert_eq!(gamma(&input, &mut warns), Some(Ratio::new(220, 100)));
    assert!(warns.is_empty());

    // 0xFF defers the gamma to an extension block
    input[0x17] = 0xFF;
    assert_eq!(gamma(&input, &mut warns), None);
    assert!(warns.is_empty());

    // zero is out of spec but tolerated: gamma 1.00 with a warning
    input[0x17] = 0x00;
    assert_eq!(gamma(&input, &mut warns), Some(Ratio::new(1, 1)));
    assert_eq!(warns, vec![Warning::GammaZeroByte]);
}

#[test]
fn feature_support_color_branches() {
    // the same flag byte reads as encoding formats on digital inputs
    let digital = feature_support(0x80, 0b0000_1000);
    assert_eq!(
        digital.color_support,
        ColorSupport::EncodingFormats(ColorEncodingFormats::Rgb444_YCrCb444)
    );

    // and as a color type on analog ones
    let analog = feature_support(0x00, 0b0000_1000);
    assert_eq!(analog.color_support, ColorSupport::Type(ColorType::RgbColor));

    assert!(!digital.srgb_std && !digital.says_pixel_format_and_refresh);
    assert!(!digital.is_continuous_freq);
    let flags = feature_support(0x00, 0b1110_0111);
    assert!(flags.power_management.standby);
    assert!(flags.power_management.suspend);
    assert!(flags.power_management.active_off);
    assert!(flags.srgb_std && flags.says_pixel_format_and_refresh && flags.is_continuous_freq);
}
