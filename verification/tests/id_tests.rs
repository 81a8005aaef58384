//! Tests for the vendor/product identity decoder.

use liboptic_edid::error::EdidError;
use liboptic_edid::parser::id::{convert_5bit_ascii, convert_5bit_ascii_slice, parse, vendor};
use liboptic_edid::structures::id::{Date, Manufacturer};

#[test]
fn test_5bit() {
    // these are the end points, so they should work.
    let a = convert_5bit_ascii(0b00001).unwrap();
    let z = convert_5bit_ascii(0b11010).unwrap();

    assert_eq!(a, 'A');
    assert_eq!(z, 'Z');

    // we're one-indexed, not zero-indexed. so 0x0 should fail
    let zero = convert_5bit_ascii(0b00000);
    assert!(zero.is_err());

    // we'll also check every letter, just to be safe.
    let chars = 'A'..='Z';
    let numbers = 0b00001..=0b11010;

    for (code, expected_char) in numbers.zip(chars) {
        let actual = convert_5bit_ascii(code).unwrap();
        assert_eq!(expected_char, actual);
    }
}

#[test]
fn test_5bit_dell() {
    let arr: [u8; 3] = [
        0x04, // 'D'
        0x05, // 'E',
        0x0C, // 'L',
    ];

    assert_eq!(convert_5bit_ascii_slice(arr).unwrap(), ['D', 'E', 'L']);
}

#[test]
fn code_zero_and_out_of_bounds_errors() {
    assert!(matches!(
        convert_5bit_ascii(0),
        Err(EdidError::IdNoZeroesAllowed)
    ));
    for code in 27..=31u8 {
        assert!(matches!(
            convert_5bit_ascii(code),
            Err(EdidError::CharOutOfBounds(c)) if c == code
        ));
    }
}

#[test]
fn vendor_resolves_registered_id() {
    // 0x10AC packs the codes for "DEL"
    let got = vendor(0x10, 0xAC).unwrap();
    assert_eq!(got, Manufacturer::Name(String::from("Dell Inc.")));
}

#[test]
fn vendor_falls_back_to_raw_code() {
    // codes 26, 17, 24 spell "ZQX", which no vendor registered
    let b0 = 0b0_11010_10u8;
    let b1 = 0b001_11000u8;
    let got = vendor(b0, b1).unwrap();
    assert_eq!(got, Manufacturer::Id(String::from("ZQX")));
}

#[test]
fn vendor_zero_code_is_hard_error() {
    // all-zero id bytes hold three zero codes
    assert!(matches!(vendor(0x00, 0x00), Err(EdidError::IdNoZeroesAllowed)));
}

/// The vendor-product bytes of a real Dell S2417DG capture.
#[test]
fn dell_s2417dg_identity_block() {
    let mut input = vec![0u8; 128];
    // manufacturer "DEL", product code 41191, serial 1,
    // week 28 of year 2018
    let id_bytes = [0x10, 0xAC, 0xE7, 0xA0, 0x01, 0x00, 0x00, 0x00, 28, 28];
    input[0x08..0x12].copy_from_slice(&id_bytes);

    let vendor_product_info = parse(&input).unwrap();

    let Date::Manufacture { week, year } = vendor_product_info.date else {
        panic!("found wrong date kind");
    };
    assert_eq!(week.unwrap(), 28);
    assert_eq!(year, 2018);

    assert_eq!(
        vendor_product_info.manufacturer_name,
        Manufacturer::Name(String::from("Dell Inc."))
    );
    assert_eq!(vendor_product_info.product_code, 41191);
    assert_eq!(vendor_product_info.serial_number, Some(1));
}

#[test]
fn model_year_and_absent_fields() {
    let mut input = vec![0u8; 128];
    input[0x08] = 0x10;
    input[0x09] = 0xAC;
    // a zero serial means "absent"; week byte 0xFF switches to a
    // model year
    input[0x10] = 0xFF;
    input[0x11] = 22;

    let v = parse(&input).unwrap();
    assert_eq!(v.serial_number, None);
    assert_eq!(v.date, Date::ModelYear(2012));
}
