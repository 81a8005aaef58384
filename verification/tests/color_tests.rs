//! Tests for the color characteristics decoder and its fractions.

use liboptic_edid::parser::color::{into_decimal, make_u10, parse};
use liboptic_edid::ratio::Ratio;

#[test]
fn check_make_u10() {
    let bit0 = true;
    let bit1 = true;
    let etc = u8::MAX;

    let result = make_u10(bit0, bit1, etc);
    assert_eq!(result, 0b11_1111_1111);
}

#[test]
fn into_decimal_endpts() {
    let start = 0b00_0000_0000;
    let midpoint = 0b00_0001_1111;
    let end = 0b11_1111_1111;

    assert_eq!(into_decimal(start), Ratio::new(0, 1024));
    assert_eq!(into_decimal(midpoint), Ratio::new(31, 1024));
    assert_eq!(into_decimal(end), Ratio::new(1023, 1024));
}

/// Compares a fraction to a decimal within half a thousandth.
fn deq(r: Ratio, d: f64) -> bool {
    let v = r.numer as f64 / r.denom as f64;
    let m = if v < d { d - v } else { v - d };
    m <= 0.0005
}

#[test]
fn into_decimal_samples() {
    let a = 0b10_0111_0001;
    let b = 0b01_0011_1010;
    let c = 0b00_1001_1010;

    assert!(deq(into_decimal(a), 0.6103516));
    assert!(deq(into_decimal(b), 0.3066406));
    assert!(deq(into_decimal(c), 0.1503906));
}

/// The color bytes of a real Dell S2417DG capture.
#[test]
fn dell_s2417dg_color() {
    let mut input = vec![0u8; 128];
    let color_bytes = [0xEE, 0x91, 0xA3, 0x54, 0x4C, 0x99, 0x26, 0x0F, 0x50, 0x54];
    input[0x19..0x23].copy_from_slice(&color_bytes);

    let colors = parse(&input);

    assert!(deq(colors.red.x, 0.6396) && deq(colors.red.y, 0.3300));
    assert!(deq(colors.green.x, 0.2998) && deq(colors.green.y, 0.5996));
    assert!(deq(colors.blue.x, 0.1503) && deq(colors.blue.y, 0.0595));
    assert!(deq(colors.white_point.x, 0.3125) && deq(colors.white_point.y, 0.3291));
}

#[test]
fn fractions_reduce_to_lowest_terms() {
    // 512/1024 and 1/2 are the same value, so they compare equal
    assert_eq!(into_decimal(512), Ratio::new(1, 2));
    assert_eq!(Ratio::new(220, 100), Ratio::new(11, 5));
}

#[test]
fn fractions_grow_with_the_raw_value() {
    let mut prev = into_decimal(0);
    for raw in 1..=1023u16 {
        let next = into_decimal(raw);
        // a/b < c/d exactly when a*d < c*b
        assert!((prev.numer as u64) * (next.denom as u64) < (next.numer as u64) * (prev.denom as u64));
        // and every value stays within [0, 1023/1024]
        assert!((next.numer as u64) * 1024 <= 1023 * (next.denom as u64));
        prev = next;
    }
}
