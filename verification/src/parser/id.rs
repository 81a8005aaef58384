//! Vendor and product identity: bytes `0x08`..=`0x11`.

use crate::error::EdidError;
use crate::structures::id::{Date, Manufacturer, VendorProductId};
use crate::text::push_char;
use vstd::prelude::*;

verus! {

/// What `pnpid::company_from_pnp_id` answers for a 3-letter id: the
/// registered company name, or nothing. The registry is a fixed table,
/// so the answer depends on the letters alone.
pub uninterp spec fn pnp_company_name(c0: char, c1: char, c2: char) -> Option<Seq<char>>;

/// Relies on `pnpid::company_from_pnp_id`: looks a 3-letter
/// plug-and-play id up in the vendor registry. The result is a pure
/// function of the id.
#[verifier::external_body]
fn pnp_lookup(c0: char, c1: char, c2: char) -> (r: Option<String>)
    ensures
        match r {
            Some(name) => pnp_company_name(c0, c1, c2) == Some(name@),
            None => pnp_company_name(c0, c1, c2) is None,
        },
{
    let mut id = String::new();
    id.push(c0);
    id.push(c1);
    id.push(c2);
    pnpid::company_from_pnp_id(id.as_str()).map(|name| name.to_string())
}

/// The three packed 5-bit codes of the manufacturer id bytes. The top
/// bit of the big-endian 16-bit value is reserved and skipped.
pub open spec fn spec_vendor_code(b0: u8, b1: u8, i: int) -> u8
    recommends
        0 <= i < 3,
{
    if i == 0 {
        (b0 / 4) % 32
    } else if i == 1 {
        ((b0 % 4) * 8 + b1 / 32) as u8
    } else {
        b1 % 32
    }
}

/// A 5-bit code names a letter only in 1..=26.
pub open spec fn spec_code_ok(code: u8) -> bool {
    1 <= code <= 26
}

/// The letter of a 5-bit code: 1 maps to 'A', 26 to 'Z'.
pub open spec fn spec_code_char(code: u8) -> char
    recommends
        spec_code_ok(code),
{
    (64 + code) as char
}

/// The error for a bad 5-bit code.
pub open spec fn spec_code_error(code: u8) -> EdidError
    recommends
        !spec_code_ok(code),
{
    if code == 0 {
        EdidError::IdNoZeroesAllowed
    } else {
        EdidError::CharOutOfBounds(code)
    }
}

/// Converts one 5-bit code into its letter.
pub fn convert_5bit_ascii(code: u8) -> (r: Result<char, EdidError>)
    ensures
        spec_code_ok(code) <==> r is Ok,
        spec_code_ok(code) ==> r == Result::<char, EdidError>::Ok(spec_code_char(code)),
        !spec_code_ok(code) ==> r == Result::<char, EdidError>::Err(spec_code_error(code)),
{
    // the codes are one-indexed: zero names no letter
    if code == 0 {
        return Err(EdidError::IdNoZeroesAllowed);
    }
    if code > 26 {
        return Err(EdidError::CharOutOfBounds(code));
    }
    Ok((64 + code) as char)
}

/// Whether all three codes name letters.
pub open spec fn spec_codes_ok(b0: u8, b1: u8) -> bool {
    &&& spec_code_ok(spec_vendor_code(b0, b1, 0))
    &&& spec_code_ok(spec_vendor_code(b0, b1, 1))
    &&& spec_code_ok(spec_vendor_code(b0, b1, 2))
}

/// The first bad code's error, in code order.
pub open spec fn spec_codes_error(b0: u8, b1: u8) -> EdidError
    recommends
        !spec_codes_ok(b0, b1),
{
    if !spec_code_ok(spec_vendor_code(b0, b1, 0)) {
        spec_code_error(spec_vendor_code(b0, b1, 0))
    } else if !spec_code_ok(spec_vendor_code(b0, b1, 1)) {
        spec_code_error(spec_vendor_code(b0, b1, 1))
    } else {
        spec_code_error(spec_vendor_code(b0, b1, 2))
    }
}

/// Converts three 5-bit codes into letters, stopping at the first bad
/// one.
pub fn convert_5bit_ascii_slice(codes: [u8; 3]) -> (r: Result<[char; 3], EdidError>)
    ensures
        match r {
            Ok(chars) => {
                &&& spec_code_ok(codes[0]) && spec_code_ok(codes[1]) && spec_code_ok(codes[2])
                &&& chars[0] == spec_code_char(codes[0])
                &&& chars[1] == spec_code_char(codes[1])
                &&& chars[2] == spec_code_char(codes[2])
            },
            Err(e) => {
                &&& !(spec_code_ok(codes[0]) && spec_code_ok(codes[1]) && spec_code_ok(codes[2]))
                &&& e == if !spec_code_ok(codes[0]) {
                    spec_code_error(codes[0])
                } else if !spec_code_ok(codes[1]) {
                    spec_code_error(codes[1])
                } else {
                    spec_code_error(codes[2])
                }
            },
        },
{
    let c0 = match convert_5bit_ascii(codes[0]) {
        Ok(c) => c,
        Err(e) => {
            return Err(e);
        },
    };
    let c1 = match convert_5bit_ascii(codes[1]) {
        Ok(c) => c,
        Err(e) => {
            return Err(e);
        },
    };
    let c2 = match convert_5bit_ascii(codes[2]) {
        Ok(c) => c,
        Err(e) => {
            return Err(e);
        },
    };
    Ok([c0, c1, c2])
}

/// The manufacturer resolves from the registry when the id is known,
/// and falls back to the raw 3-letter code when it is not.
pub open spec fn manufacturer_matches(m: Manufacturer, c0: char, c1: char, c2: char) -> bool {
    match m {
        Manufacturer::Name(n) => pnp_company_name(c0, c1, c2) == Some(n@),
        Manufacturer::Id(code) => {
            &&& pnp_company_name(c0, c1, c2) is None
            &&& code@ == seq![c0, c1, c2]
        },
    }
}

/// Decodes the manufacturer from the two id bytes and resolves it
/// against the plug-and-play registry; an unknown id is kept as its
/// raw 3-letter code, not an error.
pub fn vendor(b0: u8, b1: u8) -> (r: Result<Manufacturer, EdidError>)
    ensures
        spec_codes_ok(b0, b1) <==> r is Ok,
        match r {
            Ok(m) => manufacturer_matches(
                m,
                spec_code_char(spec_vendor_code(b0, b1, 0)),
                spec_code_char(spec_vendor_code(b0, b1, 1)),
                spec_code_char(spec_vendor_code(b0, b1, 2)),
            ),
            Err(e) => e == spec_codes_error(b0, b1),
        },
{
    let code0: u8 = (b0 / 4) % 32;
    let code1: u8 = (b0 % 4) * 8 + b1 / 32;
    let code2: u8 = b1 % 32;
    let chars = match convert_5bit_ascii_slice([code0, code1, code2]) {
        Ok(cs) => cs,
        Err(e) => {
            return Err(e);
        },
    };
    match pnp_lookup(chars[0], chars[1], chars[2]) {
        Some(name) => Ok(Manufacturer::Name(name)),
        None => {
            let mut code = String::new();
            push_char(&mut code, chars[0]);
            push_char(&mut code, chars[1]);
            push_char(&mut code, chars[2]);
            proof {
                assert(code@ =~= seq![chars[0], chars[1], chars[2]]);
            }
            Ok(Manufacturer::Id(code))
        },
    }
}

/// The manufacture or model date from bytes `0x10` and `0x11`.
pub open spec fn spec_date(s: Seq<u8>) -> Date
    recommends
        s.len() >= 0x12,
{
    let year = (s[0x11] + 1990) as u16;
    if s[0x10] == 0xFF {
        Date::ModelYear(year)
    } else {
        Date::Manufacture {
            week: if s[0x10] == 0x00 {
                None
            } else {
                Some(s[0x10])
            },
            year,
        }
    }
}

/// The product code: a little-endian 16-bit value.
pub open spec fn spec_product_code(s: Seq<u8>) -> u16
    recommends
        s.len() >= 0x12,
{
    (s[0x0A] + 256 * s[0x0B]) as u16
}

/// The serial number: a little-endian 32-bit value, where zero encodes
/// "absent".
pub open spec fn spec_serial_number(s: Seq<u8>) -> Option<u32>
    recommends
        s.len() >= 0x12,
{
    let v = (s[0x0C] + 0x100 * s[0x0D] + 0x10000 * s[0x0E] + 0x1000000 * s[0x0F]) as u32;
    if v == 0 {
        None
    } else {
        Some(v)
    }
}

/// Whether the identity bytes decode without a hard error.
pub open spec fn spec_id_ok(s: Seq<u8>) -> bool
    recommends
        s.len() >= 0x12,
{
    spec_codes_ok(s[0x08], s[0x09])
}

/// The identity error for bad manufacturer codes.
pub open spec fn spec_id_error(s: Seq<u8>) -> EdidError
    recommends
        s.len() >= 0x12,
        !spec_id_ok(s),
{
    spec_codes_error(s[0x08], s[0x09])
}

/// What a correct decode of the identity bytes looks like.
pub open spec fn id_matches(r: VendorProductId, s: Seq<u8>) -> bool
    recommends
        s.len() >= 0x12,
{
    &&& manufacturer_matches(
        r.manufacturer_name,
        spec_code_char(spec_vendor_code(s[0x08], s[0x09], 0)),
        spec_code_char(spec_vendor_code(s[0x08], s[0x09], 1)),
        spec_code_char(spec_vendor_code(s[0x08], s[0x09], 2)),
    )
    &&& r.product_code == spec_product_code(s)
    &&& r.serial_number == spec_serial_number(s)
    &&& r.date == spec_date(s)
}

/// Decodes the vendor/product identity block.
pub fn parse(input: &[u8]) -> (r: Result<VendorProductId, EdidError>)
    requires
        input@.len() >= 0x12,
    ensures
        spec_id_ok(input@) <==> r is Ok,
        match r {
            Ok(v) => id_matches(v, input@),
            Err(e) => e == spec_id_error(input@),
        },
{
    let manufacturer_name = match vendor(input[0x08], input[0x09]) {
        Ok(m) => m,
        Err(e) => {
            return Err(e);
        },
    };

    // the manufacturer's own model number, no text conversion
    let product_code: u16 = input[0x0A] as u16 + 256 * (input[0x0B] as u16);

    let serial: u32 = input[0x0C] as u32 + 0x100 * (input[0x0D] as u32) + 0x10000 * (
    input[0x0E] as u32) + 0x1000000 * (input[0x0F] as u32);
    // a stored zero means the serial was not given
    let serial_number = if serial == 0 {
        None
    } else {
        Some(serial)
    };

    let week_byte = input[0x10];
    // the year byte counts from 1990
    let year = (input[0x11] as u16) + 1990;
    let date = if week_byte == 0xFF {
        // 0xFF switches the date to a model year
        Date::ModelYear(year)
    } else {
        Date::Manufacture {
            week: if week_byte == 0x00 {
                None
            } else {
                Some(week_byte)
            },
            year,
        }
    };

    Ok(VendorProductId { manufacturer_name, product_code, serial_number, date })
}

} // verus!
