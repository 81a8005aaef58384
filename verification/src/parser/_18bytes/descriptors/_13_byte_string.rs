//! The 13-byte text payload shared by the serial number, data string
//! and product name descriptors.

use crate::error::EdidError;
use crate::text::push_char;
use vstd::prelude::*;

verus! {

/// A text byte as a character: values at or above 128 belong to
/// regional character sets and are replaced with `'?'`.
pub open spec fn spec_text_char(b: u8) -> char {
    if b >= 128 {
        '?'
    } else {
        b as char
    }
}

/// The 13 text characters of a string descriptor, bytes 5..=17 of the
/// window, including any trailing linefeed and space padding.
pub open spec fn spec_text13(w: Seq<u8>) -> Seq<char>
    recommends
        w.len() == 18,
{
    Seq::new(13, |i: int| spec_text_char(w[5 + i]))
}

/// Decodes the fixed 13-byte text of a string descriptor. Every input
/// decodes; bytes outside plain ASCII come back as `'?'`.
pub fn parse(input: &[u8]) -> (r: Result<String, EdidError>)
    requires
        input@.len() == 18,
    ensures
        match r {
            Ok(s) => s@ == spec_text13(input@),
            Err(_) => false,
        },
{
    let mut s = String::new();
    let mut i: usize = 5;
    while i < 18
        invariant
            5 <= i <= 18,
            input@.len() == 18,
            s@.len() == i - 5,
            forall|j: int| 0 <= j < i - 5 ==> s@[j] == spec_text_char(input@[5 + j]),
        decreases 18 - i,
    {
        let byte = input[i];
        let c: char = if byte >= 128 {
            '?'
        } else {
            byte as char
        };
        push_char(&mut s, c);
        i = i + 1;
    }
    proof {
        assert(s@ =~= spec_text13(input@));
    }
    Ok(s)
}

} // verus!
