//! The fixed 8-byte header check.

use crate::error::EdidError;
use vstd::prelude::*;

verus! {

/// The first eight bytes hold the fixed magic
/// `[0x00, 0xFF, 0xFF, 0xFF, 0xFF, 0xFF, 0xFF, 0x00]`.
pub open spec fn spec_header_ok(s: Seq<u8>) -> bool {
    &&& s.len() >= 8
    &&& s[0] == 0x00
    &&& s[1] == 0xFF
    &&& s[2] == 0xFF
    &&& s[3] == 0xFF
    &&& s[4] == 0xFF
    &&& s[5] == 0xFF
    &&& s[6] == 0xFF
    &&& s[7] == 0x00
}

/// Checks the fixed 8-byte header magic.
pub fn parse(input: &[u8]) -> (r: Result<(), EdidError>)
    ensures
        r is Ok <==> spec_header_ok(input@),
        input@.len() < 8 ==> r == Result::<(), EdidError>::Err(
            EdidError::HeaderTooShort {
                real_len: input@.len() as u8,
                expected_len: 8,
            },
        ),
        input@.len() >= 8 && !spec_header_ok(input@) ==> r == Result::<(), EdidError>::Err(
            EdidError::NoHeader,
        ),
{
    if input.len() < 8 {
        return Err(EdidError::HeaderTooShort {
            real_len: input.len() as u8,
            expected_len: 8,
        });
    }
    if input[0] == 0x00 && input[1] == 0xFF && input[2] == 0xFF && input[3] == 0xFF
        && input[4] == 0xFF && input[5] == 0xFF && input[6] == 0xFF && input[7] == 0x00 {
        Ok(())
    } else {
        Err(EdidError::NoHeader)
    }
}

} // verus!
