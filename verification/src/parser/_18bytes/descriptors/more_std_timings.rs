//! Standard timing identification descriptors (tag `0xFA`): six more
//! standard timing slots.

use crate::error::{EdidError, Warning};
use crate::parser::std_timings::{one, spec_st_one, spec_st_warnings};
use crate::structures::desc::DisplayDescriptor;
use vstd::prelude::*;

verus! {

/// The exact five-byte header of this descriptor.
pub open spec fn spec_more_std_header_ok(w: Seq<u8>) -> bool
    recommends
        w.len() == 18,
{
    w[0] == 0 && w[1] == 0 && w[2] == 0 && w[3] == 0xFA && w[4] == 0
}

/// The six extra standard timing slots.
pub open spec fn spec_more_std(w: Seq<u8>) -> DisplayDescriptor
    recommends
        w.len() == 18,
{
    DisplayDescriptor::StandardTimingIdentifications {
        _9: spec_st_one(w[5], w[6]),
        _10: spec_st_one(w[7], w[8]),
        _11: spec_st_one(w[9], w[10]),
        _12: spec_st_one(w[11], w[12]),
        _13: spec_st_one(w[13], w[14]),
        _14: spec_st_one(w[15], w[16]),
    }
}

/// The warnings of this descriptor: the reserved final byte first,
/// then each slot's, in slot order; none when the header is rejected
/// before any slot is read.
pub open spec fn spec_more_std_warnings(w: Seq<u8>) -> Seq<Warning>
    recommends
        w.len() == 18,
{
    if spec_more_std_header_ok(w) {
        (if w[17] != 0x0A {
            seq![Warning::MoreStandardTimingsReservedByte]
        } else {
            Seq::empty()
        }) + spec_st_warnings(w[5], w[6]) + spec_st_warnings(w[7], w[8]) + spec_st_warnings(
            w[9],
            w[10],
        ) + spec_st_warnings(w[11], w[12]) + spec_st_warnings(w[13], w[14]) + spec_st_warnings(
            w[15],
            w[16],
        )
    } else {
        Seq::empty()
    }
}

/// Decodes six more standard timing slots. The final byte is reserved
/// as `0x0A`; any other value draws a warning.
pub fn parse(input: &[u8], warns: &mut Vec<Warning>) -> (r: Result<
    DisplayDescriptor,
    EdidError,
>)
    requires
        input@.len() == 18,
    ensures
        spec_more_std_header_ok(input@) <==> r is Ok,
        match r {
            Ok(d) => d == spec_more_std(input@),
            Err(e) => e == EdidError::DescriptorUnexpectedHeader(
                [input@[0], input@[1], input@[2], input@[3], input@[4]],
            ),
        },
        final(warns)@ == old(warns)@ + spec_more_std_warnings(input@),
{
    let ghost w0 = warns@;
    if !(input[0] == 0 && input[1] == 0 && input[2] == 0 && input[3] == 0xFA && input[4]
        == 0) {
        proof {
            crate::parser::lemma_concat_empty::<Warning>(w0);
        }
        return Err(EdidError::DescriptorUnexpectedHeader(
            [input[0], input[1], input[2], input[3], input[4]],
        ));
    }
    let ghost rb = if input@[17] != 0x0A {
        seq![Warning::MoreStandardTimingsReservedByte]
    } else {
        Seq::<Warning>::empty()
    };
    let ghost a1 = spec_st_warnings(input@[5], input@[6]);
    let ghost a2 = spec_st_warnings(input@[7], input@[8]);
    let ghost a3 = spec_st_warnings(input@[9], input@[10]);
    let ghost a4 = spec_st_warnings(input@[11], input@[12]);
    let ghost a5 = spec_st_warnings(input@[13], input@[14]);
    if input[17] != 0x0A {
        warns.push(Warning::MoreStandardTimingsReservedByte);
        proof {
            crate::parser::lemma_concat_one(w0, Warning::MoreStandardTimingsReservedByte);
        }
    } else {
        proof {
            crate::parser::lemma_concat_empty::<Warning>(w0);
        }
    }
    let _9 = one(&input[5..7], warns);
    proof {
        crate::parser::lemma_concat_assoc(w0, rb, a1);
    }
    let _10 = one(&input[7..9], warns);
    proof {
        crate::parser::lemma_concat_assoc(w0, rb + a1, a2);
    }
    let _11 = one(&input[9..11], warns);
    proof {
        crate::parser::lemma_concat_assoc(w0, rb + a1 + a2, a3);
    }
    let _12 = one(&input[11..13], warns);
    proof {
        crate::parser::lemma_concat_assoc(w0, rb + a1 + a2 + a3, a4);
    }
    let _13 = one(&input[13..15], warns);
    proof {
        crate::parser::lemma_concat_assoc(w0, rb + a1 + a2 + a3 + a4, a5);
    }
    let _14 = one(&input[15..17], warns);
    proof {
        crate::parser::lemma_concat_assoc(
            w0,
            rb + a1 + a2 + a3 + a4 + a5,
            spec_st_warnings(input@[15], input@[16]),
        );
    }
    Ok(DisplayDescriptor::StandardTimingIdentifications { _9, _10, _11, _12, _13, _14 })
}

} // verus!
