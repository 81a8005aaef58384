//! The four 18-byte blocks: classification and dispatch.

pub mod descriptors;
pub mod preferred_tm;

use crate::error::{EdidError, Warning};
use crate::parser::_18bytes::descriptors::{
    _13_byte_string, color_point, cvt, dcm, iii, more_std_timings, range_limits,
};
use crate::parser::bitfield::spec_bit;
use crate::structures::_18bytes::{EighteenByteBlock, EighteenByteDescriptors};
use crate::structures::desc::DisplayDescriptor;
use vstd::prelude::*;

verus! {

/// A window is a detailed timing definition when its first two bytes
/// are not both zero.
pub open spec fn spec_is_timing(w: Seq<u8>) -> bool
    recommends
        w.len() == 18,
{
    w[0] != 0 || w[1] != 0
}

/// A display descriptor must keep bytes 2 and 4 of its five-byte
/// header zero.
pub open spec fn spec_desc_header_ok(w: Seq<u8>) -> bool
    recommends
        w.len() == 18,
{
    w[2] == 0 && w[4] == 0
}

/// Whether an 18-byte window decodes without a hard error.
pub open spec fn spec_block_ok(w: Seq<u8>) -> bool
    recommends
        w.len() == 18,
{
    if spec_is_timing(w) {
        true
    } else if !spec_desc_header_ok(w) {
        false
    } else {
        let tag = w[3];
        if tag == 0xFD {
            range_limits::spec_range_limits_ok(w)
        } else if tag == 0xF8 {
            cvt::spec_cvt_ok(w)
        } else if 0x11 <= tag <= 0xF6 {
            false
        } else {
            true
        }
    }
}

/// The first hard error of an 18-byte window.
pub open spec fn spec_block_err(w: Seq<u8>) -> EdidError
    recommends
        w.len() == 18,
        !spec_block_ok(w),
{
    if !spec_desc_header_ok(w) {
        EdidError::DescriptorUnexpectedHeader([w[0], w[1], w[2], w[3], w[4]])
    } else {
        let tag = w[3];
        if tag == 0xFD {
            range_limits::spec_range_limits_err(w)
        } else if tag == 0xF8 {
            EdidError::DescriptorNoFirstCvt
        } else {
            EdidError::DescriptorUsedReservedKind { kind_byte: tag }
        }
    }
}

/// What a correct decode of one 18-byte window looks like; `cf` is the
/// EDID's continuous-frequency feature bit.
pub open spec fn block_matches(b: EighteenByteBlock, w: Seq<u8>, cf: bool) -> bool
    recommends
        w.len() == 18,
        spec_block_ok(w),
{
    if spec_is_timing(w) {
        b == EighteenByteBlock::Timing(preferred_tm::spec_dtd(w))
    } else {
        match b {
            EighteenByteBlock::Timing(_) => false,
            EighteenByteBlock::Display(d) => desc_matches(d, w, cf),
        }
    }
}

/// What a correct decode of a display descriptor window looks like.
pub open spec fn desc_matches(d: DisplayDescriptor, w: Seq<u8>, cf: bool) -> bool
    recommends
        w.len() == 18,
        !spec_is_timing(w),
        spec_block_ok(w),
{
    let tag = w[3];
    if tag == 0xFF {
        d matches DisplayDescriptor::ProductSerial(s) && s@ == _13_byte_string::spec_text13(w)
    } else if tag == 0xFE {
        d matches DisplayDescriptor::DataString(s) && s@ == _13_byte_string::spec_text13(w)
    } else if tag == 0xFC {
        d matches DisplayDescriptor::ProductName(s) && s@ == _13_byte_string::spec_text13(w)
    } else if tag == 0xFD {
        d matches DisplayDescriptor::DisplayRangeLimits(rl) && rl
            == range_limits::spec_range_limits(w, cf)
    } else if tag == 0xFB {
        d == color_point::spec_color_point(w)
    } else if tag == 0xFA {
        d == more_std_timings::spec_more_std(w)
    } else if tag == 0xF9 {
        d == dcm::spec_dcm(w)
    } else if tag == 0xF8 {
        d == cvt::spec_cvt(w)
    } else if tag == 0xF7 {
        d == iii::spec_est_iii(w)
    } else if tag == 0x10 {
        d == DisplayDescriptor::DummyDescriptor
    } else {
        d matches DisplayDescriptor::Manufacturer { data } && data@ == w
    }
}

/// The warning a dummy descriptor draws: one when its payload carries
/// any data, none otherwise.
pub open spec fn spec_dummy_warnings(w: Seq<u8>) -> Seq<Warning>
    recommends
        w.len() == 18,
{
    if exists|j: int| 5 <= j < 18 && w[j] != 0 {
        seq![Warning::DummyDescriptorNonZero]
    } else {
        Seq::empty()
    }
}

/// All warnings one 18-byte window draws, whether or not it then
/// errors: none for timings, the selected sub-decoder's otherwise.
pub open spec fn spec_block_warnings(w: Seq<u8>, cf: bool) -> Seq<Warning>
    recommends
        w.len() == 18,
{
    if spec_is_timing(w) || !spec_desc_header_ok(w) {
        Seq::empty()
    } else {
        let tag = w[3];
        if tag == 0xFD {
            range_limits::spec_range_limits_warnings(w, cf)
        } else if tag == 0xFB {
            color_point::spec_color_point_warnings(w)
        } else if tag == 0xFA {
            more_std_timings::spec_more_std_warnings(w)
        } else if tag == 0xF9 {
            dcm::spec_dcm_warnings(w)
        } else if tag == 0xF8 {
            cvt::spec_cvt_warnings(w)
        } else if tag == 0xF7 {
            iii::spec_est_iii_warnings(w)
        } else if tag == 0x10 {
            spec_dummy_warnings(w)
        } else {
            Seq::empty()
        }
    }
}

/// Classifies and decodes one 18-byte window; `edid` is the whole
/// input, which some descriptors cross-check.
pub fn one(input: &[u8], edid: &[u8], warns: &mut Vec<Warning>) -> (r: Result<
    EighteenByteBlock,
    EdidError,
>)
    requires
        input@.len() == 18,
        edid@.len() >= 0x19,
    ensures
        spec_block_ok(input@) <==> r is Ok,
        match r {
            Ok(b) => block_matches(b, input@, spec_bit(edid@[0x18], 0)),
            Err(e) => e == spec_block_err(input@),
        },
        final(warns)@ == old(warns)@ + spec_block_warnings(input@, spec_bit(edid@[0x18], 0)),
{
    proof {
        crate::parser::lemma_concat_empty::<Warning>(old(warns)@);
    }
    // first two bytes not both zero: a detailed timing definition
    if input[0] != 0x00 || input[1] != 0x00 {
        return Ok(EighteenByteBlock::Timing(preferred_tm::parse(input)));
    }

    // otherwise a display descriptor, whose five header bytes must
    // follow the reserved pattern [0x00, 0x00, 0x00, tag, 0x00]
    if input[2] != 0x00 || input[4] != 0x00 {
        return Err(EdidError::DescriptorUnexpectedHeader(
            [input[0], input[1], input[2], input[3], input[4]],
        ));
    }

    let kind_byte = input[3];
    let desc = match kind_byte {
        0xFF => {
            let s = match _13_byte_string::parse(input) {
                Ok(s) => s,
                Err(e) => {
                    return Err(e);
                },
            };
            DisplayDescriptor::ProductSerial(s)
        },
        0xFE => {
            let s = match _13_byte_string::parse(input) {
                Ok(s) => s,
                Err(e) => {
                    return Err(e);
                },
            };
            DisplayDescriptor::DataString(s)
        },
        0xFC => {
            let s = match _13_byte_string::parse(input) {
                Ok(s) => s,
                Err(e) => {
                    return Err(e);
                },
            };
            DisplayDescriptor::ProductName(s)
        },
        0xFD => {
            let rl = match range_limits::parse(input, edid, warns) {
                Ok(rl) => rl,
                Err(e) => {
                    return Err(e);
                },
            };
            DisplayDescriptor::DisplayRangeLimits(rl)
        },
        0xFB => color_point::parse(input, warns),
        0xFA => {
            match more_std_timings::parse(input, warns) {
                Ok(d) => d,
                Err(e) => {
                    return Err(e);
                },
            }
        },
        0xF9 => dcm::parse(input, warns),
        0xF8 => {
            match cvt::parse(input, warns) {
                Ok(d) => d,
                Err(e) => {
                    return Err(e);
                },
            }
        },
        0xF7 => {
            match iii::parse(input, warns) {
                Ok(d) => d,
                Err(e) => {
                    return Err(e);
                },
            }
        },
        0x10 => {
            // a dummy descriptor's payload must stay unused
            let mut nonzero = false;
            let mut i: usize = 5;
            while i < 18
                invariant
                    5 <= i <= 18,
                    input@.len() == 18,
                    nonzero == exists|j: int| 5 <= j < i && input@[j] != 0,
                decreases 18 - i,
            {
                if input[i] != 0 {
                    nonzero = true;
                }
                i = i + 1;
            }
            if nonzero {
                warns.push(Warning::DummyDescriptorNonZero);
                proof {
                    crate::parser::lemma_concat_one(
                        old(warns)@,
                        Warning::DummyDescriptorNonZero,
                    );
                }
            }
            DisplayDescriptor::DummyDescriptor
        },
        m if m <= 0x0F => {
            let data: [u8; 18] = [
                input[0],
                input[1],
                input[2],
                input[3],
                input[4],
                input[5],
                input[6],
                input[7],
                input[8],
                input[9],
                input[10],
                input[11],
                input[12],
                input[13],
                input[14],
                input[15],
                input[16],
                input[17],
            ];
            proof {
                assert(data@ =~= input@);
            }
            DisplayDescriptor::Manufacturer { data }
        },
        tag => {
            return Err(EdidError::DescriptorUsedReservedKind { kind_byte: tag });
        },
    };

    Ok(EighteenByteBlock::Display(desc))
}

/// Whether a window holds a display range limits descriptor.
pub open spec fn spec_window_is_range_limits(w: Seq<u8>) -> bool
    recommends
        w.len() == 18,
{
    !spec_is_timing(w) && spec_desc_header_ok(w) && w[3] == 0xFD
}

/// A correctly decoded window is a range limits descriptor exactly
/// when its bytes say so.
pub proof fn lemma_block_shape(b: EighteenByteBlock, w: Seq<u8>, cf: bool)
    requires
        w.len() == 18,
        spec_block_ok(w),
        block_matches(b, w, cf),
    ensures
        (b matches EighteenByteBlock::Display(d) && d
            matches DisplayDescriptor::DisplayRangeLimits(_)) <==> spec_window_is_range_limits(
            w,
        ),
{
}

/// What a correct decode of all four windows looks like.
pub open spec fn descriptors_match(d: EighteenByteDescriptors, s: Seq<u8>) -> bool
    recommends
        s.len() >= 0x80,
{
    let cf = spec_bit(s[0x18], 0);
    &&& block_matches(d.preferred_timing_mode, s.subrange(0x36, 0x48), cf)
    &&& block_matches(d.blocks[0], s.subrange(0x48, 0x5A), cf)
    &&& block_matches(d.blocks[1], s.subrange(0x5A, 0x6C), cf)
    &&& block_matches(d.blocks[2], s.subrange(0x6C, 0x7E), cf)
}

/// Whether all four windows decode without a hard error.
pub open spec fn spec_blocks_ok(s: Seq<u8>) -> bool
    recommends
        s.len() >= 0x80,
{
    &&& spec_block_ok(s.subrange(0x36, 0x48))
    &&& spec_block_ok(s.subrange(0x48, 0x5A))
    &&& spec_block_ok(s.subrange(0x5A, 0x6C))
    &&& spec_block_ok(s.subrange(0x6C, 0x7E))
}

/// The first hard error among the four windows, in block order.
pub open spec fn spec_blocks_err(s: Seq<u8>) -> EdidError
    recommends
        s.len() >= 0x80,
        !spec_blocks_ok(s),
{
    if !spec_block_ok(s.subrange(0x36, 0x48)) {
        spec_block_err(s.subrange(0x36, 0x48))
    } else if !spec_block_ok(s.subrange(0x48, 0x5A)) {
        spec_block_err(s.subrange(0x48, 0x5A))
    } else if !spec_block_ok(s.subrange(0x5A, 0x6C)) {
        spec_block_err(s.subrange(0x5A, 0x6C))
    } else {
        spec_block_err(s.subrange(0x6C, 0x7E))
    }
}

/// All warnings of the four windows, in block order, cut off at the
/// first hard error; a first window that is not a timing adds one.
pub open spec fn spec_blocks_warnings(s: Seq<u8>) -> Seq<Warning>
    recommends
        s.len() >= 0x80,
{
    let cf = spec_bit(s[0x18], 0);
    let w1 = s.subrange(0x36, 0x48);
    let w2 = s.subrange(0x48, 0x5A);
    let w3 = s.subrange(0x5A, 0x6C);
    let w4 = s.subrange(0x6C, 0x7E);
    let fb: Seq<Warning> = if !spec_is_timing(w1) {
        seq![Warning::FirstBlockNotTiming]
    } else {
        Seq::empty()
    };
    if !spec_block_ok(w1) {
        spec_block_warnings(w1, cf)
    } else if !spec_block_ok(w2) {
        spec_block_warnings(w1, cf) + fb + spec_block_warnings(w2, cf)
    } else if !spec_block_ok(w3) {
        spec_block_warnings(w1, cf) + fb + spec_block_warnings(w2, cf) + spec_block_warnings(
            w3,
            cf,
        )
    } else {
        spec_block_warnings(w1, cf) + fb + spec_block_warnings(w2, cf) + spec_block_warnings(
            w3,
            cf,
        ) + spec_block_warnings(w4, cf)
    }
}

/// Decodes the four 18-byte windows. A first window that is not a
/// timing is tolerated with a warning, though EDID 1.3/1.4 expects the
/// preferred timing there.
#[verifier::rlimit(60)]
pub fn parse(input: &[u8], warns: &mut Vec<Warning>) -> (r: Result<
    EighteenByteDescriptors,
    EdidError,
>)
    requires
        input@.len() >= 0x80,
    ensures
        spec_blocks_ok(input@) <==> r is Ok,
        match r {
            Ok(d) => descriptors_match(d, input@),
            Err(e) => e == spec_blocks_err(input@),
        },
        final(warns)@ == old(warns)@ + spec_blocks_warnings(input@),
{
    let ghost w0 = warns@;
    let ghost cf = spec_bit(input@[0x18], 0);
    let ghost b1 = spec_block_warnings(input@.subrange(0x36, 0x48), cf);
    let ghost b2 = spec_block_warnings(input@.subrange(0x48, 0x5A), cf);
    let ghost b3 = spec_block_warnings(input@.subrange(0x5A, 0x6C), cf);
    let ghost fb: Seq<Warning> = if !spec_is_timing(input@.subrange(0x36, 0x48)) {
        seq![Warning::FirstBlockNotTiming]
    } else {
        Seq::<Warning>::empty()
    };
    let preferred_timing_mode = match one(&input[0x36..0x48], input, warns) {
        Ok(b) => b,
        Err(e) => {
            return Err(e);
        },
    };
    if matches!(preferred_timing_mode, EighteenByteBlock::Display(_)) {
        warns.push(Warning::FirstBlockNotTiming);
        proof {
            crate::parser::lemma_concat_one(w0 + b1, Warning::FirstBlockNotTiming);
        }
    } else {
        proof {
            crate::parser::lemma_concat_empty::<Warning>(w0 + b1);
        }
    }
    proof {
        crate::parser::lemma_concat_assoc(w0, b1, fb);
    }
    let second = match one(&input[0x48..0x5A], input, warns) {
        Ok(b) => b,
        Err(e) => {
            proof {
                crate::parser::lemma_concat_assoc(w0, b1 + fb, b2);
            }
            return Err(e);
        },
    };
    proof {
        crate::parser::lemma_concat_assoc(w0, b1 + fb, b2);
    }
    let third = match one(&input[0x5A..0x6C], input, warns) {
        Ok(b) => b,
        Err(e) => {
            proof {
                crate::parser::lemma_concat_assoc(w0, b1 + fb + b2, b3);
            }
            return Err(e);
        },
    };
    proof {
        crate::parser::lemma_concat_assoc(w0, b1 + fb + b2, b3);
    }
    let fourth = match one(&input[0x6C..0x7E], input, warns) {
        Ok(b) => b,
        Err(e) => {
            proof {
                crate::parser::lemma_concat_assoc(
                    w0,
                    b1 + fb + b2 + b3,
                    spec_block_warnings(input@.subrange(0x6C, 0x7E), cf),
                );
            }
            return Err(e);
        },
    };
    proof {
        crate::parser::lemma_concat_assoc(
            w0,
            b1 + fb + b2 + b3,
            spec_block_warnings(input@.subrange(0x6C, 0x7E), cf),
        );
    }

    Ok(EighteenByteDescriptors { preferred_timing_mode, blocks: [second, third, fourth] })
}

} // verus!
