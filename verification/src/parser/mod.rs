//! The decoder itself: one pass over a fixed-layout byte buffer.
//!
//! Every stage is a pure function of the input bytes. Hard errors abort
//! the pass; tolerated deviations are appended to a warning accumulator.

pub mod _18bytes;
pub mod basic_info;
pub mod bitfield;
pub mod color;
pub mod id;
pub mod est_timings;
pub mod header;
pub mod std_timings;
pub mod version;

use crate::error::{EdidError, Warning};
use crate::parser::bitfield::{bit, spec_bit};
use crate::structures::_18bytes::EighteenByteBlock;
use crate::structures::desc::DisplayDescriptor;
use crate::Edid;
use vstd::prelude::*;

verus! {

/// A concatenation holds an element exactly when one of its parts
/// does.
pub proof fn lemma_concat_contains<T>(a: Seq<T>, b: Seq<T>, x: T)
    ensures
        (a + b).contains(x) <==> a.contains(x) || b.contains(x),
{
    if (a + b).contains(x) {
        let i = choose|i: int| 0 <= i < (a + b).len() && (a + b)[i] == x;
        if i < a.len() {
            assert(a[i] == x);
        } else {
            assert(b[i - a.len()] == x);
        }
    }
    if a.contains(x) {
        let i = choose|i: int| 0 <= i < a.len() && a[i] == x;
        assert((a + b)[i] == x);
    }
    if b.contains(x) {
        let i = choose|i: int| 0 <= i < b.len() && b[i] == x;
        assert((a + b)[a.len() + i] == x);
    }
}

/// Sequence concatenation is associative.
pub proof fn lemma_concat_assoc<T>(a: Seq<T>, b: Seq<T>, c: Seq<T>)
    ensures
        (a + b) + c == a + (b + c),
{
    assert((a + b) + c =~= a + (b + c));
}

/// The empty sequence is the identity on either side of concatenation.
pub proof fn lemma_concat_empty<T>(a: Seq<T>)
    ensures
        a + Seq::<T>::empty() == a,
        Seq::<T>::empty() + a == a,
{
    assert(a + Seq::<T>::empty() =~= a);
    assert(Seq::<T>::empty() + a =~= a);
}

/// Concatenating one element is a push.
pub proof fn lemma_concat_one<T>(a: Seq<T>, x: T)
    ensures
        a + seq![x] == a.push(x),
{
    assert(a + seq![x] =~= a.push(x));
}

/// The sum of a byte sequence, as an unbounded integer.
pub open spec fn byte_sum(s: Seq<u8>) -> int
    decreases s.len(),
{
    if s.len() == 0 {
        0
    } else {
        byte_sum(s.drop_last()) + s.last()
    }
}

/// The sum of a byte sequence is bounded by 255 per byte.
pub proof fn lemma_byte_sum_bound(s: Seq<u8>)
    ensures
        0 <= byte_sum(s) <= 255 * s.len(),
    decreases s.len(),
{
    if s.len() > 0 {
        lemma_byte_sum_bound(s.drop_last());
    }
}

/// Adds all bytes of a slice.
pub fn add(bytes: &[u8]) -> (r: u32)
    requires
        255 * bytes@.len() <= u32::MAX,
    ensures
        r == byte_sum(bytes@),
{
    let mut total: u32 = 0;
    let mut i: usize = 0;
    proof {
        lemma_byte_sum_bound(bytes@);
    }
    while i < bytes.len()
        invariant
            i <= bytes@.len(),
            255 * bytes@.len() <= u32::MAX,
            total == byte_sum(bytes@.take(i as int)),
        decreases bytes@.len() - i,
    {
        proof {
            lemma_byte_sum_bound(bytes@.take(i as int));
            assert(bytes@.take(i + 1).drop_last() =~= bytes@.take(i as int));
            assert(bytes@.take(i + 1).last() == bytes@[i as int]);
        }
        total = total + bytes[i] as u32;
        i = i + 1;
    }
    proof {
        assert(bytes@.take(bytes@.len() as int) =~= bytes@);
    }
    total
}

/// The checksum byte that makes the first 128 bytes sum to zero: the
/// complement of the sum of the first 127 bytes, modulo 256.
pub open spec fn spec_checksum_of(s: Seq<u8>) -> int {
    (256 - byte_sum(s.take(0x7F)) % 256) % 256
}

/// Computes the value for byte `0x7F` that makes the block's checksum
/// come out to zero.
pub fn make_checksum(input: &[u8]) -> (r: u8)
    requires
        0x7F <= input@.len(),
    ensures
        r == spec_checksum_of(input@),
{
    proof {
        assert(input@.subrange(0, 0x7F) =~= input@.take(0x7F));
        lemma_byte_sum_bound(input@.take(0x7F));
    }
    let non_checksum_bytes = &input[0..0x7F];
    let total = crate::parser::add(non_checksum_bytes) % 256;
    ((256 - total) % 256) as u8
}

/// Whether the first 128 bytes sum to zero modulo 256.
pub open spec fn spec_checksum_ok(s: Seq<u8>) -> bool {
    byte_sum(s.take(0x80)) % 256 == 0
}

/// Checks that the given slice's first 128 bytes sum to zero modulo
/// 256.
pub fn check_checksum(bytes: &[u8]) -> (r: bool)
    requires
        0x80 <= bytes@.len(),
    ensures
        r == spec_checksum_ok(bytes@),
{
    proof {
        assert(bytes@.subrange(0, 0x80) =~= bytes@.take(0x80));
        lemma_byte_sum_bound(bytes@.take(0x80));
    }
    let used = &bytes[0..0x80];
    let sum = crate::parser::add(used);
    sum % 256 == 0
}

/// Checks that the input can hold a full base EDID block.
pub fn check_length(input: &[u8]) -> (r: Result<(), EdidError>)
    ensures
        input@.len() >= 0x80 <==> r is Ok,
        input@.len() < 0x80 ==> r == Result::<(), EdidError>::Err(
            EdidError::TooShort { got: input@.len() as u8, expected: 0x80 },
        ),
{
    let expected_len: usize = 0x80;
    let real_len = input.len();
    if real_len < expected_len {
        return Err(EdidError::TooShort { got: real_len as u8, expected: 0x80 });
    }
    Ok(())
}

/// The warning the checksum byte draws: one when the block does not
/// sum to zero, none otherwise.
pub open spec fn spec_checksum_warnings(s: Seq<u8>) -> Seq<Warning> {
    if !spec_checksum_ok(s) {
        seq![Warning::ChecksumMismatch]
    } else {
        Seq::empty()
    }
}

/// Returns the stored checksum byte, warning when the block does not
/// sum to zero.
pub fn checksum(input: &[u8], warns: &mut Vec<Warning>) -> (r: u8)
    requires
        input@.len() >= 0x80,
    ensures
        r == input@[0x7F],
        final(warns)@ == old(warns)@ + spec_checksum_warnings(input@),
{
    proof {
        lemma_byte_sum_bound(input@.take(0x80));
        lemma_concat_one(old(warns)@, Warning::ChecksumMismatch);
        lemma_concat_empty::<Warning>(old(warns)@);
    }
    let ok = check_checksum(input);
    if !ok {
        warns.push(Warning::ChecksumMismatch);
    }
    input[0x7F]
}

/// Whether the whole input decodes into an `Edid` without a hard
/// error: it is long enough, carries the header magic, and every stage
/// accepts its bytes.
pub open spec fn spec_parse_ok(s: Seq<u8>) -> bool {
    &&& s.len() >= 0x80
    &&& header::spec_header_ok(s)
    &&& id::spec_id_ok(s)
    &&& basic_info::spec_basic_ok(s)
    &&& _18bytes::spec_blocks_ok(s)
}

/// The first hard error of a decode, in stage order: length, header,
/// identity, basic display parameters, 18-byte blocks.
pub open spec fn spec_parse_err(s: Seq<u8>) -> EdidError
    recommends
        !spec_parse_ok(s),
{
    if s.len() < 0x80 {
        EdidError::TooShort { got: s.len() as u8, expected: 0x80 }
    } else if !header::spec_header_ok(s) {
        EdidError::NoHeader
    } else if !id::spec_id_ok(s) {
        id::spec_id_error(s)
    } else if !basic_info::spec_basic_ok(s) {
        EdidError::UnknownDigitalInterface(s[0x14] % 16)
    } else {
        _18bytes::spec_blocks_err(s)
    }
}

/// What a correct decode of the whole input looks like.
pub open spec fn edid_matches(e: Edid, s: Seq<u8>) -> bool
    recommends
        s.len() >= 0x80,
        spec_parse_ok(s),
{
    &&& id::id_matches(e.vendor_product_info, s)
    &&& e.version == version::spec_version(s)
    &&& e.basic_display_info == basic_info::spec_basic(s)
    &&& e.color_characteristics == color::spec_color(s)
    &&& e.established_timings == est_timings::spec_est_timings(s)
    &&& e.standard_timings == std_timings::spec_std_timings(s)
    &&& _18bytes::descriptors_match(e.eighteen_byte_data_blocks, s)
    &&& e.extension_info == s[0x7E]
    &&& e.checksum == s[0x7F]
}

/// The decode result a caller may rely on: success exactly on inputs
/// every stage accepts, the first stage error otherwise, and a result
/// whose every field is the decode of its bytes.
pub open spec fn parse_result_matches(r: Result<Edid, EdidError>, s: Seq<u8>) -> bool {
    &&& spec_parse_ok(s) <==> r is Ok
    &&& match r {
        Ok(e) => edid_matches(e, s),
        Err(err) => err == spec_parse_err(s),
    }
}

/// The cross-field warning: a continuous-frequency display without a
/// range limits descriptor in any of its three non-preferred blocks
/// draws one.
pub open spec fn spec_missing_range_warnings(s: Seq<u8>) -> Seq<Warning>
    recommends
        s.len() >= 0x80,
{
    if spec_bit(s[0x18], 0) && !_18bytes::spec_window_is_range_limits(s.subrange(0x48, 0x5A))
        && !_18bytes::spec_window_is_range_limits(s.subrange(0x5A, 0x6C))
        && !_18bytes::spec_window_is_range_limits(s.subrange(0x6C, 0x7E)) {
        seq![Warning::MissingRangeLimits]
    } else {
        Seq::empty()
    }
}

/// Every tolerated deviation a decode reports, in the order the stages
/// run: version, basic parameters, standard timings, the four 18-byte
/// windows, the checksum, and the cross-field check — cut off at the
/// first hard error.
pub open spec fn spec_parse_warnings(s: Seq<u8>) -> Seq<Warning> {
    if s.len() < 0x80 || !header::spec_header_ok(s) || !id::spec_id_ok(s) {
        Seq::empty()
    } else if !basic_info::spec_basic_ok(s) {
        version::spec_version_warnings(s)
    } else if !_18bytes::spec_blocks_ok(s) {
        version::spec_version_warnings(s) + basic_info::spec_basic_warnings(s)
            + std_timings::spec_std_warnings(s) + _18bytes::spec_blocks_warnings(s)
    } else {
        version::spec_version_warnings(s) + basic_info::spec_basic_warnings(s)
            + std_timings::spec_std_warnings(s) + _18bytes::spec_blocks_warnings(s)
            + spec_checksum_warnings(s) + spec_missing_range_warnings(s)
    }
}

/// Decodes a base EDID block, appending exactly the warnings of
/// `spec_parse_warnings` to the given accumulator.
pub fn parse_collecting(input: &[u8], warns: &mut Vec<Warning>) -> (r: Result<Edid, EdidError>)
    ensures
        parse_result_matches(r, input@),
        final(warns)@ == old(warns)@ + spec_parse_warnings(input@),
{
    let ghost w0 = warns@;
    let ghost vw = version::spec_version_warnings(input@);
    let ghost bw = basic_info::spec_basic_warnings(input@);
    let ghost sw = std_timings::spec_std_warnings(input@);
    let ghost blw = _18bytes::spec_blocks_warnings(input@);
    let ghost cw = spec_checksum_warnings(input@);
    proof {
        lemma_concat_empty::<Warning>(w0);
    }
    match check_length(input) {
        Ok(_) => (),
        Err(e) => {
            return Err(e);
        },
    }
    match header::parse(input) {
        Ok(_) => (),
        Err(e) => {
            return Err(e);
        },
    }

    let vendor_product_info = match id::parse(input) {
        Ok(v) => v,
        Err(e) => {
            return Err(e);
        },
    };
    let version = match version::parse(input, warns) {
        Ok(v) => v,
        Err(e) => {
            return Err(e);
        },
    };
    let basic_display_info = match basic_info::parse(input, warns) {
        Ok(b) => b,
        Err(e) => {
            return Err(e);
        },
    };
    proof {
        lemma_concat_assoc(w0, vw, bw);
    }
    let color_characteristics = color::parse(input);
    let established_timings = est_timings::parse(input);
    let standard_timings = std_timings::parse(input, warns);
    proof {
        lemma_concat_assoc(w0, vw + bw, sw);
    }
    let eighteen_byte_data_blocks = match _18bytes::parse(input, warns) {
        Ok(d) => d,
        Err(e) => {
            proof {
                lemma_concat_assoc(w0, vw + bw + sw, blw);
            }
            return Err(e);
        },
    };
    proof {
        lemma_concat_assoc(w0, vw + bw + sw, blw);
    }
    let extension_info = input[0x7E];
    let checksum = checksum(input, warns);
    proof {
        lemma_concat_assoc(w0, vw + bw + sw + blw, cw);
    }

    let edid = Edid {
        vendor_product_info,
        version,
        basic_display_info,
        color_characteristics,
        established_timings,
        standard_timings,
        eighteen_byte_data_blocks,
        extension_info,
        checksum,
    };

    proof {
        let cf = spec_bit(input@[0x18], 0);
        _18bytes::lemma_block_shape(
            edid.eighteen_byte_data_blocks.blocks[0],
            input@.subrange(0x48, 0x5A),
            cf,
        );
        _18bytes::lemma_block_shape(
            edid.eighteen_byte_data_blocks.blocks[1],
            input@.subrange(0x5A, 0x6C),
            cf,
        );
        _18bytes::lemma_block_shape(
            edid.eighteen_byte_data_blocks.blocks[2],
            input@.subrange(0x6C, 0x7E),
            cf,
        );
    }

    // a continuous-frequency display must carry a range limits
    // descriptor in one of its three non-preferred blocks
    if bit(input[0x18], 0) {
        let has_range_desc = matches!(
            &edid.eighteen_byte_data_blocks.blocks[0],
            EighteenByteBlock::Display(DisplayDescriptor::DisplayRangeLimits(_))
        ) || matches!(
            &edid.eighteen_byte_data_blocks.blocks[1],
            EighteenByteBlock::Display(DisplayDescriptor::DisplayRangeLimits(_))
        ) || matches!(
            &edid.eighteen_byte_data_blocks.blocks[2],
            EighteenByteBlock::Display(DisplayDescriptor::DisplayRangeLimits(_))
        );
        if !has_range_desc {
            warns.push(Warning::MissingRangeLimits);
            proof {
                lemma_concat_one(w0 + (vw + bw + sw + blw + cw), Warning::MissingRangeLimits);
            }
        } else {
            proof {
                lemma_concat_empty::<Warning>(w0 + (vw + bw + sw + blw + cw));
            }
        }
    } else {
        proof {
            lemma_concat_empty::<Warning>(w0 + (vw + bw + sw + blw + cw));
        }
    }
    proof {
        lemma_concat_assoc(
            w0,
            vw + bw + sw + blw + cw,
            spec_missing_range_warnings(input@),
        );
    }

    Ok(edid)
}

/// Decodes a base EDID block, dropping the warnings.
pub fn parse(input: &[u8]) -> (r: Result<Edid, EdidError>)
    ensures
        parse_result_matches(r, input@),
{
    let mut warns: Vec<Warning> = Vec::new();
    parse_collecting(input, &mut warns)
}

/// Decodes a base EDID block and hands back the tolerated deviations
/// alongside the result, for callers that sink diagnostics: the
/// returned list is exactly `spec_parse_warnings` of the input. In
/// particular, a conformant, checksummed block draws no
/// checksum-mismatch warning, and a failed checksum always draws one.
pub fn parse_with_warnings(input: &[u8]) -> (r: (Result<Edid, EdidError>, Vec<Warning>))
    ensures
        parse_result_matches(r.0, input@),
        r.1@ == spec_parse_warnings(input@),
{
    let mut warns: Vec<Warning> = Vec::new();
    let result = parse_collecting(input, &mut warns);
    proof {
        lemma_concat_empty::<Warning>(spec_parse_warnings(input@));
    }
    (result, warns)
}

} // verus!
