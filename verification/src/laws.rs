//! General properties of the decoder, stated and proved once for all
//! inputs.
//!
//! One property needs no lemma of its own: `parser::parse` carries no
//! `requires`, so its verification already shows that any byte slice
//! whatsoever decodes without a panic or an out-of-bounds access,
//! producing either a full result or the exact typed error of
//! `parser::spec_parse_err`.

use crate::error::{EdidError, Warning};
use crate::parser::id::spec_code_char;
use crate::parser::_18bytes::descriptors::{
    color_point, cvt, more_std_timings, range_limits,
};
use crate::parser::{
    byte_sum, lemma_byte_sum_bound, lemma_concat_contains, parse_result_matches,
    spec_checksum_of, spec_checksum_ok, spec_checksum_warnings, spec_missing_range_warnings,
    spec_parse_warnings, _18bytes, basic_info, std_timings, version,
};
use crate::ratio::{lemma_spec_ratio_represents, ratio_lt, spec_ratio};
use crate::Edid;
use vstd::arithmetic::div_mod::{lemma_add_mod_noop, lemma_fundamental_div_mod};
use vstd::prelude::*;

verus! {

/// A successful decode stores the checksum byte exactly as observed:
/// the result's `checksum` field is byte `0x7F` of the input.
pub proof fn lemma_decoded_checksum_is_stored(r: Result<Edid, EdidError>, s: Seq<u8>)
    requires
        parse_result_matches(r, s),
        r is Ok,
    ensures
        r->Ok_0.checksum == s[0x7F],
{
}

/// The checksum round-trips: the first 128 bytes sum to zero modulo
/// 256 exactly when byte `0x7F` equals the complement of the sum of
/// the first 127 bytes. So on a conformant block the independent sum
/// check accepts, and recomputing the checksum reproduces the stored
/// byte.
pub proof fn lemma_checksum_round_trip(s: Seq<u8>)
    requires
        s.len() >= 0x80,
    ensures
        spec_checksum_ok(s) <==> spec_checksum_of(s) == s[0x7F],
{
    let head = s.take(0x7F);
    let full = s.take(0x80);
    assert(full.drop_last() =~= head);
    assert(full.last() == s[0x7F]);
    let a = byte_sum(head);
    let b = s[0x7F] as int;
    assert(byte_sum(full) == a + b);
    lemma_byte_sum_bound(head);
    lemma_fundamental_div_mod(a, 256);
    let m = a % 256;
    lemma_add_mod_noop(a, b, 256);
    assert((a + b) % 256 == (m + b % 256) % 256);
    assert(b % 256 == b) by {
        lemma_fundamental_div_mod(b, 256);
    }
    if m + b < 256 {
        lemma_fundamental_div_mod(m + b, 256);
        assert((m + b) % 256 == m + b);
    } else {
        assert((m + b) % 256 == m + b - 256) by {
            lemma_fundamental_div_mod(m + b, 256);
            assert(256 <= m + b < 512);
        }
    }
}

/// The 5-bit manufacturer codes map one-to-one into letters: distinct
/// codes in 1..=26 give distinct characters.
pub proof fn lemma_code_char_injective(c1: u8, c2: u8)
    requires
        1 <= c1 <= 26,
        1 <= c2 <= 26,
        c1 != c2,
    ensures
        spec_code_char(c1) != spec_code_char(c2),
{
    assert(spec_code_char(c1) as int == 64 + c1);
    assert(spec_code_char(c2) as int == 64 + c2);
}

/// Every letter 'A'..='Z' is reached by some 5-bit code in 1..=26, so
/// together with injectivity the mapping is a bijection onto the
/// alphabet. (Codes 0 and 27..=31 are rejected, by the contract of
/// `convert_5bit_ascii`.)
pub proof fn lemma_code_char_surjective(ch: char)
    requires
        'A' <= ch <= 'Z',
    ensures
        exists|c: u8| 1 <= c <= 26 && spec_code_char(c) == ch,
{
    let c: u8 = ((ch as int) - 64) as u8;
    assert('A' as int == 65 && 'Z' as int == 90);
    assert(1 <= c <= 26);
    assert(spec_code_char(c) as int == 64 + c);
    assert(spec_code_char(c) == ch);
}

/// Every 10-bit coordinate value lies in `[0, 1023/1024]` as a
/// fraction.
pub proof fn lemma_coordinate_in_unit_range(raw: u16)
    requires
        raw <= 1023,
    ensures
        spec_ratio(raw as nat, 1024).numer * 1024 <= 1023 * spec_ratio(raw as nat, 1024).denom,
        spec_ratio(raw as nat, 1024).denom > 0,
{
    lemma_spec_ratio_represents(raw as nat, 1024);
    let r = spec_ratio(raw as nat, 1024);
    assert(r.numer * 1024 == raw * r.denom);
    assert(raw * r.denom <= 1023 * r.denom) by (nonlinear_arith)
        requires
            raw <= 1023,
            r.denom >= 0,
    ;
}

/// Shorthand: the sequence reports no checksum mismatch.
spec fn no_cm(s: Seq<Warning>) -> bool {
    !s.contains(Warning::ChecksumMismatch)
}

/// Neither the empty warning sequence nor a single warning of another
/// kind reports a checksum mismatch.
proof fn lemma_no_cm_base(w: Warning)
    requires
        w != Warning::ChecksumMismatch,
    ensures
        no_cm(seq![w]),
        no_cm(Seq::<Warning>::empty()),
{
    assert(forall|i: int| 0 <= i < 1 ==> seq![w][i] != Warning::ChecksumMismatch);
}

/// Concatenations of mismatch-free parts are mismatch-free.
proof fn lemma_no_cm_concat(a: Seq<Warning>, b: Seq<Warning>)
    requires
        no_cm(a),
        no_cm(b),
    ensures
        no_cm(a + b),
{
    lemma_concat_contains(a, b, Warning::ChecksumMismatch);
}

/// No standard timing slot warning is a checksum mismatch.
proof fn lemma_no_cm_st(b0: u8, b1: u8)
    ensures
        no_cm(std_timings::spec_st_warnings(b0, b1)),
{
    lemma_no_cm_base(Warning::NonConformantStandardTimingSentinel);
    lemma_no_cm_base(Warning::StandardTimingZeroPixelCount);
}

/// No standard timings warning is a checksum mismatch.
proof fn lemma_no_cm_std(s: Seq<u8>)
    requires
        s.len() >= 0x36,
    ensures
        no_cm(std_timings::spec_std_warnings(s)),
{
    let a1 = std_timings::spec_st_warnings(s[0x26], s[0x27]);
    let a2 = std_timings::spec_st_warnings(s[0x28], s[0x29]);
    let a3 = std_timings::spec_st_warnings(s[0x2A], s[0x2B]);
    let a4 = std_timings::spec_st_warnings(s[0x2C], s[0x2D]);
    let a5 = std_timings::spec_st_warnings(s[0x2E], s[0x2F]);
    let a6 = std_timings::spec_st_warnings(s[0x30], s[0x31]);
    let a7 = std_timings::spec_st_warnings(s[0x32], s[0x33]);
    let a8 = std_timings::spec_st_warnings(s[0x34], s[0x35]);
    lemma_no_cm_st(s[0x26], s[0x27]);
    lemma_no_cm_st(s[0x28], s[0x29]);
    lemma_no_cm_st(s[0x2A], s[0x2B]);
    lemma_no_cm_st(s[0x2C], s[0x2D]);
    lemma_no_cm_st(s[0x2E], s[0x2F]);
    lemma_no_cm_st(s[0x30], s[0x31]);
    lemma_no_cm_st(s[0x32], s[0x33]);
    lemma_no_cm_st(s[0x34], s[0x35]);
    lemma_no_cm_concat(a1, a2);
    lemma_no_cm_concat(a1 + a2, a3);
    lemma_no_cm_concat(a1 + a2 + a3, a4);
    lemma_no_cm_concat(a1 + a2 + a3 + a4, a5);
    lemma_no_cm_concat(a1 + a2 + a3 + a4 + a5, a6);
    lemma_no_cm_concat(a1 + a2 + a3 + a4 + a5 + a6, a7);
    lemma_no_cm_concat(a1 + a2 + a3 + a4 + a5 + a6 + a7, a8);
}

/// No basic display parameter warning is a checksum mismatch.
proof fn lemma_no_cm_basic(s: Seq<u8>)
    requires
        s.len() >= 0x19,
    ensures
        no_cm(basic_info::spec_basic_warnings(s)),
{
    lemma_no_cm_base(Warning::AspectRatioPrecisionLoss);
    lemma_no_cm_base(Warning::GammaZeroByte);
    lemma_no_cm_concat(
        basic_info::spec_size_warnings(s[0x15], s[0x16]),
        basic_info::spec_gamma_warnings(s[0x17]),
    );
}

/// No range limits descriptor warning is a checksum mismatch.
proof fn lemma_no_cm_range_limits(w: Seq<u8>, cf: bool)
    requires
        w.len() == 18,
    ensures
        no_cm(range_limits::spec_range_limits_warnings(w, cf)),
{
    lemma_no_cm_base(Warning::RangeLimitsRateZero);
    lemma_no_cm_base(Warning::ContinuousFrequencyMismatch);
    lemma_no_cm_base(Warning::GtfSecondaryReservedByte);
    lemma_no_cm_base(Warning::CvtReservedBits);
    let z5 = range_limits::spec_rate_warning(w[5]);
    let z6 = range_limits::spec_rate_warning(w[6]);
    let z7 = range_limits::spec_rate_warning(w[7]);
    let z8 = range_limits::spec_rate_warning(w[8]);
    lemma_no_cm_concat(z5, z6);
    lemma_no_cm_concat(z5 + z6, z7);
    lemma_no_cm_concat(z5 + z6 + z7, z8);
    let jl = range_limits::spec_limits_warnings(w);
    let cfw = range_limits::spec_cf_warnings(cf);
    lemma_no_cm_concat(cfw, range_limits::spec_gtf_secondary_warnings(w));
    lemma_no_cm_concat(cfw, range_limits::spec_cvt_rl_warnings(w));
    lemma_no_cm_concat(jl, Seq::<Warning>::empty());
    lemma_no_cm_concat(jl, cfw);
    lemma_no_cm_concat(jl, cfw + range_limits::spec_gtf_secondary_warnings(w));
    lemma_no_cm_concat(jl, cfw + range_limits::spec_cvt_rl_warnings(w));
}

/// No CVT descriptor warning is a checksum mismatch.
proof fn lemma_no_cm_cvt(w: Seq<u8>)
    requires
        w.len() == 18,
    ensures
        no_cm(cvt::spec_cvt_warnings(w)),
{
    lemma_no_cm_base(Warning::CvtReservedVersion);
    lemma_no_cm_base(Warning::CvtReservedBits);
    let c1 = cvt::spec_cvt_one_warnings(w[6], w[7], w[8]);
    let c2 = cvt::spec_cvt_one_warnings(w[9], w[10], w[11]);
    let c3 = cvt::spec_cvt_one_warnings(w[12], w[13], w[14]);
    let c4 = cvt::spec_cvt_one_warnings(w[15], w[16], w[17]);
    let one = seq![Warning::CvtReservedBits];
    lemma_no_cm_concat(one, one);
    lemma_no_cm_concat(one, Seq::<Warning>::empty());
    lemma_no_cm_concat(Seq::<Warning>::empty(), one);
    lemma_no_cm_concat(Seq::<Warning>::empty(), Seq::<Warning>::empty());
    let vw = if w[5] != 0x01 {
        seq![Warning::CvtReservedVersion]
    } else {
        Seq::<Warning>::empty()
    };
    lemma_no_cm_concat(vw, c1);
    lemma_no_cm_concat(c2, c3);
    lemma_no_cm_concat(c2 + c3, c4);
    lemma_no_cm_concat(vw + c1, c2 + c3 + c4);
    lemma_no_cm_concat(vw + c1, Seq::<Warning>::empty());
}

/// No standard timing identifications warning is a checksum mismatch.
proof fn lemma_no_cm_more_std(w: Seq<u8>)
    requires
        w.len() == 18,
    ensures
        no_cm(more_std_timings::spec_more_std_warnings(w)),
{
    lemma_no_cm_base(Warning::MoreStandardTimingsReservedByte);
    let rb = if w[17] != 0x0A {
        seq![Warning::MoreStandardTimingsReservedByte]
    } else {
        Seq::<Warning>::empty()
    };
    let a1 = std_timings::spec_st_warnings(w[5], w[6]);
    let a2 = std_timings::spec_st_warnings(w[7], w[8]);
    let a3 = std_timings::spec_st_warnings(w[9], w[10]);
    let a4 = std_timings::spec_st_warnings(w[11], w[12]);
    let a5 = std_timings::spec_st_warnings(w[13], w[14]);
    let a6 = std_timings::spec_st_warnings(w[15], w[16]);
    lemma_no_cm_st(w[5], w[6]);
    lemma_no_cm_st(w[7], w[8]);
    lemma_no_cm_st(w[9], w[10]);
    lemma_no_cm_st(w[11], w[12]);
    lemma_no_cm_st(w[13], w[14]);
    lemma_no_cm_st(w[15], w[16]);
    lemma_no_cm_concat(rb, a1);
    lemma_no_cm_concat(rb + a1, a2);
    lemma_no_cm_concat(rb + a1 + a2, a3);
    lemma_no_cm_concat(rb + a1 + a2 + a3, a4);
    lemma_no_cm_concat(rb + a1 + a2 + a3 + a4, a5);
    lemma_no_cm_concat(rb + a1 + a2 + a3 + a4 + a5, a6);
}

/// No 18-byte window warning is a checksum mismatch.
proof fn lemma_no_cm_block(w: Seq<u8>, cf: bool)
    requires
        w.len() == 18,
    ensures
        no_cm(_18bytes::spec_block_warnings(w, cf)),
{
    lemma_no_cm_base(Warning::WhitePointReservedIndex);
    lemma_no_cm_base(Warning::DcmReservedVersion);
    lemma_no_cm_base(Warning::EstablishedTimingsIiiReservedBits);
    lemma_no_cm_base(Warning::DummyDescriptorNonZero);
    lemma_no_cm_concat(
        color_point::spec_white_point_warnings(w, 0),
        color_point::spec_white_point_warnings(w, 5),
    );
    lemma_no_cm_range_limits(w, cf);
    lemma_no_cm_cvt(w);
    lemma_no_cm_more_std(w);
}

/// No warning of the four 18-byte windows is a checksum mismatch.
proof fn lemma_no_cm_blocks(s: Seq<u8>)
    requires
        s.len() >= 0x80,
    ensures
        no_cm(_18bytes::spec_blocks_warnings(s)),
{
    let cf = crate::parser::bitfield::spec_bit(s[0x18], 0);
    let w1 = s.subrange(0x36, 0x48);
    let w2 = s.subrange(0x48, 0x5A);
    let w3 = s.subrange(0x5A, 0x6C);
    let w4 = s.subrange(0x6C, 0x7E);
    let b1 = _18bytes::spec_block_warnings(w1, cf);
    let b2 = _18bytes::spec_block_warnings(w2, cf);
    let b3 = _18bytes::spec_block_warnings(w3, cf);
    let b4 = _18bytes::spec_block_warnings(w4, cf);
    let fb: Seq<Warning> = if !_18bytes::spec_is_timing(w1) {
        seq![Warning::FirstBlockNotTiming]
    } else {
        Seq::<Warning>::empty()
    };
    lemma_no_cm_base(Warning::FirstBlockNotTiming);
    lemma_no_cm_block(w1, cf);
    lemma_no_cm_block(w2, cf);
    lemma_no_cm_block(w3, cf);
    lemma_no_cm_block(w4, cf);
    lemma_no_cm_concat(b1, fb);
    lemma_no_cm_concat(b1 + fb, b2);
    lemma_no_cm_concat(b1 + fb + b2, b3);
    lemma_no_cm_concat(b1 + fb + b2 + b3, b4);
}

/// A decode reports a checksum mismatch exactly when the block fails
/// its sum check: a conformant, checksummed block draws no
/// checksum-mismatch warning, and a block that decodes but fails the
/// check always draws one.
pub proof fn lemma_checksum_warning_exact(s: Seq<u8>)
    requires
        crate::parser::spec_parse_ok(s),
    ensures
        spec_parse_warnings(s).contains(Warning::ChecksumMismatch) <==> !spec_checksum_ok(s),
{
    let vw = version::spec_version_warnings(s);
    let bw = basic_info::spec_basic_warnings(s);
    let sw = std_timings::spec_std_warnings(s);
    let blw = _18bytes::spec_blocks_warnings(s);
    let cw = spec_checksum_warnings(s);
    let mw = spec_missing_range_warnings(s);
    lemma_no_cm_base(Warning::VersionAboveSupported);
    lemma_no_cm_base(Warning::MissingRangeLimits);
    lemma_no_cm_basic(s);
    lemma_no_cm_std(s);
    lemma_no_cm_blocks(s);
    lemma_concat_contains(vw, bw, Warning::ChecksumMismatch);
    lemma_concat_contains(vw + bw, sw, Warning::ChecksumMismatch);
    lemma_concat_contains(vw + bw + sw, blw, Warning::ChecksumMismatch);
    lemma_concat_contains(vw + bw + sw + blw, cw, Warning::ChecksumMismatch);
    lemma_concat_contains(vw + bw + sw + blw + cw, mw, Warning::ChecksumMismatch);
    if !spec_checksum_ok(s) {
        assert(cw[0] == Warning::ChecksumMismatch);
        assert(cw.contains(Warning::ChecksumMismatch));
    } else {
        assert(!cw.contains(Warning::ChecksumMismatch)) by {
            assert(forall|i: int| 0 <= i < cw.len() ==> cw[i] != Warning::ChecksumMismatch);
        }
    }
}

/// The coordinate fractions grow strictly with the raw 10-bit value:
/// a larger raw value is a strictly larger fraction.
pub proof fn lemma_into_decimal_monotonic(raw1: u16, raw2: u16)
    requires
        raw1 < raw2 <= 1023,
    ensures
        ratio_lt(spec_ratio(raw1 as nat, 1024), spec_ratio(raw2 as nat, 1024)),
{
    lemma_spec_ratio_represents(raw1 as nat, 1024);
    lemma_spec_ratio_represents(raw2 as nat, 1024);
    let r1 = spec_ratio(raw1 as nat, 1024);
    let r2 = spec_ratio(raw2 as nat, 1024);
    assert(r1.numer * r2.denom < r2.numer * r1.denom) by (nonlinear_arith)
        requires
            r1.numer * 1024 == raw1 * r1.denom,
            r2.numer * 1024 == raw2 * r2.denom,
            r1.denom > 0,
            r2.denom > 0,
            raw1 < raw2,
    ;
}

} // verus!
