//! The version and revision bytes.

use crate::error::{EdidError, Warning};
use crate::structures::version::EdidVersion;
use vstd::prelude::*;

verus! {

/// The version and revision bytes, stored verbatim.
pub open spec fn spec_version(s: Seq<u8>) -> EdidVersion
    recommends
        s.len() >= 0x14,
{
    EdidVersion { version: s[0x12], revision: s[0x13] }
}

/// Whether the version/revision pair exceeds the latest supported one.
pub open spec fn spec_version_above_supported(v: EdidVersion) -> bool {
    ||| v.version > crate::LATEST_SUPPORTED_VERSION
    ||| (v.version == crate::LATEST_SUPPORTED_VERSION && v.revision
        > crate::LATEST_SUPPORTED_REVISION)
}

/// The warning the version bytes draw: one when the pair exceeds the
/// latest supported one, none otherwise.
pub open spec fn spec_version_warnings(s: Seq<u8>) -> Seq<Warning>
    recommends
        s.len() >= 0x14,
{
    if spec_version_above_supported(spec_version(s)) {
        seq![Warning::VersionAboveSupported]
    } else {
        Seq::empty()
    }
}

/// Decodes the version and revision bytes. Any value is accepted; a
/// pair above the latest supported one only draws a warning.
pub fn parse(input: &[u8], warns: &mut Vec<Warning>) -> (r: Result<
    EdidVersion,
    EdidError,
>)
    requires
        input@.len() >= 0x14,
    ensures
        r == Result::<EdidVersion, EdidError>::Ok(spec_version(input@)),
        final(warns)@ == old(warns)@ + spec_version_warnings(input@),
{
    let version = input[0x12];
    let revision = input[0x13];
    if version > crate::LATEST_SUPPORTED_VERSION || (version == crate::LATEST_SUPPORTED_VERSION
        && revision > crate::LATEST_SUPPORTED_REVISION) {
        warns.push(Warning::VersionAboveSupported);
        proof {
            crate::parser::lemma_concat_one(old(warns)@, Warning::VersionAboveSupported);
        }
    } else {
        proof {
            crate::parser::lemma_concat_empty::<Warning>(old(warns)@);
        }
    }
    Ok(EdidVersion { version, revision })
}

} // verus!
