//! Error and warning types for the decoder.
//!
//! Hard errors abort the decode and are returned as [`EdidError`].
//! Tolerated deviations from the standard are reported as [`Warning`]
//! values through an accumulator that the parsing functions extend.

use vstd::prelude::*;

verus! {

/// A hard error found while decoding an EDID.
///
/// Each variant identifies the structural rule that the input violated,
/// together with the offending byte(s) where that helps a caller.
#[derive(Clone, Debug, PartialEq)]
pub enum EdidError {
    /// The input has fewer bytes than a base EDID block.
    TooShort { got: u8, expected: u8 },
    /// The input is too short to even hold the fixed 8-byte header.
    HeaderTooShort { real_len: u8, expected_len: u8 },
    /// The fixed 8-byte header magic is not present.
    NoHeader,
    /// The manufacturer id bytes could not be split into 5-bit codes.
    IdBadValues([u8; 2]),
    /// A 3-letter code that the registry does not know. The decoder
    /// never raises this: an unknown code falls back to being stored
    /// raw.
    NoMatchingManufacturer(String),
    /// A 5-bit manufacturer code is above the 26-letter table.
    CharOutOfBounds(u8),
    /// A 5-bit manufacturer code of zero, which has no letter.
    IdNoZeroesAllowed,
    /// A digital video interface code outside the known table.
    UnknownDigitalInterface(u8),
    /// An 18-byte block that is neither a timing nor a well-formed
    /// display descriptor.
    AmbiguousDescriptor { malformed_byte: u8 },
    /// A display descriptor used a tag from the reserved range.
    DescriptorUsedReservedKind { kind_byte: u8 },
    /// Reserved bits were set in the range-limits offset byte.
    DescriptorRangeLimitsUsedReservedBits { input: u8 },
    /// The range-limits video timing support byte holds a reserved value.
    DescriptorRangeLimitsUsedReservedVTSFlag { flag: u8 },
    /// The CVT part of a range-limits descriptor used reserved values.
    DescriptorRangeLimitsCvtReservedBits,
    /// A display descriptor whose five header bytes are malformed.
    DescriptorUnexpectedHeader([u8; 5]),
    /// A CVT descriptor without its mandatory first timing code.
    DescriptorNoFirstCvt,
    /// A bounded string would have overflowed.
    ArrayStringError,
    /// A slice could not be converted to a fixed-size array.
    TryFromSlice,
    /// A byte is not valid packed binary-coded decimal.
    BcdError,
}

/// A tolerated deviation from the standard, reported but not fatal.
#[derive(Clone, Copy, Debug, PartialEq, Eq, Structural)]
pub enum Warning {
    /// The 128-byte block does not sum to zero modulo 256.
    ChecksumMismatch,
    /// The version/revision pair is above the latest supported one.
    VersionAboveSupported,
    /// The first 18-byte block is not a detailed timing definition.
    FirstBlockNotTiming,
    /// The display is continuous-frequency but no range-limits
    /// descriptor is present.
    MissingRangeLimits,
    /// A standard timing used the non-conformant `[0x01, 0x00]` sentinel.
    NonConformantStandardTimingSentinel,
    /// A standard timing used the invalid pixel-count byte `0x00`.
    StandardTimingZeroPixelCount,
    /// An aspect-ratio code of `0xFF`, where the true ratio may exceed
    /// the representable range.
    AspectRatioPrecisionLoss,
    /// A gamma byte of `0x00`, which the standard leaves undefined.
    GammaZeroByte,
    /// A dummy descriptor that carries data.
    DummyDescriptorNonZero,
    /// A DCM descriptor with a reserved version number.
    DcmReservedVersion,
    /// A CVT descriptor with a reserved version number.
    CvtReservedVersion,
    /// Reserved bits set inside a CVT 3-byte timing code.
    CvtReservedBits,
    /// A white point using the reserved index `0x00`.
    WhitePointReservedIndex,
    /// Reserved bits set in an Established Timings III descriptor.
    EstablishedTimingsIiiReservedBits,
    /// A range-limits rate byte of zero.
    RangeLimitsRateZero,
    /// A descriptor claims GTF or CVT support while the EDID's
    /// continuous-frequency feature bit is off.
    ContinuousFrequencyMismatch,
    /// The reserved byte of a GTF secondary curve block is non-zero.
    GtfSecondaryReservedByte,
    /// The reserved final byte of a standard timing identifications
    /// descriptor is not `0x0A`.
    MoreStandardTimingsReservedByte,
}

} // verus!
