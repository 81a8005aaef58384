//! The display descriptor sub-decoders, one per tag.

pub mod _13_byte_string;
pub mod color_point;
pub mod cvt;
pub mod dcm;
pub mod iii;
pub mod more_std_timings;
pub mod range_limits;
