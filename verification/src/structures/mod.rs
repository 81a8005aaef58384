//! The data model that decoding produces.
//!
//! Every type here is an immutable value record, created once during a
//! decode pass and never mutated afterwards.

pub mod _18bytes;
pub mod basic_info;
pub mod color;
pub mod desc;
pub mod est_timings;
pub mod extension;
pub mod id;
pub mod std_timings;
pub mod version;
