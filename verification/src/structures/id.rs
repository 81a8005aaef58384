//! Vendor and product identity.

use vstd::prelude::*;

verus! {

/// Identifies the display product: who made it, which model it is,
/// its serial number and when it was made.
#[derive(Clone, Debug, PartialEq)]
pub struct VendorProductId {
    /// The display's manufacturer.
    pub manufacturer_name: Manufacturer,
    /// The manufacturer-assigned model identifier.
    pub product_code: u16,
    /// The serial number; a stored zero encodes "absent".
    pub serial_number: Option<u32>,
    /// When the display was manufactured, or its model year.
    pub date: Date,
}

/// The display's manufacturer: either the company name resolved from
/// the plug-and-play registry, or the raw 3-letter code when the
/// registry does not know it.
#[derive(Clone, Debug, PartialEq)]
pub enum Manufacturer {
    /// The company name from the registry.
    Name(String),
    /// The raw 3-letter plug-and-play code, for unregistered vendors.
    Id(String),
}

/// When the display came from.
#[derive(Clone, Copy, Debug, PartialEq, Eq, Structural)]
pub enum Date {
    /// The date of manufacture, down to the week when given.
    Manufacture {
        /// A week value from 1 to 54, if given.
        week: Option<u8>,
        /// The year of manufacture.
        year: u16,
    },
    /// The year the display model was released, which need not be the
    /// year this unit was made.
    ModelYear(u16),
}

} // verus!
