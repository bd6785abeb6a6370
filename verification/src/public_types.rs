//! Data shapes shared across the lookup operations.
//!
//! These mirror the remote service's JSON schemas as plain data. The crate
//! states nothing about them beyond their shape; callers that need serde
//! derives keep their own copies and convert.

use vstd::prelude::*;

verus! {

/// Dates travel as strings of the service's own formatting.
pub type Date = String;

/// The countries the service names in registered-office addresses.
#[derive(Debug, Clone, Copy, PartialEq, Eq)]
pub enum Country {
    England,
    Wales,
    Scotland,
    NorthernIreland,
    GreatBritain,
    UnitedKingdom,
    NotSpecified,
}

/// Registered office address of a company.
#[derive(Debug, Clone, PartialEq)]
pub struct RegisteredOfficeAddress {
    /// Confirms the address is appropriate under section 86(2) of the
    /// Companies Act 2006.
    pub accept_appropriate_office_address_statement: Option<bool>,
    pub address_line_1: String,
    pub address_line_2: Option<String>,
    pub country: Country,
    pub locality: String,
    pub postal_code: Option<String>,
    /// The property name or number.
    pub premises: Option<String>,
    pub region: Option<String>,
}

} // verus!
