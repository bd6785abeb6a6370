//! Officer search results, mirrored as plain data.

use vstd::prelude::*;

verus! {

/// One page of officer search results.
#[derive(Debug, Clone, PartialEq)]
pub struct OfficerSearch {
    pub items: Option<Vec<OfficerSearchItem>>,
    pub items_per_page: Option<usize>,
    pub start_index: Option<usize>,
    pub total_results: Option<usize>,
}

/// One officer search result.
#[derive(Debug, Clone, PartialEq)]
pub struct OfficerSearchItem {
    pub address: OfficerSearchItemAddress,
    /// A single line address that matched, or the primary address.
    pub address_snippet: String,
    /// The total number of appointments the officer has.
    pub appointment_count: usize,
    pub date_of_birth: Option<OfficerSearchItemDateOfBirth>,
    pub description: String,
    pub description_identifiers: Option<Vec<OfficerSearchItemDescriptionIdentifiers>>,
    pub matches: Option<OfficerSearchItemMatches>,
    /// Additional details that have matched.
    pub snippet: Option<String>,
    pub title: String,
}

/// The officer's address.
#[derive(Debug, Clone, PartialEq)]
pub struct OfficerSearchItemAddress {
    pub address_line_1: Option<String>,
    pub address_line_2: Option<String>,
    pub care_of: Option<String>,
    pub country: Option<String>,
    pub locality: Option<String>,
    pub po_box: Option<String>,
    pub postal_code: Option<String>,
    pub premises: Option<String>,
    pub region: Option<String>,
}

/// The officer's date of birth, to month precision.
#[derive(Debug, Clone, PartialEq)]
pub struct OfficerSearchItemDateOfBirth {
    pub month: u8,
    pub year: u16,
}

/// The enumeration types that make up the search description.
#[derive(Debug, Clone, Copy, PartialEq, Eq)]
pub enum OfficerSearchItemDescriptionIdentifiers {
    AppointmentCount,
    BornOn,
}

/// Character-offset pairs delimiting the substrings that matched.
#[derive(Debug, Clone, PartialEq)]
pub struct OfficerSearchItemMatches {
    pub address_snippet: Option<Vec<usize>>,
    pub snippet: Option<Vec<usize>>,
    pub title: Option<Vec<usize>>,
}

} // verus!
