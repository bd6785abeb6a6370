//! Disqualified-officer search results, mirrored as plain data.

use crate::public_types::Date;
use vstd::prelude::*;

verus! {

/// One page of disqualified-officer search results.
#[derive(Debug, Clone, PartialEq)]
pub struct DisqualifiedOfficerSearch {
    pub items: Option<Vec<DisqualifiedOfficerSearchItem>>,
    pub items_per_page: Option<usize>,
    pub start_index: Option<usize>,
    pub total_results: Option<usize>,
}

/// One disqualified-officer search result.
#[derive(Debug, Clone, PartialEq)]
pub struct DisqualifiedOfficerSearchItem {
    /// The address as provided by the disqualifying authority.
    pub address: DisqualifiedOfficerSearchItemAddress,
    /// A single line address that matched, or the primary address.
    pub address_snippet: String,
    pub date_of_birth: Option<Date>,
    pub description: String,
    pub description_identifiers: Option<Vec<DisqualifiedOfficerSearchItemDescriptionIdentifiers>>,
    pub matches: Option<DisqualifiedOfficerSearchItemMatches>,
    /// Additional details that have matched.
    pub snippet: Option<String>,
    pub title: String,
}

/// The disqualified officer's address.
#[derive(Debug, Clone, PartialEq)]
pub struct DisqualifiedOfficerSearchItemAddress {
    pub address_line_1: Option<String>,
    pub address_line_2: Option<String>,
    pub country: Option<String>,
    pub locality: Option<String>,
    pub postal_code: Option<String>,
    pub premises: Option<String>,
    pub region: Option<String>,
}

/// The enumeration types that make up the search description.
#[derive(Debug, Clone, Copy, PartialEq, Eq)]
pub enum DisqualifiedOfficerSearchItemDescriptionIdentifiers {
    BornOn,
}

/// Character-offset pairs delimiting the substrings that matched.
#[derive(Debug, Clone, PartialEq)]
pub struct DisqualifiedOfficerSearchItemMatches {
    pub address_snippet: Option<Vec<usize>>,
    pub snippet: Option<Vec<usize>>,
    pub title: Option<Vec<usize>>,
}

} // verus!
