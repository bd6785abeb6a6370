//! Company search results, mirrored as plain data.

use crate::public_types::Date;
use vstd::prelude::*;

verus! {

/// One page of company search results.
#[derive(Debug, Clone, PartialEq)]
pub struct CompanySearch {
    pub items: Vec<CompanySearchItem>,
    pub items_per_page: Option<usize>,
    pub start_index: Option<usize>,
    pub total_results: Option<usize>,
}

/// One company search result.
#[derive(Debug, Clone, PartialEq)]
pub struct CompanySearchItem {
    pub address: Option<CompanySearchItemAddress>,
    /// A single line address that matched, or the primary address.
    pub address_snippet: Option<String>,
    pub company_number: String,
    pub company_status: Option<CompanySearchItemCompanyStatus>,
    pub company_type: CompanyStatusItemCompanyType,
    pub date_of_cessation: Option<Date>,
    pub date_of_creation: Option<Date>,
    pub description: Option<String>,
    pub description_identifier: Option<Vec<Option<CompanySearchItemDescriptionIdentifier>>>,
    pub matches: Option<CompanySearchItemMatches>,
    /// Additional details that have matched.
    pub snippet: Option<String>,
    pub title: String,
}

/// The address of the company's registered office.
#[derive(Debug, Clone, PartialEq)]
pub struct CompanySearchItemAddress {
    pub address_line_1: Option<String>,
    pub address_line_2: Option<String>,
    pub care_of: Option<String>,
    pub country: Option<CompanySearchItemAddressCountry>,
    pub locality: Option<String>,
    pub po_box: Option<String>,
    pub postal_code: Option<String>,
    pub region: Option<String>,
}

/// The countries the search results name.
#[derive(Debug, Clone, Copy, PartialEq, Eq)]
pub enum CompanySearchItemAddressCountry {
    Wales,
    England,
    Scotland,
    GreatBritain,
    NotSpecified,
    UnitedKingdom,
    NorthernIreland,
    IsleOfMan,
    BritishVirginIslands,
}

/// The company status.
#[derive(Debug, Clone, Copy, PartialEq, Eq)]
pub enum CompanySearchItemCompanyStatus {
    Active,
    Dissolved,
    Liquidation,
    Receivership,
    Administration,
    VoluntaryArrangement,
    ConvertedClosed,
    InsolvencyProceedings,
    Registered,
    Removed,
}

/// The company type.
#[derive(Debug, Clone, Copy, PartialEq, Eq)]
pub enum CompanyStatusItemCompanyType {
    PrivateUnlimited,
    Ltd,
    Plc,
    OldPublicCompany,
    PrivateLimitedGuarantNscLimitedExemption,
    LimitedPartnership,
    PrivateLimitedGuarantNsc,
    ConvertedOrClosed,
    PrivateUnlimitedNsc,
    PrivateLimitedSharesSection30Exemption,
    AssuranceCompany,
    OverseaCompany,
    Eeig,
    IcvcSecurities,
    IcvcWarrant,
    IcvcUmbrella,
    IndustrialAndProvidentSociety,
    NorthernIreland,
    NorthernIrelandOther,
    RoyalCharter,
    InvestmentCompanyWithVariableCapital,
    UnregisteredCompany,
    Llp,
    Other,
    EuropeanPublicLimitedLiabilityCompanySe,
    RegisteredOverseasEntity,
    /// Almost all company data is blank for this type.
    CharitableIncorporatedOrganisation,
}

/// The enumeration types that make up the search description.
#[derive(Debug, Clone, Copy, PartialEq, Eq)]
pub enum CompanySearchItemDescriptionIdentifier {
    IncorporatedOn,
    RegisteredOn,
    FormedOn,
    DissolvedOn,
    ConvertedClosedOn,
    ClosedOn,
    Closed,
    FirstUkEstablishmentOpenedOn,
    OpenedOn,
    VoluntaryArrangement,
    Receivership,
    InsolvencyProceedings,
    Liquidation,
    Administration,
    Registered,
    Removed,
    RegisteredExternally,
}

/// Character-offset pairs delimiting the substrings that matched.
#[derive(Debug, Clone, PartialEq)]
pub struct CompanySearchItemMatches {
    pub address_snippet: Option<Vec<usize>>,
    pub snippet: Option<Vec<usize>>,
    pub title: Option<Vec<usize>>,
}

} // verus!
