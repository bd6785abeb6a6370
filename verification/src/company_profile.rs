//! The company profile: the payload shape of the company feed and of the
//! profile lookup, mirrored as plain data.
//!
//! Fields serialised on the wire as `type` are named `*_type` here.

use crate::public_types::{Country, Date};
use vstd::prelude::*;

verus! {

/// Basic company information.
#[derive(Debug, Clone, PartialEq)]
pub struct CompanyProfile {
    pub accounts: Option<CompanyProfileAccounts>,
    pub annual_return: Option<CompanyProfileAnnualReturn>,
    pub branch_company_details: Option<CompanyProfileBranchCompanyDetails>,
    /// Whether this company can file.
    pub can_file: bool,
    pub company_name: String,
    pub company_number: String,
    pub company_status: Option<CompanyProfileCompanyStatus>,
    pub company_status_detail: Option<CompanyProfileCompanyStatusDetail>,
    pub confirmation_statement: Option<CompanyProfileConfirmationStatement>,
    /// When the company was converted/closed, dissolved or removed.
    pub date_of_cessation: Option<Date>,
    pub date_of_creation: Option<Date>,
    /// The number given by an external registration body.
    pub external_registration_number: Option<String>,
    pub foreign_company_details: Option<CompanyProfileForeignCompanyDetails>,
    pub has_been_liquidated: Option<bool>,
    pub has_charges: Option<bool>,
    pub has_insolvency_history: Option<bool>,
    pub is_community_interest_company: Option<bool>,
    pub jurisdiction: Option<CompanyProfileJurisdiction>,
    pub last_full_members_list_date: Option<Date>,
    pub links: CompanyProfileLinks,
    pub partial_data_available: Option<CompanyProfilePartialDataAvailable>,
    pub previous_company_names: Option<Vec<CompanyProfilePreviousCompanyName>>,
    pub registered_office_address: Option<CompanyProfileRegisteredOfficeAddress>,
    pub registered_office_is_in_dispute: Option<bool>,
    pub service_address: Option<CompanyProfileServiceAddress>,
    pub sic_codes: Option<Vec<String>>,
    pub subtype: Option<CompanyProfileSubtype>,
    /// Count of super secure managing officers of a registered overseas entity.
    pub super_secure_managing_officer_count: Option<u8>,
    /// Serialised as `type`.
    pub company_type: CompanyProfileType,
    /// Whether post cannot be delivered to the registered office.
    pub undeliverable_registered_office_address: Option<bool>,
}

/// Company accounts information.
#[derive(Debug, Clone, PartialEq)]
pub struct CompanyProfileAccounts {
    pub accounting_reference_date: CompanyProfileAccountsAccountingReferenceDate,
    pub last_accounts: Option<CompanyProfileAccountsLastAccounts>,
    pub next_account: Option<CompanyProfileAccountsNextAccounts>,
    pub next_due: Option<Date>,
    pub next_made_up_to: Option<Date>,
    pub overdue: Option<bool>,
}

/// The Accounting Reference Date (ARD) of the company.
#[derive(Debug, Clone, PartialEq)]
pub struct CompanyProfileAccountsAccountingReferenceDate {
    pub day: u8,
    pub month: u8,
}

/// The last company accounts filed.
#[derive(Debug, Clone, PartialEq)]
pub struct CompanyProfileAccountsLastAccounts {
    pub made_up_to: Option<Date>,
    pub period_end_on: Option<Date>,
    pub period_start_on: Option<Date>,
    /// Serialised as `type`.
    pub accounts_type: CompanyProfileAccountsLastAccountsType,
}

/// The type of the last company accounts filed.
#[derive(Debug, Clone, Copy, PartialEq, Eq)]
pub enum CompanyProfileAccountsLastAccountsType {
    Null,
    Full,
    Small,
    Medium,
    Group,
    Dormant,
    Interim,
    Initial,
    TotalExemptionFull,
    TotalExemptionSmall,
    PartialExemption,
    AuditExemptionSubsidiary,
    FilingExemptionSubsidiary,
    MicroEntity,
    NoAccountsTypeAvailable,
    AuditedAbridged,
    UnauditedAbridged,
}

/// The next company accounts to be filed.
#[derive(Debug, Clone, PartialEq)]
pub struct CompanyProfileAccountsNextAccounts {
    pub due_on: Option<Date>,
    pub overdue: Option<bool>,
    pub period_end_on: Option<Date>,
    pub period_start_on: Option<Date>,
}

/// Annual return information, present only while no confirmation statement
/// has been filed.
#[derive(Debug, Clone, PartialEq)]
pub struct CompanyProfileAnnualReturn {
    pub last_made_up_to: Option<Date>,
    pub next_due: Option<Date>,
    pub next_made_up_to: Option<Date>,
    pub overdue: Option<bool>,
}

/// UK branch of a foreign company.
#[derive(Debug, Clone, PartialEq)]
pub struct CompanyProfileBranchCompanyDetails {
    pub business_activity: Option<String>,
    pub parent_company_name: Option<String>,
    pub parent_company_number: Option<String>,
}

/// The status of the company.
#[derive(Debug, Clone, Copy, PartialEq, Eq)]
pub enum CompanyProfileCompanyStatus {
    Active,
    Dissolved,
    Liquidation,
    Receivership,
    Administration,
    VoluntaryArrangement,
    ConvertedClosed,
    InsolvencyProceedings,
    Registered,
    Removed,
    Closed,
    Open,
}

/// Extra details about the status of the company.
#[derive(Debug, Clone, Copy, PartialEq, Eq)]
pub enum CompanyProfileCompanyStatusDetail {
    TransferredFromUk,
    ActiveProposalToStrikeOff,
    PetitionToRestoreDissolved,
    TransformedToSe,
    ConvertedToPlc,
}

/// Confirmation statement information.
#[derive(Debug, Clone, PartialEq)]
pub struct CompanyProfileConfirmationStatement {
    pub last_made_up_to: Option<Date>,
    pub next_due: Date,
    pub next_made_up_to: Date,
    pub overdue: Option<bool>,
}

/// Foreign company details.
#[derive(Debug, Clone, PartialEq)]
pub struct CompanyProfileForeignCompanyDetails {
    pub accounting_requirement: Option<CompanyProfileForeignCompanyDetailsAccountingRequirement>,
    pub accounts: Option<CompanyProfileForeignCompanyDetailsAccounts>,
    pub business_activity: Option<String>,
    /// Legal form of the company in the country of incorporation.
    pub company_type: Option<String>,
    pub governed_by: Option<String>,
    pub is_a_credit_finance_institution: Option<bool>,
    pub originating_registry: Option<CompanyProfileForeignCompanyDetailsOriginatingRegistry>,
    pub registration_number: Option<String>,
}

/// Accounts requirement of a foreign company.
#[derive(Debug, Clone, PartialEq)]
pub struct CompanyProfileForeignCompanyDetailsAccountingRequirement {
    pub foreign_account_type: Option<
        CompanyProfileForeignCompanyDetailsAccountingRequirementForeignAccountType,
    >,
    pub terms_of_account_publication: Option<
        CompanyProfileForeignCompanyDetailsAccountingRequirementTermsOfAccountPublication,
    >,
}

/// Which accounting requirement applies.
#[derive(Debug, Clone, Copy, PartialEq, Eq)]
pub enum CompanyProfileForeignCompanyDetailsAccountingRequirementForeignAccountType {
    AccountingRequirementsOfOriginatingCountryApply,
    AccountingRequirementsOfOriginatingCountryDoNotApply,
}

/// How the account publication date is supplied.
#[derive(Debug, Clone, Copy, PartialEq, Eq)]
pub enum CompanyProfileForeignCompanyDetailsAccountingRequirementTermsOfAccountPublication {
    AccountsPublicationDateSuppliedByCompany,
    AccountingPublicationDateDoesNotNeedToBeSuppliedByCompany,
    AccountingReferenceDateAllocatedByCompaniesHouse,
}

/// Foreign company account information.
#[derive(Debug, Clone, PartialEq)]
pub struct CompanyProfileForeignCompanyDetailsAccounts {
    pub account_period_from: Option<CompanyProfileForeignCompanyDetailsAccountsAccountPeriod>,
    pub account_period_to: Option<CompanyProfileForeignCompanyDetailsAccountsAccountPeriod>,
    pub must_file_within: Option<CompanyProfileForeignCompanyDetailsAccountsMustFileWithin>,
}

/// A day and month under parent law.
#[derive(Debug, Clone, PartialEq)]
pub struct CompanyProfileForeignCompanyDetailsAccountsAccountPeriod {
    pub day: Option<u8>,
    pub month: Option<u8>,
}

/// The filing window under parent law.
#[derive(Debug, Clone, PartialEq)]
pub struct CompanyProfileForeignCompanyDetailsAccountsMustFileWithin {
    pub months: Option<u8>,
}

/// Company origin information.
#[derive(Debug, Clone, PartialEq)]
pub struct CompanyProfileForeignCompanyDetailsOriginatingRegistry {
    pub country: Option<String>,
    pub name: Option<String>,
}

/// The political body responsible for the company.
#[derive(Debug, Clone, Copy, PartialEq, Eq)]
pub enum CompanyProfileJurisdiction {
    EnglandWales,
    Wales,
    Scotland,
    NorthernIreland,
    EuropeanUnion,
    UnitedKingdom,
    England,
    NonEu,
}

/// URLs related to the resource.
#[derive(Debug, Clone, PartialEq)]
pub struct CompanyProfileLinks {}

/// Where full data is available when Companies House is not the primary
/// source.
#[derive(Debug, Clone, Copy, PartialEq, Eq)]
pub enum CompanyProfilePartialDataAvailable {
    FullDataAvailableFromFinancialConductAuthority,
    FullDataAvailableFromDepartmentOfTheEconomy,
    FullDataAvailableFromTheCompany,
}

/// A previous name of this company.
#[derive(Debug, Clone, PartialEq)]
pub struct CompanyProfilePreviousCompanyName {
    pub ceased_on: Date,
    pub effective_from: Date,
    pub name: String,
}

/// The address of the company's registered office.
#[derive(Debug, Clone, PartialEq)]
pub struct CompanyProfileRegisteredOfficeAddress {
    pub address_line_1: Option<String>,
    pub address_line_2: Option<String>,
    pub care_of: Option<String>,
    pub country: Option<Country>,
    pub locality: Option<String>,
    pub po_box: Option<String>,
    pub postal_code: Option<String>,
    pub premises: Option<String>,
    pub region: Option<String>,
}

/// The correspondence address of a registered overseas entity.
#[derive(Debug, Clone, PartialEq)]
pub struct CompanyProfileServiceAddress {
    pub address_line_1: Option<String>,
    pub address_line_2: Option<String>,
    pub care_of: Option<String>,
    pub country: Option<String>,
    pub locality: Option<String>,
    pub po_box: Option<String>,
    pub postal_code: Option<String>,
    pub region: Option<String>,
}

/// The subtype of the company.
#[derive(Debug, Clone, Copy, PartialEq, Eq)]
pub enum CompanyProfileSubtype {
    CommunityInterestCompany,
    PrivateFundLimitedPartnership,
}

/// The type of the company.
#[derive(Debug, Clone, Copy, PartialEq, Eq)]
pub enum CompanyProfileType {
    PrivateUnlimited,
    Ltd,
    Plc,
    OldPublicCompany,
    PrivateLimitedGuarantNscLimitedExemption,
    LimitedPartnership,
    PrivateLimitedGuarantNsc,
    ConvertedOrClosed,
    PrivateUnlimitedNsc,
    PrivateLimitedSharesSection30Exemption,
    ProtectedCellCompany,
    AssuranceCompany,
    OverseaCompany,
    Eeig,
    IcvcSecurities,
    IcvcWarrant,
    IcvcUmbrella,
    RegisteredSocietyNonJurisdictional,
    IndustrialAndProvidentSociety,
    NorthernIreland,
    NorthernIrelandOther,
    RoyalCharter,
    InvestmentCompanyWithVariableCapital,
    UnregisteredCompany,
    Llp,
    Other,
    EuropeanPublicLimitedLiabilityCompanySe,
    UkEstablishment,
    ScottishPartnership,
    CharitableIncorporatedOrganisation,
    ScottishCharitableIncorporatedOrganisation,
    FurtherEducationOrSixthFormCollegeCorporation,
    RegisteredOverseasEntity,
}

} // verus!
