//! Filing history entries: the payload shape of the filing feed, mirrored as
//! plain data.
//!
//! Fields serialised on the wire as `type` are named `*_type` here.

use crate::public_types::Date;
use vstd::prelude::*;

verus! {

/// One filing-history entry.
#[derive(Debug, Clone, PartialEq)]
pub struct FilingHistory {
    pub annotations: Option<Vec<FilingHistoryAnnotation>>,
    pub associated_filings: Option<Vec<FilingHistoryAssociatedFiling>>,
    /// The barcode of the document.
    pub barcode: Option<String>,
    pub category: FilingHistoryCategory,
    /// The date the filing was processed.
    pub date: Date,
    pub description: String,
    pub links: Option<FilingHistoryLinks>,
    /// Number of pages within the PDF document `links.document_metadata`.
    pub pages: Option<usize>,
    /// Whether this is a paper filing.
    pub paper_filed: Option<bool>,
    pub resolutions: Option<Vec<FilingHistoryResolution>>,
    pub subcategory: Option<FilingHistorySubCategory>,
    /// The transaction ID of the filing.
    pub transaction_id: String,
    /// Serialised as `type`.
    pub filing_type: String,
}

/// An annotation on a filing.
#[derive(Debug, Clone, PartialEq)]
pub struct FilingHistoryAnnotation {
    pub annotation: Option<String>,
    /// The date the annotation was added.
    pub date: String,
    pub description: String,
}

/// A filing associated with this one.
#[derive(Debug, Clone, PartialEq)]
pub struct FilingHistoryAssociatedFiling {
    /// The date the associated filing was processed.
    pub date: String,
    pub description: String,
    /// Serialised as `type`.
    pub filing_type: String,
}

/// The category of the document filed.
#[derive(Debug, Clone, Copy, PartialEq, Eq)]
pub enum FilingHistoryCategory {
    Accounts,
    Address,
    AnnualReturn,
    Capital,
    ConfirmationStatement,
    ChangeOfName,
    Incorporation,
    Liquidation,
    Miscellaneous,
    Mortgage,
    Officers,
    PersonsWithSignificantControl,
    Resolution,
}

/// Links related to a filing.
#[derive(Debug, Clone, PartialEq)]
pub struct FilingHistoryLinks {
    /// Link to the document metadata associated with this entry.
    pub document_metadata: Option<String>,
}

/// A resolution within a filing.
#[derive(Debug, Clone, PartialEq)]
pub struct FilingHistoryResolution {
    pub category: FilingHistoryResolutionCategory,
    pub description: String,
    /// The document id of the resolution.
    pub document_id: Option<String>,
    /// The date the resolution was processed.
    pub receive_date: Date,
    pub subcategory: FilingHistorySubCategory,
    /// Serialised as `type`.
    pub resolution_type: String,
}

/// The category of a resolution.
#[derive(Debug, Clone, Copy, PartialEq, Eq)]
pub enum FilingHistoryResolutionCategory {
    Miscellaneous,
}

/// The sub-category of the document filed.
#[derive(Debug, Clone, Copy, PartialEq, Eq)]
pub enum FilingHistorySubCategory {
    Resolution,
}

} // verus!
