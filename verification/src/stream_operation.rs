//! Operation descriptors for the event feeds: which endpoint a connection
//! binds to, and which payload shapes its records are expected to carry.
//!
//! The set of feeds is small and fixed, so each is a unit struct implementing
//! [`CompaniesHouseStreamingOperation`]. A payload shape is a predicate over
//! the JSON model checking the members a payload must at least carry, with
//! their JSON types; the exhaustive field-by-field mirror of the remote
//! schema stays with the caller's typed binding.

use crate::json::{get_member, json_view, value_as_str, value_is_object, JsonData};
use vstd::prelude::*;

verus! {

/// A stateless description of one feed: its path under the streaming host
/// and the shape of its record payloads.
pub trait CompaniesHouseStreamingOperation: Sized {
    /// The endpoint path of this feed.
    spec fn endpoint_spec() -> Seq<char>;

    /// Which parsed payloads (`data` members) this feed's records may carry.
    spec fn payload_shape(j: JsonData) -> bool;

    fn endpoint(&self) -> (r: &'static str)
        ensures
            r@ == Self::endpoint_spec(),
    ;

    fn payload_matches(&self, v: &serde_json::Value) -> (r: bool)
        ensures
            r == Self::payload_shape(json_view(*v)),
    ;
}

/// Does the document have member `k`, holding a string?
pub open spec fn has_str_member(j: JsonData, k: Seq<char>) -> bool {
    &&& j is Obj
    &&& j->Obj_fields.contains_key(k)
    &&& j->Obj_fields[k] is Str
}

/// Does the document have member `k`, holding an object?
pub open spec fn has_obj_member(j: JsonData, k: Seq<char>) -> bool {
    &&& j is Obj
    &&& j->Obj_fields.contains_key(k)
    &&& j->Obj_fields[k] is Obj
}

fn member_is_str(v: &serde_json::Value, k: &str) -> (r: bool)
    ensures
        r == has_str_member(json_view(*v), k@),
{
    match get_member(v, k) {
        Some(m) => value_as_str(m).is_some(),
        None => false,
    }
}

fn member_is_obj(v: &serde_json::Value, k: &str) -> (r: bool)
    ensures
        r == has_obj_member(json_view(*v), k@),
{
    match get_member(v, k) {
        Some(m) => value_is_object(m),
        None => false,
    }
}

/// The members a company-profile payload must carry: its name, its number,
/// its links object, and its company type.
pub open spec fn company_profile_shape(j: JsonData) -> bool {
    &&& has_str_member(j, "company_name"@)
    &&& has_str_member(j, "company_number"@)
    &&& has_obj_member(j, "links"@)
    &&& has_str_member(j, "type"@)
}

/// The members a filing-history payload must carry, all strings: category,
/// date, description, transaction id, and type.
pub open spec fn filing_history_shape(j: JsonData) -> bool {
    &&& has_str_member(j, "category"@)
    &&& has_str_member(j, "date"@)
    &&& has_str_member(j, "description"@)
    &&& has_str_member(j, "transaction_id"@)
    &&& has_str_member(j, "type"@)
}

/// The company feed: every changed or deleted company profile.
pub struct StreamCompanies;

impl CompaniesHouseStreamingOperation for StreamCompanies {
    open spec fn endpoint_spec() -> Seq<char> {
        "/companies"@
    }

    open spec fn payload_shape(j: JsonData) -> bool {
        company_profile_shape(j)
    }

    fn endpoint(&self) -> (r: &'static str) {
        "/companies"
    }

    fn payload_matches(&self, v: &serde_json::Value) -> (r: bool) {
        member_is_str(v, "company_name") && member_is_str(v, "company_number") && member_is_obj(
            v,
            "links",
        ) && member_is_str(v, "type")
    }
}

/// The filing feed: every new or changed filing-history entry.
pub struct StreamFilings;

impl CompaniesHouseStreamingOperation for StreamFilings {
    open spec fn endpoint_spec() -> Seq<char> {
        "/filings"@
    }

    open spec fn payload_shape(j: JsonData) -> bool {
        filing_history_shape(j)
    }

    fn endpoint(&self) -> (r: &'static str) {
        "/filings"
    }

    fn payload_matches(&self, v: &serde_json::Value) -> (r: bool) {
        member_is_str(v, "category") && member_is_str(v, "date") && member_is_str(
            v,
            "description",
        ) && member_is_str(v, "transaction_id") && member_is_str(v, "type")
    }
}

} // verus!
