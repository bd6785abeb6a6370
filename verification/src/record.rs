//! The decoded unit of the feed, and the envelope every record line must
//! carry: `{ data, event: { published_at, timepoint, type }, resource_id }`.
//!
//! [`is_record`] says, over the JSON model, exactly which documents are
//! records; [`extract_item`] is the verified extraction of the envelope from
//! a parsed value. The `data` member is handed on as the raw parsed value:
//! binding it to a feed's payload shape is the operation descriptor's
//! business, and mirroring it onto typed structs is the caller's.

use crate::json::{
    clone_value, get_member, json_view, str_eq, value_as_str, value_as_u64, JsonData,
};
use vstd::prelude::*;

verus! {

/// One record of the feed: the raw payload, the event metadata, and the
/// identifier of the resource the event is about.
#[derive(Debug)]
pub struct StreamItem<Data> {
    pub data: Data,
    pub event: StreamEvent,
    pub resource_id: String,
}

/// The event metadata of a record. `timepoint` is the server-assigned cursor
/// the caller resumes from after a reconnect.
#[derive(Debug)]
pub struct StreamEvent {
    pub published_at: String,
    pub timepoint: u64,
    pub event_type: StreamEventType,
}

/// What happened to the resource: on the wire, `"changed"` or `"deleted"`.
#[derive(Clone, Copy, PartialEq, Eq, Structural, Debug)]
pub enum StreamEventType {
    Changed,
    Deleted,
}

/// The fields of a record's `event` member.
pub open spec fn event_fields(j: JsonData) -> Map<Seq<char>, JsonData>
    recommends
        j is Obj,
{
    j->Obj_fields["event"@]->Obj_fields
}

/// Does the document carry the record envelope: a `data` member, a string
/// `resource_id`, and an `event` object with a string `published_at`, a
/// cursor that fits a `u64`, and a `type` of `"changed"` or `"deleted"`?
pub open spec fn is_record(j: JsonData) -> bool {
    &&& j is Obj
    &&& j->Obj_fields.contains_key("data"@)
    &&& j->Obj_fields.contains_key("resource_id"@)
    &&& j->Obj_fields["resource_id"@] is Str
    &&& j->Obj_fields.contains_key("event"@)
    &&& j->Obj_fields["event"@] is Obj
    &&& event_fields(j).contains_key("published_at"@)
    &&& event_fields(j)["published_at"@] is Str
    &&& event_fields(j).contains_key("timepoint"@)
    &&& event_fields(j)["timepoint"@] is Num
    &&& event_fields(j)["timepoint"@]->Num_int_val is Some
    &&& event_fields(j).contains_key("type"@)
    &&& event_fields(j)["type"@] is Str
    &&& (event_fields(j)["type"@]->Str_s == "changed"@ || event_fields(j)["type"@]->Str_s
        == "deleted"@)
}

pub open spec fn record_data(j: JsonData) -> JsonData
    recommends
        is_record(j),
{
    j->Obj_fields["data"@]
}

pub open spec fn record_published_at(j: JsonData) -> Seq<char>
    recommends
        is_record(j),
{
    event_fields(j)["published_at"@]->Str_s
}

pub open spec fn record_timepoint(j: JsonData) -> u64
    recommends
        is_record(j),
{
    event_fields(j)["timepoint"@]->Num_int_val->Some_0
}

pub open spec fn record_kind(j: JsonData) -> StreamEventType
    recommends
        is_record(j),
{
    if event_fields(j)["type"@]->Str_s == "changed"@ {
        StreamEventType::Changed
    } else {
        StreamEventType::Deleted
    }
}

pub open spec fn record_resource_id(j: JsonData) -> Seq<char>
    recommends
        is_record(j),
{
    j->Obj_fields["resource_id"@]->Str_s
}

/// The executable item carries exactly what the document's envelope says.
pub open spec fn item_matches(item: StreamItem<serde_json::Value>, j: JsonData) -> bool {
    &&& json_view(item.data) == record_data(j)
    &&& item.event.published_at@ == record_published_at(j)
    &&& item.event.timepoint == record_timepoint(j)
    &&& item.event.event_type == record_kind(j)
    &&& item.resource_id@ == record_resource_id(j)
}

/// Bind a parsed document to the record envelope: succeeds exactly on
/// documents that carry it, and then returns their contents unchanged.
pub fn extract_item(v: &serde_json::Value) -> (r: Option<StreamItem<serde_json::Value>>)
    ensures
        match r {
            Some(item) => is_record(json_view(*v)) && item_matches(item, json_view(*v)),
            None => !is_record(json_view(*v)),
        },
{
    let data = match get_member(v, "data") {
        Some(d) => d,
        None => { return None },
    };
    let resource_id_value = match get_member(v, "resource_id") {
        Some(x) => x,
        None => { return None },
    };
    let resource_id = match value_as_str(resource_id_value) {
        Some(s) => s,
        None => { return None },
    };
    let event = match get_member(v, "event") {
        Some(e) => e,
        None => { return None },
    };
    let published_at_value = match get_member(event, "published_at") {
        Some(x) => x,
        None => { return None },
    };
    let published_at = match value_as_str(published_at_value) {
        Some(s) => s,
        None => { return None },
    };
    let timepoint_value = match get_member(event, "timepoint") {
        Some(x) => x,
        None => { return None },
    };
    let timepoint = match value_as_u64(timepoint_value) {
        Some(n) => n,
        None => { return None },
    };
    let type_value = match get_member(event, "type") {
        Some(x) => x,
        None => { return None },
    };
    let type_text = match value_as_str(type_value) {
        Some(s) => s,
        None => { return None },
    };
    let event_type = if str_eq(type_text, "changed") {
        StreamEventType::Changed
    } else if str_eq(type_text, "deleted") {
        StreamEventType::Deleted
    } else {
        return None;
    };
    Some(
        StreamItem {
            data: clone_value(data),
            event: StreamEvent { published_at: published_at.to_owned(), timepoint, event_type },
            resource_id: resource_id.to_owned(),
        },
    )
}

} // verus!
