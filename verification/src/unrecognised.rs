//! Classification of a response the protocol did not recognise: its status
//! code together with whatever could be made of its body.

use crate::json::{json_parse, json_view, parse_json};
use vstd::prelude::*;

verus! {

/// What the body of an unrecognised response turned out to be.
#[derive(Debug)]
pub enum UnrecognisedResponseBody {
    /// The body was empty.
    Empty,
    /// The body could not be read at all.
    Unknown,
    /// The body was text that is not valid JSON.
    Text(String),
    /// The body parsed as a JSON document.
    Json(serde_json::Value),
}

/// An unrecognised response: its status code and its classified body.
#[derive(Debug)]
pub struct UnrecognisedResponse {
    pub status_code: u16,
    pub body: UnrecognisedResponseBody,
}

impl UnrecognisedResponse {
    /// Classify a response from its status code and its body text, `None`
    /// when the body could not be read: empty stays empty, valid JSON is
    /// parsed, and anything else is kept as text.
    pub fn from_body(status_code: u16, text: Option<String>) -> (r: UnrecognisedResponse)
        ensures
            r.status_code == status_code,
            match text {
                None => r.body is Unknown,
                Some(t) => {
                    if t@.len() == 0 {
                        r.body is Empty
                    } else {
                        match r.body {
                            UnrecognisedResponseBody::Json(v) => json_parse(t@) == Some(
                                json_view(v),
                            ),
                            UnrecognisedResponseBody::Text(s) => s@ == t@ && json_parse(t@)
                                is None,
                            _ => false,
                        }
                    }
                },
            },
    {
        match text {
            None => UnrecognisedResponse { status_code, body: UnrecognisedResponseBody::Unknown },
            Some(t) => {
                if t.as_str().is_empty() {
                    UnrecognisedResponse { status_code, body: UnrecognisedResponseBody::Empty }
                } else {
                    match parse_json(t.as_str()) {
                        Some(v) => UnrecognisedResponse {
                            status_code,
                            body: UnrecognisedResponseBody::Json(v),
                        },
                        None => UnrecognisedResponse {
                            status_code,
                            body: UnrecognisedResponseBody::Text(t),
                        },
                    }
                }
            },
        }
    }
}

} // verus!
