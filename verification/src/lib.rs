//! Client-side core for a registry service that pushes newline-delimited JSON
//! records over a held-open HTTP response body.
//!
//! The verified heart of the crate is the event-feed ingestion path: cutting an
//! arbitrarily-fragmented byte stream into records ([`frame`], [`framing`]),
//! decoding each record line ([`json`], [`record`]), driving the per-connection
//! state machine ([`stream_connection`]), and classifying connection outcomes
//! ([`streaming_client`]). The request/response lookup side contributes its
//! data shapes and its exact status-code rules ([`public_operation`]).
//!
//! All I/O stays with the caller: the library takes chunks and connection
//! events as plain values and says, in its contracts, what each one means.

pub mod company_profile;
pub mod company_search;
pub mod disqualified_officer_search;
pub mod filings;
pub mod frame;
pub mod framing;
pub mod json;
pub mod officer_search;
pub mod public_operation;
pub mod public_types;
pub mod record;
pub mod stream_connection;
pub mod stream_error;
pub mod stream_operation;
pub mod streaming_client;
pub mod text;
pub mod unexpected_status;
pub mod unrecognised;
