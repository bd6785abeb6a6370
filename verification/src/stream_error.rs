//! The two error taxonomies of the streaming side.
//!
//! Connection-establishment errors end an `open` attempt; per-read errors
//! come out of `next`. Of the per-read errors exactly one, `BadItemData`, is
//! line-level recoverable: the envelope decoded, so its metadata (and with it
//! the resume cursor) is trustworthy, and the connection stays usable. Every
//! other per-read error means the connection must be discarded and reopened.

use crate::record::StreamItem;
use vstd::prelude::*;

verus! {

/// Why opening a stream connection failed.
#[derive(Debug)]
pub enum CompaniesHouseStreamingConnectionError {
    /// No response headers arrived within the connection timeout.
    ConnectionTimeout,
    /// The transport failed outright; the message is the transport's own.
    UnknownConnection { message: String },
    /// The credentials were rejected; retrying with the same key is futile.
    Unauthorized,
    /// The service asks for back-off before another attempt.
    TooManyRequests,
    /// The requested resume cursor is invalid or too old for this feed.
    BadTimepoint,
    /// A status code the protocol does not name.
    UnknownResponse { status: u16 },
}

/// Why `next` did not deliver a well-formed record.
#[derive(Debug)]
pub enum CompaniesHouseStreamingNextError {
    /// No chunk arrived within the chunk timeout.
    ChunkTimeout,
    /// The server closed the body; a new connection is required.
    StreamComplete,
    /// The transport failed while reading; the message is the transport's own.
    BadChunk { message: String },
    /// A record line was not valid UTF-8.
    BadItemEncoding,
    /// A record line was not a well-formed record document; the connection is
    /// suspect and must be torn down.
    BadItemJson { text: String },
    /// The envelope decoded but the payload violated the feed's shape; the
    /// metadata is delivered so the caller can still advance its cursor.
    BadItemData { item: StreamItem<serde_json::Value> },
}

impl CompaniesHouseStreamingNextError {
    /// The recoverable/fatal partition: only a payload-shape mismatch leaves
    /// the connection usable.
    pub fn is_recoverable(&self) -> (r: bool)
        ensures
            r == (*self is BadItemData),
    {
        match self {
            CompaniesHouseStreamingNextError::BadItemData { .. } => true,
            _ => false,
        }
    }

    /// Every per-read error but `BadItemData` ends the connection.
    pub fn is_fatal(&self) -> (r: bool)
        ensures
            r == !(*self is BadItemData),
    {
        !self.is_recoverable()
    }
}

} // verus!
