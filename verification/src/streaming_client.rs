//! The streaming client: credentials, the two timeouts, and the exact
//! case-exhaustive mapping from a connection attempt's outcome to a live
//! connection or a typed error.
//!
//! The attempt itself — one authenticated GET against the streaming host,
//! its response headers raced against the connection timeout — is I/O and
//! stays with the caller, who reports what happened as a [`ConnectEvent`].

use crate::stream_connection::StreamConnection;
use crate::stream_error::CompaniesHouseStreamingConnectionError;
use crate::stream_operation::CompaniesHouseStreamingOperation;
use vstd::prelude::*;

verus! {

/// Both timeouts default to one minute.
pub const DEFAULT_STREAMING_TIMEOUT_MS: u64 = 60000;

/// What the caller's single connection attempt came to.
pub enum ConnectEvent {
    /// Response headers arrived with this status code.
    Response { status: u16 },
    /// The connection timeout elapsed before any headers.
    TimedOut,
    /// The transport failed outright; the message is the transport's own.
    Failed { message: String },
}

/// Opens event-feed connections: holds the API key and the two timeouts,
/// and decides what each connection attempt's outcome means.
pub struct CompaniesHouseStreamingClient {
    api_key: String,
    connection_timeout_ms: u64,
    chunk_timeout_ms: u64,
}

impl CompaniesHouseStreamingClient {
    pub closed spec fn key_spec(&self) -> Seq<char> {
        self.api_key@
    }

    pub closed spec fn connection_timeout_spec(&self) -> u64 {
        self.connection_timeout_ms
    }

    pub closed spec fn chunk_timeout_spec(&self) -> u64 {
        self.chunk_timeout_ms
    }

    /// A client for this API key, with both timeouts at their default.
    pub fn new(api_key: &str) -> (r: Self)
        ensures
            r.key_spec() == api_key@,
            r.connection_timeout_spec() == DEFAULT_STREAMING_TIMEOUT_MS,
            r.chunk_timeout_spec() == DEFAULT_STREAMING_TIMEOUT_MS,
    {
        CompaniesHouseStreamingClient {
            api_key: api_key.to_owned(),
            connection_timeout_ms: DEFAULT_STREAMING_TIMEOUT_MS,
            chunk_timeout_ms: DEFAULT_STREAMING_TIMEOUT_MS,
        }
    }

    /// The same client with the connection-establishment timeout replaced.
    pub fn connection_timeout(self, timeout_ms: u64) -> (r: Self)
        ensures
            r.key_spec() == self.key_spec(),
            r.connection_timeout_spec() == timeout_ms,
            r.chunk_timeout_spec() == self.chunk_timeout_spec(),
    {
        CompaniesHouseStreamingClient { connection_timeout_ms: timeout_ms, ..self }
    }

    /// The same client with the inter-chunk timeout replaced.
    pub fn chunk_timeout(self, timeout_ms: u64) -> (r: Self)
        ensures
            r.key_spec() == self.key_spec(),
            r.connection_timeout_spec() == self.connection_timeout_spec(),
            r.chunk_timeout_spec() == timeout_ms,
    {
        CompaniesHouseStreamingClient { chunk_timeout_ms: timeout_ms, ..self }
    }

    /// The API key the caller authenticates the GET with.
    pub fn api_key(&self) -> (r: &str)
        ensures
            r@ == self.key_spec(),
    {
        self.api_key.as_str()
    }

    /// How long the caller may wait for the response headers, in milliseconds.
    pub fn connection_timeout_ms(&self) -> (r: u64)
        ensures
            r == self.connection_timeout_spec(),
    {
        self.connection_timeout_ms
    }

    /// How long the caller may wait for each chunk, in milliseconds.
    pub fn chunk_timeout_ms(&self) -> (r: u64)
        ensures
            r == self.chunk_timeout_spec(),
    {
        self.chunk_timeout_ms
    }

    /// The fixed host every feed lives under.
    pub fn base_url() -> (r: &'static str)
        ensures
            r@ == "https://stream.companieshouse.gov.uk"@,
    {
        "https://stream.companieshouse.gov.uk"
    }

    /// The status-code table of the protocol, case-exhaustive: 200 yields a
    /// fresh connection carrying this client's chunk timeout; 401, 416 and
    /// 429 have their own names; any other status is `UnknownResponse`; a
    /// timeout or transport failure before headers maps one-to-one.
    pub fn connect_outcome<O: CompaniesHouseStreamingOperation>(
        &self,
        operation: O,
        event: ConnectEvent,
    ) -> (r: Result<StreamConnection<O>, CompaniesHouseStreamingConnectionError>)
        ensures
            match event {
                ConnectEvent::Response { status } => {
                    if status == 200 {
                        &&& r is Ok
                        &&& r->Ok_0.buf() == Seq::<u8>::empty()
                        &&& r->Ok_0.op() == operation
                        &&& r->Ok_0.timeout_spec() == self.chunk_timeout_spec()
                    } else if status == 401 {
                        r == Err::<StreamConnection<O>, _>(
                            CompaniesHouseStreamingConnectionError::Unauthorized,
                        )
                    } else if status == 416 {
                        r == Err::<StreamConnection<O>, _>(
                            CompaniesHouseStreamingConnectionError::BadTimepoint,
                        )
                    } else if status == 429 {
                        r == Err::<StreamConnection<O>, _>(
                            CompaniesHouseStreamingConnectionError::TooManyRequests,
                        )
                    } else {
                        r == Err::<StreamConnection<O>, _>(
                            CompaniesHouseStreamingConnectionError::UnknownResponse { status },
                        )
                    }
                },
                ConnectEvent::TimedOut => r == Err::<StreamConnection<O>, _>(
                    CompaniesHouseStreamingConnectionError::ConnectionTimeout,
                ),
                ConnectEvent::Failed { message } => r == Err::<StreamConnection<O>, _>(
                    CompaniesHouseStreamingConnectionError::UnknownConnection { message },
                ),
            },
    {
        match event {
            ConnectEvent::Response { status } => {
                if status == 200 {
                    Ok(StreamConnection::new(operation, self.chunk_timeout_ms))
                } else if status == 401 {
                    Err(CompaniesHouseStreamingConnectionError::Unauthorized)
                } else if status == 416 {
                    Err(CompaniesHouseStreamingConnectionError::BadTimepoint)
                } else if status == 429 {
                    Err(CompaniesHouseStreamingConnectionError::TooManyRequests)
                } else {
                    Err(CompaniesHouseStreamingConnectionError::UnknownResponse { status })
                }
            },
            ConnectEvent::TimedOut => Err(
                CompaniesHouseStreamingConnectionError::ConnectionTimeout,
            ),
            ConnectEvent::Failed { message } => Err(
                CompaniesHouseStreamingConnectionError::UnknownConnection { message },
            ),
        }
    }
}

} // verus!
