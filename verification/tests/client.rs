use companies_house::stream_error::CompaniesHouseStreamingConnectionError;
use companies_house::stream_operation::StreamCompanies;
use companies_house::streaming_client::{
    CompaniesHouseStreamingClient, ConnectEvent, DEFAULT_STREAMING_TIMEOUT_MS,
};

#[test]
fn new_client_has_one_minute_timeouts() {
    let client = CompaniesHouseStreamingClient::new("key");
    assert_eq!(client.api_key(), "key");
    assert_eq!(client.connection_timeout_ms(), 60_000);
    assert_eq!(client.chunk_timeout_ms(), 60_000);
    assert_eq!(DEFAULT_STREAMING_TIMEOUT_MS, 60_000);
}

#[test]
fn timeout_builders_replace_only_their_own_field() {
    let client = CompaniesHouseStreamingClient::new("key")
        .connection_timeout(1_000)
        .chunk_timeout(2_000);
    assert_eq!(client.api_key(), "key");
    assert_eq!(client.connection_timeout_ms(), 1_000);
    assert_eq!(client.chunk_timeout_ms(), 2_000);
}

#[test]
fn base_url_is_the_streaming_host() {
    assert_eq!(
        CompaniesHouseStreamingClient::base_url(),
        "https://stream.companieshouse.gov.uk"
    );
}

#[test]
fn status_200_yields_a_connection_with_the_chunk_timeout() {
    let client = CompaniesHouseStreamingClient::new("key").chunk_timeout(5_000);
    let connection = client
        .connect_outcome(StreamCompanies, ConnectEvent::Response { status: 200 })
        .expect("200 must connect");
    assert_eq!(connection.chunk_timeout_ms(), 5_000);
    assert_eq!(connection.endpoint(), "/companies");
}

#[test]
fn status_401_is_unauthorized() {
    let client = CompaniesHouseStreamingClient::new("key");
    let error = client
        .connect_outcome(StreamCompanies, ConnectEvent::Response { status: 401 })
        .err()
        .expect("401 must fail");
    assert!(matches!(error, CompaniesHouseStreamingConnectionError::Unauthorized));
}

#[test]
fn status_416_is_bad_timepoint() {
    let client = CompaniesHouseStreamingClient::new("key");
    let error = client
        .connect_outcome(StreamCompanies, ConnectEvent::Response { status: 416 })
        .err()
        .expect("416 must fail");
    assert!(matches!(error, CompaniesHouseStreamingConnectionError::BadTimepoint));
}

#[test]
fn status_429_is_too_many_requests() {
    let client = CompaniesHouseStreamingClient::new("key");
    let error = client
        .connect_outcome(StreamCompanies, ConnectEvent::Response { status: 429 })
        .err()
        .expect("429 must fail");
    assert!(matches!(error, CompaniesHouseStreamingConnectionError::TooManyRequests));
}

#[test]
fn other_statuses_are_unknown_response() {
    let client = CompaniesHouseStreamingClient::new("key");
    let error = client
        .connect_outcome(StreamCompanies, ConnectEvent::Response { status: 503 })
        .err()
        .expect("503 must fail");
    match error {
        CompaniesHouseStreamingConnectionError::UnknownResponse { status } => {
            assert_eq!(status, 503);
        },
        _ => panic!("expected UnknownResponse"),
    }
}

#[test]
fn connect_timeout_and_transport_failure_map_one_to_one() {
    let client = CompaniesHouseStreamingClient::new("key");
    let timeout = client.connect_outcome(StreamCompanies, ConnectEvent::TimedOut).err().unwrap();
    assert!(matches!(timeout, CompaniesHouseStreamingConnectionError::ConnectionTimeout));
    let failed = client
        .connect_outcome(
            StreamCompanies,
            ConnectEvent::Failed { message: "dns failure".to_string() },
        )
        .err()
        .unwrap();
    match failed {
        CompaniesHouseStreamingConnectionError::UnknownConnection { message } => {
            assert_eq!(message, "dns failure");
        },
        _ => panic!("expected UnknownConnection"),
    }
}
