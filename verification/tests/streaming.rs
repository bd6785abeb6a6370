use companies_house::record::StreamEventType;
use companies_house::stream_connection::{decode_line, ChunkEvent, PollOutcome, StreamConnection};
use companies_house::stream_error::CompaniesHouseStreamingNextError;
use companies_house::stream_operation::{
    CompaniesHouseStreamingOperation, StreamCompanies, StreamFilings,
};

const COMPANY_RECORD: &str = "{\"data\":{\"company_name\":\"Acme\",\"company_number\":\"123\",\"links\":{},\"type\":\"ltd\"},\"event\":{\"published_at\":\"2024-01-01T00:00:00\",\"timepoint\":5,\"type\":\"changed\"},\"resource_id\":\"a\"}\n";

const COMPANY_RECORD_2: &str = "{\"data\":{\"company_name\":\"Bolt\",\"company_number\":\"456\",\"links\":{},\"type\":\"plc\"},\"event\":{\"published_at\":\"2024-01-02T00:00:00\",\"timepoint\":6,\"type\":\"deleted\"},\"resource_id\":\"b\"}\n";

/// Drives a connection over the given chunks and collects the timepoint and
/// resource id of every successful record.
fn collect_records(chunks: &[&[u8]]) -> Vec<(u64, String)> {
    let mut connection = StreamConnection::new(StreamCompanies, 60_000);
    let mut records = Vec::new();
    let mut pending = chunks.iter();
    loop {
        match connection.poll_next() {
            PollOutcome::Ready { result } => match result {
                Ok(item) => records.push((item.event.timepoint, item.resource_id.clone())),
                Err(e) => panic!("unexpected stream error: recoverable={}", e.is_recoverable()),
            },
            PollOutcome::NeedChunk => match pending.next() {
                Some(chunk) => {
                    let outcome = connection
                        .on_chunk_event(ChunkEvent::Chunk { bytes: chunk.to_vec() });
                    assert!(outcome.is_none());
                },
                None => return records,
            },
        }
    }
}

#[test]
fn one_record_in_one_chunk() {
    let records = collect_records(&[COMPANY_RECORD.as_bytes()]);
    assert_eq!(records, vec![(5, "a".to_string())]);
}

#[test]
fn record_fields_are_decoded() {
    let result = decode_line(&StreamCompanies, COMPANY_RECORD.as_bytes())
        .expect("not blank")
        .expect("well-formed record");
    assert_eq!(result.event.timepoint, 5);
    assert_eq!(result.event.published_at, "2024-01-01T00:00:00");
    assert_eq!(result.event.event_type, StreamEventType::Changed);
    assert_eq!(result.resource_id, "a");
    let expected: serde_json::Value = serde_json::from_str(
        "{\"company_name\":\"Acme\",\"company_number\":\"123\",\"links\":{},\"type\":\"ltd\"}",
    )
    .unwrap();
    assert_eq!(result.data, expected);
}

#[test]
fn deleted_event_type_is_decoded() {
    let result = decode_line(&StreamCompanies, COMPANY_RECORD_2.as_bytes())
        .expect("not blank")
        .expect("well-formed record");
    assert_eq!(result.event.event_type, StreamEventType::Deleted);
    assert_eq!(result.event.timepoint, 6);
}

#[test]
fn framing_is_independent_of_chunk_boundaries() {
    let stream: Vec<u8> = [COMPANY_RECORD, COMPANY_RECORD_2].concat().into_bytes();
    let whole = collect_records(&[&stream]);
    assert_eq!(whole, vec![(5, "a".to_string()), (6, "b".to_string())]);
    // split the same bytes at every offset in turn: same records, same order
    for cut in 1..stream.len() {
        let (left, right) = stream.split_at(cut);
        assert_eq!(collect_records(&[left, right]), whole, "split at {cut}");
    }
    // and into three pieces around the record boundary
    let n = COMPANY_RECORD.len();
    assert_eq!(
        collect_records(&[&stream[..n - 3], &stream[n - 3..n + 11], &stream[n + 11..]]),
        whole,
    );
}

#[test]
fn heartbeat_produces_nothing_and_changes_nothing() {
    let with_heartbeats = collect_records(&[
        b"\n",
        COMPANY_RECORD.as_bytes(),
        b"\n",
        b"\n",
        COMPANY_RECORD_2.as_bytes(),
        b"\n",
    ]);
    assert_eq!(with_heartbeats, vec![(5, "a".to_string()), (6, "b".to_string())]);
}

#[test]
fn newline_chunk_on_nonempty_buffer_is_framing_not_heartbeat() {
    // the record arrives without its newline, which then comes alone:
    // that lone newline completes the line rather than being dropped
    let trimmed = &COMPANY_RECORD.as_bytes()[..COMPANY_RECORD.len() - 1];
    let records = collect_records(&[trimmed, b"\n"]);
    assert_eq!(records, vec![(5, "a".to_string())]);
}

#[test]
fn blank_lines_between_records_are_skipped() {
    let stream: Vec<u8> =
        [COMPANY_RECORD, "\n\n\n", "   \n", COMPANY_RECORD_2].concat().into_bytes();
    assert_eq!(collect_records(&[&stream]), vec![(5, "a".to_string()), (6, "b".to_string())]);
}

#[test]
fn blank_line_decodes_to_nothing() {
    assert!(decode_line(&StreamCompanies, b"\n").is_none());
    assert!(decode_line(&StreamCompanies, b"   \t\r\n").is_none());
    assert!(decode_line(&StreamCompanies, b"").is_none());
}

#[test]
fn invalid_json_is_fatal_bad_item_json() {
    let result = decode_line(&StreamCompanies, b"{\"data\": oops\n").expect("not blank");
    match result {
        Err(CompaniesHouseStreamingNextError::BadItemJson { text }) => {
            assert_eq!(text, "{\"data\": oops");
        },
        _ => panic!("expected BadItemJson"),
    }
}

#[test]
fn valid_json_without_envelope_is_bad_item_json() {
    let result = decode_line(&StreamCompanies, b"{\"data\":1}\n").expect("not blank");
    assert!(matches!(result, Err(CompaniesHouseStreamingNextError::BadItemJson { .. })));
}

#[test]
fn invalid_utf8_is_bad_item_encoding() {
    let result = decode_line(&StreamCompanies, b"\xff\xfe{}\n").expect("not blank");
    assert!(matches!(result, Err(CompaniesHouseStreamingNextError::BadItemEncoding)));
}

#[test]
fn wrong_payload_shape_is_recoverable_and_keeps_metadata() {
    let line = "{\"data\":1,\"event\":{\"published_at\":\"2024-01-01T00:00:00\",\"timepoint\":5,\"type\":\"changed\"},\"resource_id\":\"a\"}\n";
    let result = decode_line(&StreamCompanies, line.as_bytes()).expect("not blank");
    match result {
        Err(error) => {
            assert!(error.is_recoverable());
            assert!(!error.is_fatal());
            match error {
                CompaniesHouseStreamingNextError::BadItemData { item } => {
                    assert_eq!(item.event.timepoint, 5);
                    assert_eq!(item.resource_id, "a");
                    assert_eq!(item.data, serde_json::Value::from(1u64));
                },
                _ => panic!("expected BadItemData"),
            }
        },
        Ok(_) => panic!("payload shape should not match the company feed"),
    }
}

#[test]
fn connection_survives_bad_item_data() {
    let bad = "{\"data\":1,\"event\":{\"published_at\":\"2024-01-01T00:00:00\",\"timepoint\":5,\"type\":\"changed\"},\"resource_id\":\"a\"}\n";
    let mut connection = StreamConnection::new(StreamCompanies, 60_000);
    let stream = [bad, COMPANY_RECORD_2].concat();
    assert!(connection
        .on_chunk_event(ChunkEvent::Chunk { bytes: stream.into_bytes() })
        .is_none());
    match connection.poll_next() {
        PollOutcome::Ready { result: Err(CompaniesHouseStreamingNextError::BadItemData { item }) } => {
            assert_eq!(item.event.timepoint, 5);
        },
        _ => panic!("expected a recoverable BadItemData first"),
    }
    match connection.poll_next() {
        PollOutcome::Ready { result: Ok(item) } => {
            assert_eq!(item.event.timepoint, 6);
            assert_eq!(item.resource_id, "b");
        },
        _ => panic!("the next well-formed record should still decode"),
    }
}

#[test]
fn timeout_event_maps_to_chunk_timeout() {
    let mut connection = StreamConnection::new(StreamCompanies, 60_000);
    let outcome = connection.on_chunk_event(ChunkEvent::TimedOut);
    assert!(matches!(outcome, Some(CompaniesHouseStreamingNextError::ChunkTimeout)));
    assert!(outcome.unwrap().is_fatal());
}

#[test]
fn end_of_body_maps_to_stream_complete() {
    let mut connection = StreamConnection::new(StreamCompanies, 60_000);
    let outcome = connection.on_chunk_event(ChunkEvent::EndOfBody);
    assert!(matches!(outcome, Some(CompaniesHouseStreamingNextError::StreamComplete)));
}

#[test]
fn transport_failure_maps_to_bad_chunk() {
    let mut connection = StreamConnection::new(StreamCompanies, 60_000);
    let outcome =
        connection.on_chunk_event(ChunkEvent::Failed { message: "reset".to_string() });
    match outcome {
        Some(CompaniesHouseStreamingNextError::BadChunk { message }) => {
            assert_eq!(message, "reset");
        },
        _ => panic!("expected BadChunk"),
    }
}

#[test]
fn end_to_end_scenario() {
    // one whole record, a heartbeat, a second record in two halves, then
    // end-of-body: exactly two records, then StreamComplete
    let mut connection = StreamConnection::new(StreamCompanies, 60_000);
    let half = COMPANY_RECORD_2.len() / 2;

    assert!(matches!(connection.poll_next(), PollOutcome::NeedChunk));
    assert!(connection
        .on_chunk_event(ChunkEvent::Chunk { bytes: COMPANY_RECORD.as_bytes().to_vec() })
        .is_none());
    match connection.poll_next() {
        PollOutcome::Ready { result: Ok(item) } => {
            assert_eq!(item.event.timepoint, 5);
            assert_eq!(item.resource_id, "a");
        },
        _ => panic!("expected the first record"),
    }

    assert!(matches!(connection.poll_next(), PollOutcome::NeedChunk));
    assert!(connection.on_chunk_event(ChunkEvent::Chunk { bytes: b"\n".to_vec() }).is_none());
    assert!(matches!(connection.poll_next(), PollOutcome::NeedChunk));

    assert!(connection
        .on_chunk_event(ChunkEvent::Chunk {
            bytes: COMPANY_RECORD_2.as_bytes()[..half].to_vec(),
        })
        .is_none());
    assert!(matches!(connection.poll_next(), PollOutcome::NeedChunk));
    assert!(connection
        .on_chunk_event(ChunkEvent::Chunk {
            bytes: COMPANY_RECORD_2.as_bytes()[half..].to_vec(),
        })
        .is_none());
    match connection.poll_next() {
        PollOutcome::Ready { result: Ok(item) } => {
            assert_eq!(item.event.timepoint, 6);
            assert_eq!(item.resource_id, "b");
        },
        _ => panic!("expected the second record"),
    }

    assert!(matches!(connection.poll_next(), PollOutcome::NeedChunk));
    let outcome = connection.on_chunk_event(ChunkEvent::EndOfBody);
    assert!(matches!(outcome, Some(CompaniesHouseStreamingNextError::StreamComplete)));
}

#[test]
fn filings_feed_accepts_filing_payloads() {
    let line = "{\"data\":{\"category\":\"accounts\",\"date\":\"2024-01-01\",\"description\":\"annual accounts\",\"transaction_id\":\"T1\",\"type\":\"AA\"},\"event\":{\"published_at\":\"2024-01-01T00:00:00\",\"timepoint\":9,\"type\":\"changed\"},\"resource_id\":\"f\"}\n";
    let result = decode_line(&StreamFilings, line.as_bytes())
        .expect("not blank")
        .expect("well-formed filing record");
    assert_eq!(result.event.timepoint, 9);
    // the same line violates the company feed's payload shape
    let as_company = decode_line(&StreamCompanies, line.as_bytes()).expect("not blank");
    assert!(matches!(
        as_company,
        Err(CompaniesHouseStreamingNextError::BadItemData { .. })
    ));
}

#[test]
fn huge_timepoint_is_kept_exactly() {
    let line = "{\"data\":{\"company_name\":\"A\",\"company_number\":\"1\",\"links\":{},\"type\":\"ltd\"},\"event\":{\"published_at\":\"t\",\"timepoint\":18446744073709551615,\"type\":\"changed\"},\"resource_id\":\"x\"}\n";
    let result = decode_line(&StreamCompanies, line.as_bytes())
        .expect("not blank")
        .expect("well-formed record");
    assert_eq!(result.event.timepoint, u64::MAX);
}

#[test]
fn fractional_timepoint_is_not_a_record() {
    let line = "{\"data\":{},\"event\":{\"published_at\":\"t\",\"timepoint\":5.5,\"type\":\"changed\"},\"resource_id\":\"x\"}\n";
    let result = decode_line(&StreamCompanies, line.as_bytes()).expect("not blank");
    assert!(matches!(result, Err(CompaniesHouseStreamingNextError::BadItemJson { .. })));
}

#[test]
fn unknown_event_type_is_not_a_record() {
    let line = "{\"data\":{},\"event\":{\"published_at\":\"t\",\"timepoint\":5,\"type\":\"renamed\"},\"resource_id\":\"x\"}\n";
    let result = decode_line(&StreamCompanies, line.as_bytes()).expect("not blank");
    assert!(matches!(result, Err(CompaniesHouseStreamingNextError::BadItemJson { .. })));
}

#[test]
fn endpoints_name_their_feeds() {
    let mut connection = StreamConnection::new(StreamCompanies, 1_000);
    assert_eq!(connection.endpoint(), "/companies");
    assert_eq!(connection.chunk_timeout_ms(), 1_000);
    assert!(matches!(connection.poll_next(), PollOutcome::NeedChunk));
    assert_eq!(StreamFilings.endpoint(), "/filings");
}

#[test]
fn accept_chunk_reports_heartbeats() {
    let mut connection = StreamConnection::new(StreamCompanies, 60_000);
    assert_eq!(connection.buffered_len(), 0);
    // a bare newline on an empty buffer is a heartbeat and is dropped
    assert!(connection.accept_chunk(b"\n"));
    assert_eq!(connection.buffered_len(), 0);
    // anything else is buffered whole
    assert!(!connection.accept_chunk(b"par"));
    assert_eq!(connection.buffered_len(), 3);
    // a bare newline on a non-empty buffer is framing, not a heartbeat
    assert!(!connection.accept_chunk(b"\n"));
    assert_eq!(connection.buffered_len(), 4);
}
