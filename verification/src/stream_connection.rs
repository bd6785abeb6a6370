//! The per-connection state machine behind `next()`.
//!
//! A connection owns the frame buffer and the feed descriptor. The caller's
//! transport loop drives it with two calls: [`StreamConnection::poll_next`]
//! drains the buffer — skipping blank lines, decoding the first visible one —
//! until it either has an outcome or needs bytes; and when it needs bytes the
//! caller performs one chunk read under the chunk timeout and reports what
//! happened through [`StreamConnection::on_chunk_event`]. Everything the
//! machine decides is stated here over the framing and JSON models; the only
//! thing left outside is the I/O itself.

use crate::frame::FrameBuffer;
use crate::framing::{
    after_first_line, feed, first_line, has_newline, is_blank_line, is_heartbeat,
    lemma_first_newline_bounds, skip_blank_lines, trim_line, trimmed, NEWLINE,
};
use crate::json::{bytes_as_utf8, json_parse, parse_json};
use crate::record::{extract_item, is_record, item_matches, record_data, StreamItem};
use crate::stream_error::CompaniesHouseStreamingNextError;
use crate::stream_operation::CompaniesHouseStreamingOperation;
use vstd::prelude::*;

verus! {

/// What the caller's one chunk read under the chunk timeout came to.
pub enum ChunkEvent {
    /// The transport delivered a chunk.
    Chunk { bytes: Vec<u8> },
    /// The transport signalled end-of-body.
    EndOfBody,
    /// The chunk timeout elapsed first.
    TimedOut,
    /// The transport failed; the message is the transport's own.
    Failed { message: String },
}

/// What one buffer drain decided.
pub enum PollOutcome {
    /// No complete non-blank line is buffered: read one more chunk.
    NeedChunk,
    /// A non-blank line was decoded: a record, or a per-read error.
    Ready { result: Result<StreamItem<serde_json::Value>, CompaniesHouseStreamingNextError> },
}

/// What decoding one non-blank record line must yield, as a relation between
/// the line's bytes and the outcome: invalid UTF-8 is `BadItemEncoding`;
/// text that does not parse as a record document is `BadItemJson`; a record
/// whose payload violates the feed's shape is `BadItemData`, its envelope
/// delivered; and a record with a matching payload is `Ok`.
pub open spec fn line_decodes_to<O: CompaniesHouseStreamingOperation>(
    line: Seq<u8>,
    result: Result<StreamItem<serde_json::Value>, CompaniesHouseStreamingNextError>,
) -> bool {
    let t = trimmed(line);
    let text = vstd::utf8::decode_utf8(t);
    match result {
        Ok(item) => {
            &&& vstd::utf8::valid_utf8(t)
            &&& json_parse(text) is Some
            &&& is_record(json_parse(text)->Some_0)
            &&& O::payload_shape(record_data(json_parse(text)->Some_0))
            &&& item_matches(item, json_parse(text)->Some_0)
        },
        Err(e) => match e {
            CompaniesHouseStreamingNextError::BadItemEncoding => !vstd::utf8::valid_utf8(t),
            CompaniesHouseStreamingNextError::BadItemJson { text: raw } => {
                &&& vstd::utf8::valid_utf8(t)
                &&& raw@ == text
                &&& (json_parse(text) is None || !is_record(json_parse(text)->Some_0))
            },
            CompaniesHouseStreamingNextError::BadItemData { item } => {
                &&& vstd::utf8::valid_utf8(t)
                &&& json_parse(text) is Some
                &&& is_record(json_parse(text)->Some_0)
                &&& !O::payload_shape(record_data(json_parse(text)->Some_0))
                &&& item_matches(item, json_parse(text)->Some_0)
            },
            _ => false,
        },
    }
}

/// Decode one line of the feed. Blank lines (after trimming) are reframing
/// artifacts and yield nothing; any other line yields a record or an error
/// as [`line_decodes_to`] demands.
pub fn decode_line<O: CompaniesHouseStreamingOperation>(operation: &O, line: &[u8]) -> (r: Option<
    Result<StreamItem<serde_json::Value>, CompaniesHouseStreamingNextError>,
>)
    ensures
        match r {
            None => is_blank_line(line@),
            Some(result) => !is_blank_line(line@) && line_decodes_to::<O>(line@, result),
        },
{
    let t = trim_line(line);
    if t.len() == 0 {
        return None;
    }
    let text = match bytes_as_utf8(t) {
        Some(s) => s,
        None => {
            return Some(Err(CompaniesHouseStreamingNextError::BadItemEncoding));
        },
    };
    let parsed = match parse_json(text) {
        Some(v) => v,
        None => {
            return Some(
                Err(CompaniesHouseStreamingNextError::BadItemJson { text: text.to_owned() }),
            );
        },
    };
    let item = match extract_item(&parsed) {
        Some(it) => it,
        None => {
            return Some(
                Err(CompaniesHouseStreamingNextError::BadItemJson { text: text.to_owned() }),
            );
        },
    };
    if operation.payload_matches(&item.data) {
        Some(Ok(item))
    } else {
        Some(Err(CompaniesHouseStreamingNextError::BadItemData { item }))
    }
}

/// One open feed: the frame buffer, the feed descriptor, and the configured
/// chunk timeout. The transport handle stays with the caller.
pub struct StreamConnection<O: CompaniesHouseStreamingOperation> {
    buffer: FrameBuffer,
    operation: O,
    chunk_timeout_ms: u64,
}

impl<O: CompaniesHouseStreamingOperation> StreamConnection<O> {
    /// The buffered, not yet consumed bytes.
    pub closed spec fn buf(&self) -> Seq<u8> {
        self.buffer@
    }

    pub closed spec fn op(&self) -> O {
        self.operation
    }

    pub closed spec fn timeout_spec(&self) -> u64 {
        self.chunk_timeout_ms
    }

    /// A fresh connection: empty buffer, nothing consumed.
    pub fn new(operation: O, chunk_timeout_ms: u64) -> (r: Self)
        ensures
            r.buf() == Seq::<u8>::empty(),
            r.op() == operation,
            r.timeout_spec() == chunk_timeout_ms,
    {
        StreamConnection { buffer: FrameBuffer::new(), operation, chunk_timeout_ms }
    }

    /// How long the caller's transport loop may wait for one chunk,
    /// in milliseconds.
    pub fn chunk_timeout_ms(&self) -> (r: u64)
        ensures
            r == self.timeout_spec(),
    {
        self.chunk_timeout_ms
    }

    /// The endpoint path of the feed this connection is bound to.
    pub fn endpoint(&self) -> (r: &'static str)
        ensures
            r@ == O::endpoint_spec(),
    {
        self.operation.endpoint()
    }

    /// How many bytes sit in the buffer, scanned or not.
    pub fn buffered_len(&self) -> (n: usize)
        ensures
            n == self.buf().len(),
    {
        self.buffer.len()
    }

    /// Feed one transport chunk into the buffer. A bare newline arriving on
    /// an empty buffer is a protocol heartbeat and is dropped; anything else
    /// is appended whole. Returns whether the chunk was such a heartbeat, so
    /// a caller's observer can see it.
    pub fn accept_chunk(&mut self, chunk: &[u8]) -> (heartbeat: bool)
        ensures
            final(self).buf() == feed(old(self).buf(), chunk@),
            final(self).op() == old(self).op(),
            final(self).timeout_spec() == old(self).timeout_spec(),
            heartbeat == (old(self).buf().len() == 0 && is_heartbeat(chunk@)),
    {
        if self.buffer.is_empty() && chunk.len() == 1 && chunk[0] == NEWLINE {
            // heartbeat: the connection is alive, the framing is untouched
            true
        } else {
            self.buffer.append(chunk);
            false
        }
    }

    /// Report what one chunk read came to. A delivered chunk goes into the
    /// buffer and the read loop goes on; everything else is a fatal per-read
    /// error, mapped here one-to-one.
    pub fn on_chunk_event(&mut self, event: ChunkEvent) -> (r: Option<
        CompaniesHouseStreamingNextError,
    >)
        ensures
            final(self).op() == old(self).op(),
            final(self).timeout_spec() == old(self).timeout_spec(),
            match event {
                ChunkEvent::Chunk { bytes } => r is None && final(self).buf() == feed(
                    old(self).buf(),
                    bytes@,
                ),
                ChunkEvent::EndOfBody => r == Some(
                    CompaniesHouseStreamingNextError::StreamComplete,
                ) && final(self).buf() == old(self).buf(),
                ChunkEvent::TimedOut => r == Some(CompaniesHouseStreamingNextError::ChunkTimeout)
                    && final(self).buf() == old(self).buf(),
                ChunkEvent::Failed { message } => r == Some(
                    CompaniesHouseStreamingNextError::BadChunk { message },
                ) && final(self).buf() == old(self).buf(),
            },
    {
        match event {
            ChunkEvent::Chunk { bytes } => {
                self.accept_chunk(bytes.as_slice());
                None
            },
            ChunkEvent::EndOfBody => Some(CompaniesHouseStreamingNextError::StreamComplete),
            ChunkEvent::TimedOut => Some(CompaniesHouseStreamingNextError::ChunkTimeout),
            ChunkEvent::Failed { message } => Some(
                CompaniesHouseStreamingNextError::BadChunk { message },
            ),
        }
    }

    /// Drain the buffer: skip complete blank lines, decode the first
    /// non-blank complete line, or report that a chunk is needed. The buffer
    /// front always realigns to just after the last newline consumed.
    pub fn poll_next(&mut self) -> (r: PollOutcome)
        ensures
            final(self).op() == old(self).op(),
            final(self).timeout_spec() == old(self).timeout_spec(),
            match r {
                PollOutcome::NeedChunk => {
                    &&& !has_newline(skip_blank_lines(old(self).buf()))
                    &&& final(self).buf() == skip_blank_lines(old(self).buf())
                },
                PollOutcome::Ready { result } => {
                    let t = skip_blank_lines(old(self).buf());
                    &&& has_newline(t)
                    &&& !is_blank_line(first_line(t))
                    &&& line_decodes_to::<O>(first_line(t), result)
                    &&& final(self).buf() == after_first_line(t)
                },
            },
    {
        loop
            invariant
                skip_blank_lines(self.buf()) == skip_blank_lines(old(self).buf()),
                self.op() == old(self).op(),
                self.timeout_spec() == old(self).timeout_spec(),
            decreases self.buf().len(),
        {
            let ghost pre = self.buf();
            match self.buffer.take_line() {
                None => {
                    proof {
                        assert(skip_blank_lines(pre) == pre);
                    }
                    return PollOutcome::NeedChunk;
                },
                Some(line) => {
                    proof {
                        lemma_first_newline_bounds(pre);
                        assert(self.buf().len() < pre.len());
                    }
                    match decode_line(&self.operation, line.as_slice()) {
                        None => {
                            proof {
                                assert(skip_blank_lines(pre) == skip_blank_lines(self.buf()));
                            }
                        },
                        Some(result) => {
                            proof {
                                assert(skip_blank_lines(pre) == pre);
                            }
                            return PollOutcome::Ready { result };
                        },
                    }
                },
            }
        }
    }
}

} // verus!
