//! The frame buffer: raw bytes accumulate at the tail, complete
//! newline-terminated lines leave from the front.
//!
//! The backing store is `bytes::BytesMut`, the buffer type the transport
//! hands its chunks over in. Verus does not read that crate, so the handful
//! of calls the buffer needs are wrapped in trusted functions whose contracts
//! speak about [`bytes_view`], the buffer's contents as a byte sequence.

use crate::framing::{
    after_first_line, first_line, first_newline, has_newline, lemma_first_newline_at,
    lemma_first_newline_bounds, NEWLINE,
};
use vstd::prelude::*;

verus! {

#[verifier::external_type_specification]
#[verifier::external_body]
pub struct ExBytesMut(bytes::BytesMut);

/// The bytes a `BytesMut` holds, front to back.
pub uninterp spec fn bytes_view(b: bytes::BytesMut) -> Seq<u8>;

/// Relies on `BytesMut::new`: a new buffer is empty.
#[verifier::external_body]
fn bytes_new() -> (r: bytes::BytesMut)
    ensures
        bytes_view(r) == Seq::<u8>::empty(),
{
    bytes::BytesMut::new()
}

/// Relies on `BytesMut::len`: the number of bytes held.
#[verifier::external_body]
fn bytes_len(b: &bytes::BytesMut) -> (n: usize)
    ensures
        n == bytes_view(*b).len(),
{
    b.len()
}

/// Relies on `BytesMut::extend_from_slice`: appends the slice at the tail.
#[verifier::external_body]
fn bytes_extend(b: &mut bytes::BytesMut, chunk: &[u8])
    ensures
        bytes_view(*final(b)) == bytes_view(*old(b)) + chunk@,
{
    b.extend_from_slice(chunk);
}

/// Relies on `BytesMut::split_to`: removes and returns the first `at` bytes,
/// keeping the rest. It panics when `at` exceeds the length, so that case is
/// excluded here.
#[verifier::external_body]
fn bytes_split_to(b: &mut bytes::BytesMut, at: usize) -> (r: bytes::BytesMut)
    requires
        at <= bytes_view(*old(b)).len(),
    ensures
        bytes_view(r) == bytes_view(*old(b)).subrange(0, at as int),
        bytes_view(*final(b)) == bytes_view(*old(b)).subrange(
            at as int,
            bytes_view(*old(b)).len() as int,
        ),
{
    b.split_to(at)
}

/// Relies on `BytesMut`'s slice view (`Deref` to `[u8]`): the byte at an
/// in-bounds index.
#[verifier::external_body]
fn bytes_at(b: &bytes::BytesMut, i: usize) -> (r: u8)
    requires
        i < bytes_view(*b).len(),
    ensures
        r == bytes_view(*b)[i as int],
{
    b[i]
}

/// Relies on `<[u8]>::to_vec` on the `BytesMut` slice view: copies the
/// contents out.
#[verifier::external_body]
fn bytes_to_vec(b: &bytes::BytesMut) -> (r: Vec<u8>)
    ensures
        r@ == bytes_view(*b),
{
    b.to_vec()
}

/// Accumulates raw transport bytes and hands out complete lines from the
/// front, so that the front boundary always sits right after the last
/// newline consumed.
pub struct FrameBuffer {
    data: bytes::BytesMut,
}

impl View for FrameBuffer {
    type V = Seq<u8>;

    closed spec fn view(&self) -> Seq<u8> {
        bytes_view(self.data)
    }
}

impl FrameBuffer {
    pub fn new() -> (r: FrameBuffer)
        ensures
            r@ == Seq::<u8>::empty(),
    {
        FrameBuffer { data: bytes_new() }
    }

    pub fn len(&self) -> (n: usize)
        ensures
            n == self@.len(),
    {
        bytes_len(&self.data)
    }

    pub fn is_empty(&self) -> (r: bool)
        ensures
            r == (self@.len() == 0),
    {
        bytes_len(&self.data) == 0
    }

    /// Add a chunk at the tail.
    pub fn append(&mut self, chunk: &[u8])
        ensures
            final(self)@ == old(self)@ + chunk@,
    {
        bytes_extend(&mut self.data, chunk);
    }

    /// Remove and return the first complete line, newline included, or
    /// return nothing (and change nothing) when no newline has arrived yet.
    pub fn take_line(&mut self) -> (r: Option<Vec<u8>>)
        ensures
            match r {
                Some(line) => has_newline(old(self)@) && line@ == first_line(old(self)@)
                    && final(self)@ == after_first_line(old(self)@),
                None => !has_newline(old(self)@) && final(self)@ == old(self)@,
            },
    {
        let n = bytes_len(&self.data);
        let mut i: usize = 0;
        while i < n
            invariant
                0 <= i <= n,
                self@ == old(self)@,
                n == self@.len(),
                forall|j: int| 0 <= j < i ==> self@[j] != NEWLINE,
            decreases n - i,
        {
            if bytes_at(&self.data, i) == NEWLINE {
                proof {
                    lemma_first_newline_at(self@, i as int);
                }
                let line = bytes_split_to(&mut self.data, i + 1);
                let out = bytes_to_vec(&line);
                proof {
                    assert(out@ =~= first_line(old(self)@));
                    assert(self@ =~= after_first_line(old(self)@));
                }
                return Some(out);
            }
            i = i + 1;
        }
        proof {
            lemma_first_newline_bounds(self@);
            if has_newline(self@) {
                assert(self@[first_newline(self@)] == NEWLINE);
            }
        }
        None
    }
}

} // verus!
