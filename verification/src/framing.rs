//! Byte-level framing of the wire protocol.
//!
//! The feed is a stream of byte chunks; records are newline-terminated lines.
//! This module defines, purely at the specification level, how a byte sequence
//! is cut into complete lines and a trailing fragment, which lines count as
//! blank, and how the connection's buffer evolves as chunks are fed in (a bare
//! newline chunk arriving on an empty buffer is a heartbeat and is dropped).
//! Its lemmas state the framing laws: the lines that come out depend only on
//! the concatenation of the chunks, never on where the chunk boundaries fall,
//! and neither heartbeats nor blank lines are ever visible.

use vstd::prelude::*;

verus! {

/// The line delimiter of the wire protocol.
pub const NEWLINE: u8 = 10;

/// Index of the first newline byte of `s`, or `s.len()` if `s` has none.
pub open spec fn first_newline(s: Seq<u8>) -> int
    decreases s.len(),
{
    if s.len() == 0 {
        0
    } else if s[0] == NEWLINE {
        0
    } else {
        1 + first_newline(s.drop_first())
    }
}

/// Does `s` contain a complete (newline-terminated) line?
pub open spec fn has_newline(s: Seq<u8>) -> bool {
    first_newline(s) < s.len()
}

/// The first complete line of `s`, its newline included.
pub open spec fn first_line(s: Seq<u8>) -> Seq<u8>
    recommends
        has_newline(s),
{
    s.subrange(0, first_newline(s) + 1)
}

/// Everything of `s` after its first complete line.
pub open spec fn after_first_line(s: Seq<u8>) -> Seq<u8>
    recommends
        has_newline(s),
{
    s.subrange(first_newline(s) + 1, s.len() as int)
}

pub proof fn lemma_first_newline_bounds(s: Seq<u8>)
    ensures
        0 <= first_newline(s) <= s.len(),
        has_newline(s) ==> s[first_newline(s)] == NEWLINE,
        forall|j: int| 0 <= j < first_newline(s) ==> s[j] != NEWLINE,
    decreases s.len(),
{
    if s.len() == 0 {
    } else if s[0] == NEWLINE {
    } else {
        lemma_first_newline_bounds(s.drop_first());
        assert forall|j: int| 0 <= j < first_newline(s) implies s[j] != NEWLINE by {
            if j > 0 {
                assert(s.drop_first()[j - 1] == s[j]);
            }
        }
        if has_newline(s) {
            assert(s.drop_first()[first_newline(s.drop_first())] == s[first_newline(s)]);
        }
    }
}

/// `first_newline` is pinned down by any index that holds a newline with none before it.
pub proof fn lemma_first_newline_at(s: Seq<u8>, i: int)
    requires
        0 <= i < s.len(),
        s[i] == NEWLINE,
        forall|j: int| 0 <= j < i ==> s[j] != NEWLINE,
    ensures
        first_newline(s) == i,
    decreases s.len(),
{
    if i > 0 {
        assert(s.drop_first()[i - 1] == s[i]);
        assert forall|j: int| 0 <= j < i - 1 implies s.drop_first()[j] != NEWLINE by {
            assert(s.drop_first()[j] == s[j + 1]);
        }
        lemma_first_newline_at(s.drop_first(), i - 1);
    }
}

/// Appending bytes does not move an existing first newline.
pub proof fn lemma_first_newline_concat(a: Seq<u8>, b: Seq<u8>)
    requires
        has_newline(a),
    ensures
        first_newline(a + b) == first_newline(a),
        has_newline(a + b),
{
    lemma_first_newline_bounds(a);
    assert((a + b)[first_newline(a)] == a[first_newline(a)]);
    assert forall|j: int| 0 <= j < first_newline(a) implies (a + b)[j] != NEWLINE by {
        assert((a + b)[j] == a[j]);
    }
    lemma_first_newline_at(a + b, first_newline(a));
}

#[via_fn]
proof fn complete_lines_decreases_proof(s: Seq<u8>) {
    lemma_first_newline_bounds(s);
}

/// All complete lines of `s`, in order, each with its newline.
pub open spec fn complete_lines(s: Seq<u8>) -> Seq<Seq<u8>>
    decreases s.len(),
    via complete_lines_decreases_proof
{
    if has_newline(s) {
        seq![first_line(s)] + complete_lines(after_first_line(s))
    } else {
        seq![]
    }
}

#[via_fn]
proof fn tail_fragment_decreases_proof(s: Seq<u8>) {
    lemma_first_newline_bounds(s);
}

/// What remains of `s` after all complete lines: the trailing partial record.
pub open spec fn tail_fragment(s: Seq<u8>) -> Seq<u8>
    decreases s.len(),
    via tail_fragment_decreases_proof
{
    if has_newline(s) {
        tail_fragment(after_first_line(s))
    } else {
        s
    }
}

pub proof fn lemma_tail_fragment_no_newline(s: Seq<u8>)
    ensures
        !has_newline(tail_fragment(s)),
    decreases s.len(),
{
    lemma_first_newline_bounds(s);
    if has_newline(s) {
        lemma_tail_fragment_no_newline(after_first_line(s));
    }
}

/// Cutting a concatenation into lines: the lines of `a` come out unchanged,
/// and `a`'s trailing fragment joins `b` to form the rest.
pub proof fn lemma_lines_concat(a: Seq<u8>, b: Seq<u8>)
    ensures
        complete_lines(a + b) == complete_lines(a) + complete_lines(tail_fragment(a) + b),
        tail_fragment(a + b) == tail_fragment(tail_fragment(a) + b),
    decreases a.len(),
{
    lemma_first_newline_bounds(a);
    if has_newline(a) {
        lemma_first_newline_concat(a, b);
        assert(first_line(a + b) =~= first_line(a));
        assert(after_first_line(a + b) =~= after_first_line(a) + b);
        lemma_lines_concat(after_first_line(a), b);
        assert(complete_lines(a + b) =~= complete_lines(a) + complete_lines(
            tail_fragment(a) + b,
        ));
    } else {
        assert(tail_fragment(a) + b =~= a + b);
    }
}

/// ASCII whitespace, the padding the protocol may put around a record line.
pub open spec fn is_ws(b: u8) -> bool {
    b == 32 || b == 9 || b == 10 || b == 13
}

/// Number of leading whitespace bytes of `s`.
pub open spec fn leading_ws(s: Seq<u8>) -> int
    decreases s.len(),
{
    if s.len() == 0 {
        0
    } else if !is_ws(s[0]) {
        0
    } else {
        1 + leading_ws(s.drop_first())
    }
}

/// Index just past the last non-whitespace byte of `s`, or 0 if `s` is all whitespace.
pub open spec fn content_end(s: Seq<u8>) -> int
    decreases s.len(),
{
    if s.len() == 0 {
        0
    } else if !is_ws(s.last()) {
        s.len() as int
    } else {
        content_end(s.drop_last())
    }
}

/// `s` with leading and trailing whitespace removed.
pub open spec fn trimmed(s: Seq<u8>) -> Seq<u8> {
    if leading_ws(s) < content_end(s) {
        s.subrange(leading_ws(s), content_end(s))
    } else {
        Seq::empty()
    }
}

/// A line that trims to nothing: a reframing artifact, never a record.
pub open spec fn is_blank_line(line: Seq<u8>) -> bool {
    trimmed(line).len() == 0
}

pub proof fn lemma_leading_ws_bounds(s: Seq<u8>)
    ensures
        0 <= leading_ws(s) <= s.len(),
        forall|j: int| 0 <= j < leading_ws(s) ==> is_ws(s[j]),
        leading_ws(s) < s.len() ==> !is_ws(s[leading_ws(s)]),
    decreases s.len(),
{
    if s.len() == 0 {
    } else if !is_ws(s[0]) {
    } else {
        lemma_leading_ws_bounds(s.drop_first());
        assert forall|j: int| 0 <= j < leading_ws(s) implies is_ws(s[j]) by {
            if j > 0 {
                assert(s.drop_first()[j - 1] == s[j]);
            }
        }
        if leading_ws(s) < s.len() {
            assert(s.drop_first()[leading_ws(s.drop_first())] == s[leading_ws(s)]);
        }
    }
}

pub proof fn lemma_content_end_bounds(s: Seq<u8>)
    ensures
        0 <= content_end(s) <= s.len(),
        forall|j: int| content_end(s) <= j < s.len() ==> is_ws(s[j]),
        content_end(s) > 0 ==> !is_ws(s[content_end(s) - 1]),
    decreases s.len(),
{
    if s.len() == 0 {
    } else if !is_ws(s.last()) {
    } else {
        lemma_content_end_bounds(s.drop_last());
        assert forall|j: int| content_end(s) <= j < s.len() implies is_ws(s[j]) by {
            if j < s.len() - 1 {
                assert(s.drop_last()[j] == s[j]);
            }
        }
        if content_end(s) > 0 {
            assert(s.drop_last()[content_end(s.drop_last()) - 1] == s[content_end(s) - 1]);
        }
    }
}

/// A line is blank exactly when every one of its bytes is whitespace.
pub proof fn lemma_blank_iff_all_ws(s: Seq<u8>)
    ensures
        is_blank_line(s) <==> (forall|i: int| 0 <= i < s.len() ==> is_ws(s[i])),
{
    lemma_leading_ws_bounds(s);
    lemma_content_end_bounds(s);
    if forall|i: int| 0 <= i < s.len() ==> is_ws(s[i]) {
        assert(leading_ws(s) >= content_end(s)) by {
            if leading_ws(s) < content_end(s) {
                assert(!is_ws(s[content_end(s) - 1]));
            }
        }
    } else {
        let i = choose|i: int| 0 <= i < s.len() && !is_ws(s[i]);
        assert(leading_ws(s) <= i);
        assert(content_end(s) > i);
    }
}

#[via_fn]
proof fn skip_blank_lines_decreases_proof(s: Seq<u8>) {
    lemma_first_newline_bounds(s);
}

/// Drop complete blank lines off the front of `s`.
pub open spec fn skip_blank_lines(s: Seq<u8>) -> Seq<u8>
    decreases s.len(),
    via skip_blank_lines_decreases_proof
{
    if has_newline(s) && is_blank_line(first_line(s)) {
        skip_blank_lines(after_first_line(s))
    } else {
        s
    }
}

/// A chunk that is exactly one newline byte.
pub open spec fn is_heartbeat(chunk: Seq<u8>) -> bool {
    chunk.len() == 1 && chunk[0] == NEWLINE
}

/// One buffer step of the connection: a heartbeat on an empty buffer is
/// dropped; any other chunk is appended.
pub open spec fn feed(buf: Seq<u8>, chunk: Seq<u8>) -> Seq<u8> {
    if buf.len() == 0 && is_heartbeat(chunk) {
        buf
    } else {
        buf + chunk
    }
}

/// The connection's buffer after feeding `chunks` in order, draining every
/// complete line as soon as it is available.
pub open spec fn machine_buf(chunks: Seq<Seq<u8>>) -> Seq<u8>
    decreases chunks.len(),
{
    if chunks.len() == 0 {
        Seq::empty()
    } else {
        tail_fragment(feed(machine_buf(chunks.drop_last()), chunks.last()))
    }
}

/// Every line the connection extracts while feeding `chunks` in order.
pub open spec fn machine_lines(chunks: Seq<Seq<u8>>) -> Seq<Seq<u8>>
    decreases chunks.len(),
{
    if chunks.len() == 0 {
        Seq::empty()
    } else {
        machine_lines(chunks.drop_last()) + complete_lines(
            feed(machine_buf(chunks.drop_last()), chunks.last()),
        )
    }
}

/// The lines that can surface as records or errors: the non-blank ones.
pub open spec fn visible_lines(lines: Seq<Seq<u8>>) -> Seq<Seq<u8>>
    decreases lines.len(),
{
    if lines.len() == 0 {
        Seq::empty()
    } else if is_blank_line(lines.last()) {
        visible_lines(lines.drop_last())
    } else {
        visible_lines(lines.drop_last()).push(lines.last())
    }
}

/// The buffer left by the chunk machine is always the trailing fragment of the
/// concatenated stream: dropping heartbeats never loses fragment bytes.
pub proof fn lemma_machine_buf(chunks: Seq<Seq<u8>>)
    ensures
        machine_buf(chunks) == tail_fragment(chunks.flatten()),
    decreases chunks.len(),
{
    if chunks.len() == 0 {
        assert(chunks.flatten() =~= Seq::<u8>::empty());
    } else {
        let rest = chunks.drop_last();
        let x = chunks.last();
        lemma_machine_buf(rest);
        assert(rest.push(x) =~= chunks);
        Seq::lemma_flatten_push(rest, x);
        lemma_lines_concat(rest.flatten(), x);
        // tail_fragment(flatten(chunks)) == tail_fragment(machine_buf(rest) + x)
        if machine_buf(rest).len() == 0 && is_heartbeat(x) {
            // the heartbeat is dropped: feeding nothing leaves the same fragment
            assert(machine_buf(rest) + x =~= x);
            assert(tail_fragment(x) =~= Seq::<u8>::empty()) by {
                lemma_first_newline_at(x, 0);
                assert(has_newline(x));
                assert(after_first_line(x) =~= Seq::<u8>::empty());
                assert(first_newline(Seq::<u8>::empty()) == 0);
                assert(!has_newline(Seq::<u8>::empty()));
                assert(tail_fragment(Seq::<u8>::empty()) == Seq::<u8>::empty());
                assert(tail_fragment(x) == tail_fragment(after_first_line(x)));
            }
            lemma_tail_fragment_no_newline(machine_buf(rest));
        }
    }
}

/// Keeping only the visible lines distributes over concatenation.
pub proof fn lemma_visible_concat(a: Seq<Seq<u8>>, b: Seq<Seq<u8>>)
    ensures
        visible_lines(a + b) == visible_lines(a) + visible_lines(b),
    decreases b.len(),
{
    if b.len() == 0 {
        assert(a + b =~= a);
        assert(visible_lines(a) + visible_lines(b) =~= visible_lines(a));
    } else {
        assert((a + b).drop_last() =~= a + b.drop_last());
        assert((a + b).last() == b.last());
        lemma_visible_concat(a, b.drop_last());
        if is_blank_line(b.last()) {
        } else {
            assert((visible_lines(a) + visible_lines(b.drop_last())).push(b.last()) =~= visible_lines(
                a,
            ) + visible_lines(b.drop_last()).push(b.last()));
        }
    }
}

/// Framing correctness: however the byte stream was split into chunks, and
/// whether or not heartbeats were interleaved, the non-blank lines the
/// connection extracts are exactly the non-blank complete lines of the
/// concatenated bytes, in order.
pub proof fn lemma_framing_independence(chunks: Seq<Seq<u8>>)
    ensures
        visible_lines(machine_lines(chunks)) == visible_lines(
            complete_lines(chunks.flatten()),
        ),
    decreases chunks.len(),
{
    if chunks.len() == 0 {
        assert(chunks.flatten() =~= Seq::<u8>::empty());
    } else {
        let rest = chunks.drop_last();
        let x = chunks.last();
        lemma_framing_independence(rest);
        lemma_machine_buf(rest);
        assert(rest.push(x) =~= chunks);
        Seq::lemma_flatten_push(rest, x);
        lemma_lines_concat(rest.flatten(), x);
        // complete_lines(flatten(chunks))
        //   == complete_lines(flatten(rest)) + complete_lines(machine_buf(rest) + x)
        lemma_visible_concat(
            complete_lines(rest.flatten()),
            complete_lines(machine_buf(rest) + x),
        );
        lemma_visible_concat(
            machine_lines(rest),
            complete_lines(feed(machine_buf(rest), x)),
        );
        if machine_buf(rest).len() == 0 && is_heartbeat(x) {
            // the dropped heartbeat would only have contributed one blank line
            assert(machine_buf(rest) + x =~= x);
            assert(complete_lines(x) =~= seq![x]) by {
                lemma_first_newline_at(x, 0);
                assert(has_newline(x));
                assert(first_line(x) =~= x);
                assert(after_first_line(x) =~= Seq::<u8>::empty());
                assert(first_newline(Seq::<u8>::empty()) == 0);
                assert(!has_newline(Seq::<u8>::empty()));
                assert(complete_lines(Seq::<u8>::empty()) =~= Seq::<Seq<u8>>::empty());
                assert(complete_lines(x) == seq![first_line(x)] + complete_lines(
                    after_first_line(x),
                ));
            }
            assert(is_blank_line(x)) by {
                lemma_blank_iff_all_ws(x);
            }
            assert(visible_lines(seq![x]) =~= Seq::<Seq<u8>>::empty()) by {
                assert(seq![x].drop_last() =~= Seq::<Seq<u8>>::empty());
            }
            assert(feed(machine_buf(rest), x) =~= machine_buf(rest));
        }
    }
}

/// Framing correctness, stated between two chunkings: however the same byte
/// stream is cut into chunks, the connection sees the same non-blank lines
/// in the same order, so the same records and errors come out of decoding.
pub proof fn lemma_records_independent_of_chunking(c1: Seq<Seq<u8>>, c2: Seq<Seq<u8>>)
    requires
        c1.flatten() == c2.flatten(),
    ensures
        visible_lines(machine_lines(c1)) == visible_lines(machine_lines(c2)),
{
    lemma_framing_independence(c1);
    lemma_framing_independence(c2);
}

/// Skipping complete blank lines off the buffer front loses no visible line
/// and no fragment byte: the drain loop may do it freely.
pub proof fn lemma_skip_blank_lines_keeps_visible(s: Seq<u8>)
    ensures
        visible_lines(complete_lines(skip_blank_lines(s))) == visible_lines(complete_lines(s)),
        tail_fragment(skip_blank_lines(s)) == tail_fragment(s),
    decreases s.len(),
{
    lemma_first_newline_bounds(s);
    if has_newline(s) && is_blank_line(first_line(s)) {
        lemma_skip_blank_lines_keeps_visible(after_first_line(s));
        lemma_visible_concat(seq![first_line(s)], complete_lines(after_first_line(s)));
        assert(visible_lines(seq![first_line(s)]) =~= Seq::<Seq<u8>>::empty()) by {
            assert(visible_lines(Seq::<Seq<u8>>::empty()) =~= Seq::<Seq<u8>>::empty());
            assert(seq![first_line(s)].last() == first_line(s));
            assert(seq![first_line(s)].drop_last() =~= Seq::<Seq<u8>>::empty());
        }
    }
}

/// A sequence of blank lines has nothing visible in it.
pub proof fn lemma_all_blank_invisible(lines: Seq<Seq<u8>>)
    requires
        forall|i: int| 0 <= i < lines.len() ==> is_blank_line(#[trigger] lines[i]),
    ensures
        visible_lines(lines) == Seq::<Seq<u8>>::empty(),
    decreases lines.len(),
{
    if lines.len() > 0 {
        lemma_all_blank_invisible(lines.drop_last());
    }
}

/// Empty-line idempotence: a run of complete blank lines spliced into the byte
/// stream at a line boundary changes neither the visible lines nor the
/// trailing fragment.
pub proof fn lemma_blank_lines_idempotent(a: Seq<u8>, mid: Seq<u8>, b: Seq<u8>)
    requires
        tail_fragment(a).len() == 0,
        tail_fragment(mid).len() == 0,
        forall|i: int|
            0 <= i < complete_lines(mid).len() ==> is_blank_line(
                #[trigger] complete_lines(mid)[i],
            ),
    ensures
        visible_lines(complete_lines(a + mid + b)) == visible_lines(complete_lines(a + b)),
        tail_fragment(a + mid + b) == tail_fragment(a + b),
{
    assert(a + mid + b =~= a + (mid + b));
    lemma_lines_concat(a, mid + b);
    lemma_lines_concat(a, b);
    lemma_lines_concat(mid, b);
    assert(tail_fragment(a) + (mid + b) =~= mid + b);
    assert(tail_fragment(a) + b =~= b);
    assert(tail_fragment(mid) + b =~= b);
    // line sequences now decompose as: lines(a) + lines(mid) + lines(b)
    assert(complete_lines(a + mid + b) == complete_lines(a) + (complete_lines(mid)
        + complete_lines(b)));
    lemma_visible_concat(complete_lines(a), complete_lines(mid) + complete_lines(b));
    lemma_visible_concat(complete_lines(mid), complete_lines(b));
    lemma_visible_concat(complete_lines(a), complete_lines(b));
    lemma_all_blank_invisible(complete_lines(mid));
    assert(visible_lines(complete_lines(a + mid + b)) =~= visible_lines(
        complete_lines(a + b),
    ));
}

/// Two chunk histories that left the machine in the same state stay in step on
/// any further chunks.
proof fn lemma_machine_extend(c1: Seq<Seq<u8>>, c2: Seq<Seq<u8>>, post: Seq<Seq<u8>>)
    requires
        machine_buf(c1) == machine_buf(c2),
        machine_lines(c1) == machine_lines(c2),
    ensures
        machine_buf(c1 + post) == machine_buf(c2 + post),
        machine_lines(c1 + post) == machine_lines(c2 + post),
    decreases post.len(),
{
    if post.len() == 0 {
        assert(c1 + post =~= c1);
        assert(c2 + post =~= c2);
    } else {
        lemma_machine_extend(c1, c2, post.drop_last());
        assert((c1 + post).drop_last() =~= c1 + post.drop_last());
        assert((c2 + post).drop_last() =~= c2 + post.drop_last());
        assert((c1 + post).last() == post.last());
        assert((c2 + post).last() == post.last());
    }
}

/// Heartbeat transparency: a bare newline chunk delivered while the buffer is
/// empty leaves every later buffer state and every extracted line exactly as
/// it would have been without it.
pub proof fn lemma_heartbeat_transparency(pre: Seq<Seq<u8>>, post: Seq<Seq<u8>>)
    requires
        machine_buf(pre).len() == 0,
    ensures
        machine_buf(pre + seq![seq![NEWLINE]] + post) == machine_buf(pre + post),
        machine_lines(pre + seq![seq![NEWLINE]] + post) == machine_lines(pre + post),
{
    let hb: Seq<u8> = seq![NEWLINE];
    assert(is_heartbeat(hb));
    assert((pre + seq![hb]).drop_last() =~= pre);
    assert((pre + seq![hb]).last() == hb);
    assert(feed(machine_buf(pre), hb) == machine_buf(pre));
    assert(machine_buf(pre) =~= Seq::<u8>::empty());
    assert(first_newline(Seq::<u8>::empty()) == 0);
    assert(!has_newline(Seq::<u8>::empty()));
    assert(tail_fragment(Seq::<u8>::empty()) == Seq::<u8>::empty());
    assert(complete_lines(Seq::<u8>::empty()) =~= Seq::<Seq<u8>>::empty());
    assert(machine_buf(pre + seq![hb]) == machine_buf(pre));
    assert(machine_lines(pre + seq![hb]) =~= machine_lines(pre));
    lemma_machine_extend(pre + seq![hb], pre, post);
    assert((pre + seq![hb]) + post =~= pre + seq![hb] + post);
}

/// `leading_ws` is pinned down by a whitespace prefix ending at a
/// non-whitespace byte (or at the end of the sequence).
pub proof fn lemma_leading_ws_at(s: Seq<u8>, i: int)
    requires
        0 <= i <= s.len(),
        forall|j: int| 0 <= j < i ==> is_ws(s[j]),
        i < s.len() ==> !is_ws(s[i]),
    ensures
        leading_ws(s) == i,
    decreases s.len(),
{
    if i > 0 {
        assert(is_ws(s[0]));
        assert forall|j: int| 0 <= j < i - 1 implies is_ws(s.drop_first()[j]) by {
            assert(s.drop_first()[j] == s[j + 1]);
        }
        if i < s.len() {
            assert(s.drop_first()[i - 1] == s[i]);
        }
        lemma_leading_ws_at(s.drop_first(), i - 1);
    }
}

/// `content_end` is pinned down by a whitespace suffix starting right after a
/// non-whitespace byte (or at the start of the sequence).
pub proof fn lemma_content_end_at(s: Seq<u8>, b: int)
    requires
        0 <= b <= s.len(),
        forall|j: int| b <= j < s.len() ==> is_ws(s[j]),
        b > 0 ==> !is_ws(s[b - 1]),
    ensures
        content_end(s) == b,
    decreases s.len(),
{
    if b < s.len() {
        assert(is_ws(s.last()));
        assert forall|j: int| b <= j < s.len() - 1 implies is_ws(s.drop_last()[j]) by {
            assert(s.drop_last()[j] == s[j]);
        }
        if b > 0 {
            assert(s.drop_last()[b - 1] == s[b - 1]);
        }
        lemma_content_end_at(s.drop_last(), b);
    }
}

fn is_ws_byte(b: u8) -> (r: bool)
    ensures
        r == is_ws(b),
{
    b == 32 || b == 9 || b == 10 || b == 13
}

fn leading_ws_len(line: &[u8]) -> (a: usize)
    ensures
        a == leading_ws(line@),
{
    let n = line.len();
    let mut a: usize = 0;
    while a < n
        invariant
            0 <= a <= n,
            n == line@.len(),
            forall|j: int| 0 <= j < a ==> is_ws(line@[j]),
        decreases n - a,
    {
        if !is_ws_byte(line[a]) {
            proof {
                lemma_leading_ws_at(line@, a as int);
            }
            return a;
        }
        a = a + 1;
    }
    proof {
        lemma_leading_ws_at(line@, n as int);
    }
    a
}

fn content_end_pos(line: &[u8]) -> (b: usize)
    ensures
        b == content_end(line@),
{
    let n = line.len();
    let mut b: usize = n;
    while b > 0
        invariant
            0 <= b <= n,
            n == line@.len(),
            forall|j: int| b <= j < n ==> is_ws(line@[j]),
        decreases b,
    {
        if !is_ws_byte(line[b - 1]) {
            proof {
                lemma_content_end_at(line@, b as int);
            }
            return b;
        }
        b = b - 1;
    }
    proof {
        lemma_content_end_at(line@, 0);
    }
    0
}

/// `line` with leading and trailing whitespace removed.
pub fn trim_line(line: &[u8]) -> (r: &[u8])
    ensures
        r@ == trimmed(line@),
{
    let a = leading_ws_len(line);
    let b = content_end_pos(line);
    proof {
        lemma_leading_ws_bounds(line@);
        lemma_content_end_bounds(line@);
    }
    if a < b {
        &line[a..b]
    } else {
        proof {
            assert(line@.subrange(0, 0) =~= Seq::<u8>::empty());
        }
        &line[0..0]
    }
}

} // verus!
