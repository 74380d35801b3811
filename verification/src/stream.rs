//! The streaming decoder: frames an incoming byte stream into
//! server-sent events, extracts each `data:` payload, decodes payloads
//! into completion chunks, and recognizes the terminal sentinel.
//!
//! Events are delimited by a blank line (two newline bytes); a payload
//! whose trimmed form is `[DONE]` ends the stream; a payload that fails
//! to decode is a protocol error that stops the decoder for good, though
//! chunks already emitted stay valid.

use vstd::prelude::*;
use crate::completion::{spec_chunk, Chunk, ChunkV};
use crate::decode::{parse_json_str, spec_parse_json, DecodeError};

verus! {

/// The characters that the given bytes read as when decoded as UTF-8,
/// with malformed sequences replaced. Depends on the bytes alone.
pub uninterp spec fn spec_lossy_utf8(bytes: Seq<u8>) -> Seq<char>;

/// Relies on String::from_utf8_lossy: malformed sequences are replaced,
/// never fatal, and the outcome is a function of the bytes alone.
#[verifier::external_body]
fn lossy_utf8(bytes: &[u8]) -> (r: String)
    ensures
        r@ == spec_lossy_utf8(bytes@),
{
    String::from_utf8_lossy(bytes).into_owned()
}

/// What one call of [`StreamDecoder::feed`] left behind: the stream still
/// open, ended by the terminal sentinel, or stopped by a decode error.
#[derive(Debug, Clone, Copy, PartialEq, Eq, Structural)]
pub enum FeedStatus {
    Active,
    Done,
    Failed(DecodeError),
}

/// An event delimiter (a blank line) starts at this position.
pub open spec fn spec_delim_at(s: Seq<u8>, i: int) -> bool {
    0 <= i && i + 2 <= s.len() && s[i] == 10 && s[i + 1] == 10
}

/// The buffer holds a complete event.
pub open spec fn spec_has_delim(s: Seq<u8>) -> bool
    decreases s.len(),
{
    if s.len() < 2 {
        false
    } else if s[0] == 10 && s[1] == 10 {
        true
    } else {
        spec_has_delim(s.drop_first())
    }
}

/// Where the first event delimiter starts.
pub open spec fn spec_first_delim(s: Seq<u8>) -> int
    decreases s.len(),
{
    if s.len() < 2 {
        0
    } else if s[0] == 10 && s[1] == 10 {
        0
    } else {
        1 + spec_first_delim(s.drop_first())
    }
}

proof fn lemma_no_delim(s: Seq<u8>)
    requires
        forall|j: int| #![trigger s[j]] 0 <= j && j + 2 <= s.len() ==> !(s[j] == 10 && s[j + 1] == 10),
    ensures
        !spec_has_delim(s),
    decreases s.len(),
{
    if s.len() >= 2 {
        assert(!(s[0] == 10 && s[1] == 10));
        assert(forall|j: int|
            #![trigger s.drop_first()[j]]
            0 <= j && j + 2 <= s.drop_first().len() ==> !(s.drop_first()[j] == 10
                && s.drop_first()[j + 1] == 10)) by {
            assert(forall|j: int|
                0 <= j && j + 2 <= s.drop_first().len() ==> #[trigger] s.drop_first()[j] == s[j + 1]
                    && s.drop_first()[j + 1] == s[j + 2]);
        }
        lemma_no_delim(s.drop_first());
    }
}

proof fn lemma_first_delim_at(s: Seq<u8>, i: int)
    requires
        spec_delim_at(s, i),
        forall|j: int| #![trigger s[j]] 0 <= j < i ==> !(s[j] == 10 && s[j + 1] == 10),
    ensures
        spec_has_delim(s),
        spec_first_delim(s) == i,
    decreases i,
{
    if i == 0 {
    } else {
        assert(!(s[0] == 10 && s[1] == 10));
        assert(spec_delim_at(s.drop_first(), i - 1)) by {
            assert(s.drop_first()[i - 1] == s[i]);
            assert(s.drop_first()[i] == s[i + 1]);
        }
        assert(forall|j: int|
            #![trigger s.drop_first()[j]]
            0 <= j < i - 1 ==> !(s.drop_first()[j] == 10 && s.drop_first()[j + 1] == 10)) by {
            assert(forall|j: int|
                0 <= j < i - 1 ==> #[trigger] s.drop_first()[j] == s[j + 1] && s.drop_first()[j
                    + 1] == s[j + 2]);
        }
        lemma_first_delim_at(s.drop_first(), i - 1);
    }
}

/// The bytes hold a newline.
pub open spec fn spec_has_nl(s: Seq<u8>) -> bool
    decreases s.len(),
{
    if s.len() == 0 {
        false
    } else if s[0] == 10 {
        true
    } else {
        spec_has_nl(s.drop_first())
    }
}

/// Where the first newline is.
pub open spec fn spec_first_nl(s: Seq<u8>) -> int
    decreases s.len(),
{
    if s.len() == 0 {
        0
    } else if s[0] == 10 {
        0
    } else {
        1 + spec_first_nl(s.drop_first())
    }
}

proof fn lemma_no_nl(s: Seq<u8>)
    requires
        forall|j: int| 0 <= j < s.len() ==> s[j] != 10,
    ensures
        !spec_has_nl(s),
    decreases s.len(),
{
    if s.len() > 0 {
        assert(forall|j: int|
            0 <= j < s.drop_first().len() ==> #[trigger] s.drop_first()[j] == s[j + 1]);
        lemma_no_nl(s.drop_first());
    }
}

proof fn lemma_first_nl_at(s: Seq<u8>, i: int)
    requires
        0 <= i < s.len(),
        s[i] == 10,
        forall|j: int| 0 <= j < i ==> s[j] != 10,
    ensures
        spec_has_nl(s),
        spec_first_nl(s) == i,
    decreases i,
{
    if i > 0 {
        assert(forall|j: int|
            0 <= j < s.drop_first().len() ==> #[trigger] s.drop_first()[j] == s[j + 1]);
        lemma_first_nl_at(s.drop_first(), i - 1);
    }
}

proof fn lemma_first_nl_bounds(s: Seq<u8>)
    requires
        spec_has_nl(s),
    ensures
        0 <= spec_first_nl(s) < s.len(),
        s[spec_first_nl(s)] == 10,
    decreases s.len(),
{
    if s.len() > 0 && s[0] != 10 {
        lemma_first_nl_bounds(s.drop_first());
        assert(s.drop_first()[spec_first_nl(s.drop_first())] == s[spec_first_nl(s)]);
    }
}

proof fn lemma_first_delim_bounds(s: Seq<u8>)
    requires
        spec_has_delim(s),
    ensures
        0 <= spec_first_delim(s),
        spec_first_delim(s) + 2 <= s.len(),
    decreases s.len(),
{
    if s.len() >= 2 && !(s[0] == 10 && s[1] == 10) {
        lemma_first_delim_bounds(s.drop_first());
    }
}

/// A byte that trimming strips: space, tab, carriage return or newline.
pub open spec fn spec_is_ws(b: u8) -> bool {
    b == 9 || b == 10 || b == 13 || b == 32
}

/// The bytes with leading whitespace stripped.
pub open spec fn spec_trim_front(s: Seq<u8>) -> Seq<u8>
    decreases s.len(),
{
    if s.len() > 0 && spec_is_ws(s[0]) {
        spec_trim_front(s.drop_first())
    } else {
        s
    }
}

/// The bytes with trailing whitespace stripped.
pub open spec fn spec_trim_back(s: Seq<u8>) -> Seq<u8>
    decreases s.len(),
{
    if s.len() > 0 && spec_is_ws(s[s.len() - 1]) {
        spec_trim_back(s.drop_last())
    } else {
        s
    }
}

/// The bytes with whitespace stripped at both ends.
pub open spec fn spec_trim(s: Seq<u8>) -> Seq<u8> {
    spec_trim_back(spec_trim_front(s))
}

proof fn lemma_trim_front_skip(s: Seq<u8>, k: int)
    requires
        0 <= k <= s.len(),
        forall|j: int| 0 <= j < k ==> spec_is_ws(#[trigger] s[j]),
        k == s.len() || !spec_is_ws(s[k]),
    ensures
        spec_trim_front(s) == s.skip(k),
    decreases k,
{
    if k == 0 {
        assert(s.skip(0) =~= s);
    } else {
        assert(spec_is_ws(s[0]));
        assert(forall|j: int|
            0 <= j < s.drop_first().len() ==> #[trigger] s.drop_first()[j] == s[j + 1]);
        lemma_trim_front_skip(s.drop_first(), k - 1);
        assert(s.drop_first().skip(k - 1) =~= s.skip(k));
    }
}

proof fn lemma_trim_back_take(s: Seq<u8>, k: int)
    requires
        0 <= k <= s.len(),
        forall|j: int| k <= j < s.len() ==> spec_is_ws(#[trigger] s[j]),
        k == 0 || !spec_is_ws(s[k - 1]),
    ensures
        spec_trim_back(s) == s.take(k),
    decreases s.len(),
{
    if k == s.len() {
        if s.len() > 0 {
            assert(!spec_is_ws(s[s.len() - 1]));
        }
        assert(s.take(k) =~= s);
    } else {
        assert(spec_is_ws(s[s.len() - 1]));
        assert(forall|j: int|
            0 <= j < s.drop_last().len() ==> #[trigger] s.drop_last()[j] == s[j]);
        lemma_trim_back_take(s.drop_last(), k);
        assert(s.drop_last().take(k) =~= s.take(k));
    }
}

/// The bytes of the terminal sentinel, `[DONE]`.
pub open spec fn spec_done_sentinel() -> Seq<u8> {
    seq![91u8, 68, 79, 78, 69, 93]
}

/// A line that carries a payload: it starts with `data:`.
pub open spec fn spec_is_data_line(l: Seq<u8>) -> bool {
    l.len() >= 5 && l[0] == 100 && l[1] == 97 && l[2] == 116 && l[3] == 97 && l[4] == 58
}

/// What one line of an event contributes: nothing for a line without the
/// `data:` prefix; the end of the stream for the sentinel; one decoded
/// chunk for a payload that parses; a failure for one that does not.
pub open spec fn spec_run_line(l: Seq<u8>) -> (Seq<ChunkV>, FeedStatus) {
    if !spec_is_data_line(l) {
        (Seq::empty(), FeedStatus::Active)
    } else {
        let p = l.skip(5);
        if spec_trim(p) == spec_done_sentinel() {
            (Seq::empty(), FeedStatus::Done)
        } else {
            match spec_parse_json(spec_lossy_utf8(p)) {
                None => (Seq::empty(), FeedStatus::Failed(DecodeError::Syntax)),
                Some(j) => match spec_chunk(j) {
                    Err(e) => (Seq::empty(), FeedStatus::Failed(e)),
                    Ok(c) => (seq![c], FeedStatus::Active),
                },
            }
        }
    }
}

/// What one complete event contributes: its lines in order, stopping at
/// the sentinel or at the first payload that fails to decode.
pub open spec fn spec_run_event(e: Seq<u8>) -> (Seq<ChunkV>, FeedStatus)
    decreases e.len(),
    via spec_run_event_dec
{
    if !spec_has_nl(e) {
        spec_run_line(e)
    } else {
        let i = spec_first_nl(e);
        let first = spec_run_line(e.take(i));
        if first.1 == FeedStatus::Active {
            let rest = spec_run_event(e.skip(i + 1));
            (first.0 + rest.0, rest.1)
        } else {
            first
        }
    }
}

#[via_fn]
proof fn spec_run_event_dec(e: Seq<u8>) {
    if spec_has_nl(e) {
        lemma_first_nl_bounds(e);
    }
}

/// What a whole buffer contributes: each complete event in order, with
/// the bytes after the last delimiter left over; processing stops at the
/// sentinel or at the first failure.
pub open spec fn spec_run_buffer(s: Seq<u8>) -> (Seq<ChunkV>, FeedStatus, Seq<u8>)
    decreases s.len(),
    via spec_run_buffer_dec
{
    if !spec_has_delim(s) {
        (Seq::empty(), FeedStatus::Active, s)
    } else {
        let i = spec_first_delim(s);
        let first = spec_run_event(s.take(i));
        if first.1 == FeedStatus::Active {
            let rest = spec_run_buffer(s.skip(i + 2));
            (first.0 + rest.0, rest.1, rest.2)
        } else {
            (first.0, first.1, s.skip(i + 2))
        }
    }
}

#[via_fn]
proof fn spec_run_buffer_dec(s: Seq<u8>) {
    if spec_has_delim(s) {
        lemma_first_delim_bounds(s);
    }
}

/// Finds the first event delimiter.
fn find_delim(buf: &Vec<u8>) -> (r: Option<usize>)
    ensures
        match r {
            Some(i) => spec_has_delim(buf@) && spec_first_delim(buf@) == i && i + 2 <= buf@.len(),
            None => !spec_has_delim(buf@),
        },
{
    if buf.len() < 2 {
        proof {
            lemma_no_delim(buf@);
        }
        return None;
    }
    let mut i: usize = 0;
    while i < buf.len() - 1
        invariant
            buf@.len() >= 2,
            i <= buf@.len() - 1,
            forall|j: int| #![trigger buf@[j]] 0 <= j < i ==> !(buf@[j] == 10 && buf@[j + 1] == 10),
        decreases buf@.len() - i,
    {
        if buf[i] == 10 && buf[i + 1] == 10 {
            proof {
                lemma_first_delim_at(buf@, i as int);
            }
            return Some(i);
        }
        i = i + 1;
    }
    proof {
        lemma_no_delim(buf@);
    }
    None
}

/// Finds the next newline at or after `from`.
fn find_nl(v: &Vec<u8>, from: usize) -> (r: Option<usize>)
    requires
        from <= v@.len(),
    ensures
        match r {
            Some(j) => {
                &&& from <= j < v@.len()
                &&& spec_has_nl(v@.skip(from as int))
                &&& spec_first_nl(v@.skip(from as int)) == j - from
            },
            None => !spec_has_nl(v@.skip(from as int)),
        },
{
    let mut j: usize = from;
    while j < v.len()
        invariant
            from <= j <= v@.len(),
            forall|t: int| from <= t < j ==> v@[t] != 10,
        decreases v@.len() - j,
    {
        if v[j] == 10 {
            proof {
                assert(forall|t: int|
                    0 <= t < v@.skip(from as int).len() ==> #[trigger] v@.skip(from as int)[t]
                        == v@[t + from]);
                lemma_first_nl_at(v@.skip(from as int), j - from);
            }
            return Some(j);
        }
        j = j + 1;
    }
    proof {
        assert(forall|t: int|
            0 <= t < v@.skip(from as int).len() ==> #[trigger] v@.skip(from as int)[t] == v@[t
                + from]);
        lemma_no_nl(v@.skip(from as int));
    }
    None
}

/// Copies the bytes of `v` from `from` (inclusive) to `to` (exclusive).
fn copy_range(v: &Vec<u8>, from: usize, to: usize) -> (r: Vec<u8>)
    requires
        from <= to <= v@.len(),
    ensures
        r@ == v@.subrange(from as int, to as int),
{
    let mut out: Vec<u8> = Vec::new();
    let mut i: usize = from;
    while i < to
        invariant
            from <= i <= to <= v@.len(),
            out@ == v@.subrange(from as int, i as int),
        decreases to - i,
    {
        out.push(v[i]);
        i = i + 1;
        proof {
            assert(v@.subrange(from as int, i as int) =~= v@.subrange(from as int, i as int - 1)
                .push(v@[i as int - 1]));
        }
    }
    out
}

/// Whether the line carries the `data:` prefix.
fn is_data_line(l: &Vec<u8>) -> (r: bool)
    ensures
        r == spec_is_data_line(l@),
{
    l.len() >= 5 && l[0] == 100 && l[1] == 97 && l[2] == 116 && l[3] == 97 && l[4] == 58
}

/// The range of `p` that trimming keeps.
fn trim_range(p: &Vec<u8>) -> (r: (usize, usize))
    ensures
        r.0 <= r.1 <= p@.len(),
        spec_trim(p@) == p@.subrange(r.0 as int, r.1 as int),
{
    let n = p.len();
    let mut lo: usize = 0;
    while lo < n && (p[lo] == 9 || p[lo] == 10 || p[lo] == 13 || p[lo] == 32)
        invariant
            lo <= n == p@.len(),
            forall|j: int| 0 <= j < lo ==> spec_is_ws(#[trigger] p@[j]),
        decreases n - lo,
    {
        lo = lo + 1;
    }
    proof {
        lemma_trim_front_skip(p@, lo as int);
    }
    if lo == n {
        proof {
            assert(p@.skip(lo as int) =~= Seq::<u8>::empty());
            assert(spec_trim(p@) =~= p@.subrange(lo as int, lo as int));
        }
        return (lo, lo);
    }
    let mut hi: usize = n;
    while hi > lo && (p[hi - 1] == 9 || p[hi - 1] == 10 || p[hi - 1] == 13 || p[hi - 1] == 32)
        invariant
            lo <= hi <= n == p@.len(),
            forall|j: int| hi <= j < n ==> spec_is_ws(#[trigger] p@[j]),
        decreases hi,
    {
        hi = hi - 1;
    }
    proof {
        let s = p@.skip(lo as int);
        assert(forall|t: int| 0 <= t < s.len() ==> #[trigger] s[t] == p@[t + lo]);
        if hi == lo {
            assert(!spec_is_ws(p@[lo as int]));
            assert(spec_is_ws(p@[lo as int]));
        }
        assert(!spec_is_ws(s[hi - lo - 1]));
        lemma_trim_back_take(s, hi - lo);
        assert(s.take(hi - lo) =~= p@.subrange(lo as int, hi as int));
    }
    (lo, hi)
}

/// Whether the given range of `p` holds exactly the terminal sentinel.
fn is_done_sentinel(p: &Vec<u8>, lo: usize, hi: usize) -> (r: bool)
    requires
        lo <= hi <= p@.len(),
    ensures
        r == (p@.subrange(lo as int, hi as int) == spec_done_sentinel()),
{
    if hi - lo != 6 {
        proof {
            assert(p@.subrange(lo as int, hi as int).len() != spec_done_sentinel().len());
        }
        return false;
    }
    let r = p[lo] == 91 && p[lo + 1] == 68 && p[lo + 2] == 79 && p[lo + 3] == 78 && p[lo + 4] == 69
        && p[lo + 5] == 93;
    proof {
        if r {
            assert(p@.subrange(lo as int, hi as int) =~= spec_done_sentinel());
        } else {
            assert(p@.subrange(lo as int, hi as int) != spec_done_sentinel()) by {
                let sub = p@.subrange(lo as int, hi as int);
                assert(sub[0] == p@[lo as int] && sub[1] == p@[lo as int + 1] && sub[2] == p@[
                    lo as int + 2] && sub[3] == p@[lo as int + 3] && sub[4] == p@[lo as int + 4]
                    && sub[5] == p@[lo as int + 5]);
            }
        }
    }
    r
}

/// Processes one line of an event.
fn run_line(l: &Vec<u8>) -> (r: (Option<Chunk>, FeedStatus))
    ensures
        spec_run_line(l@).0 == match r.0 {
            Some(c) => seq![c@],
            None => Seq::<ChunkV>::empty(),
        },
        spec_run_line(l@).1 == r.1,
{
    if !is_data_line(l) {
        return (None, FeedStatus::Active);
    }
    let payload = copy_range(l, 5, l.len());
    proof {
        assert(payload@ =~= l@.skip(5));
    }
    let (lo, hi) = trim_range(&payload);
    if is_done_sentinel(&payload, lo, hi) {
        return (None, FeedStatus::Done);
    }
    let text = lossy_utf8(payload.as_slice());
    match parse_json_str(text.as_str()) {
        None => (None, FeedStatus::Failed(DecodeError::Syntax)),
        Some(v) => match Chunk::from_json(&v) {
            Ok(c) => (Some(c), FeedStatus::Active),
            Err(e) => (None, FeedStatus::Failed(e)),
        },
    }
}

/// Processes one complete event, line by line.
fn run_event(e: &Vec<u8>) -> (r: (Vec<Chunk>, FeedStatus))
    ensures
        spec_run_event(e@).0 == r.0@.map_values(|c: Chunk| c@),
        spec_run_event(e@).1 == r.1,
{
    let mut out: Vec<Chunk> = Vec::new();
    let mut pos: usize = 0;
    proof {
        assert(e@.skip(0) =~= e@);
        assert(out@.map_values(|c: Chunk| c@) =~= Seq::<ChunkV>::empty());
    }
    loop
        invariant
            pos <= e@.len(),
            spec_run_event(e@).0 == out@.map_values(|c: Chunk| c@) + spec_run_event(
                e@.skip(pos as int),
            ).0,
            spec_run_event(e@).1 == spec_run_event(e@.skip(pos as int)).1,
        decreases e@.len() - pos,
    {
        let line_end = find_nl(e, pos);
        let ghost suffix = e@.skip(pos as int);
        match line_end {
            None => {
                let line = copy_range(e, pos, e.len());
                proof {
                    assert(line@ =~= suffix);
                    assert(spec_run_event(suffix) == spec_run_line(suffix));
                }
                let (c, st) = run_line(&line);
                if let Some(c) = c {
                    out.push(c);
                    proof {
                        assert(out@.map_values(|c: Chunk| c@) =~= out@.map_values(
                            |c: Chunk| c@,
                        ).take(out@.len() - 1).push(out@[out@.len() - 1]@));
                        assert(out@.take(out@.len() - 1).map_values(|c: Chunk| c@) =~= out@
                            .map_values(|c: Chunk| c@).take(out@.len() - 1));
                        assert(spec_run_event(e@).0 =~= out@.map_values(|c: Chunk| c@));
                    }
                } else {
                    proof {
                        assert(spec_run_event(e@).0 =~= out@.map_values(|c: Chunk| c@));
                    }
                }
                return (out, st);
            },
            Some(j) => {
                let line = copy_range(e, pos, j);
                proof {
                    assert(line@ =~= suffix.take(spec_first_nl(suffix)));
                    assert(suffix.skip(spec_first_nl(suffix) + 1) =~= e@.skip(j as int + 1));
                }
                let (c, st) = run_line(&line);
                match st {
                    FeedStatus::Active => {
                        let ghost old_out = out@;
                        if let Some(c) = c {
                            out.push(c);
                        }
                        let en = e.len();
                        assert(j < en);
                        pos = j + 1;
                        proof {
                            assert(spec_run_event(suffix).0 == spec_run_line(line@).0
                                + spec_run_event(e@.skip(pos as int)).0);
                            assert(spec_run_event(suffix).1 == spec_run_event(
                                e@.skip(pos as int),
                            ).1);
                            assert(out@.map_values(|c: Chunk| c@) =~= old_out.map_values(
                                |c: Chunk| c@,
                            ) + spec_run_line(line@).0);
                            assert(spec_run_event(e@).0 =~= out@.map_values(|c: Chunk| c@)
                                + spec_run_event(e@.skip(pos as int)).0);
                        }
                    },
                    _ => {
                        proof {
                            assert(spec_run_event(suffix).0 == spec_run_line(line@).0);
                            assert(spec_run_event(suffix).1 == st);
                            assert(c is None);
                            assert(spec_run_event(e@).0 =~= out@.map_values(|c: Chunk| c@));
                        }
                        return (out, st);
                    },
                }
            },
        }
    }
}

/// The streaming state machine. It buffers inbound byte fragments, emits
/// the chunks of each complete event in order, and remembers for good
/// when the stream has ended or failed.
#[derive(Debug)]
pub struct StreamDecoder {
    buf: Vec<u8>,
    done: bool,
    fail: Option<DecodeError>,
}

impl StreamDecoder {
    /// The bytes held back: a trailing partial event, kept until its
    /// delimiter arrives and never emitted on its own.
    pub closed spec fn spec_buf(self) -> Seq<u8> {
        self.buf@
    }

    /// The terminal sentinel has been seen.
    pub closed spec fn spec_done(self) -> bool {
        self.done
    }

    /// The error that stopped the stream, if one did.
    pub closed spec fn spec_failed(self) -> Option<DecodeError> {
        self.fail
    }

    /// The stream is still open.
    pub open spec fn spec_active(self) -> bool {
        !self.spec_done() && self.spec_failed() is None
    }

    /// A decoder with an empty buffer and an open stream.
    pub fn new() -> (r: Self)
        ensures
            r.spec_active(),
            r.spec_buf() == Seq::<u8>::empty(),
    {
        StreamDecoder { buf: Vec::new(), done: false, fail: None }
    }

    /// Whether the terminal sentinel has been seen.
    pub fn is_terminated(&self) -> (r: bool)
        ensures
            r == self.spec_done(),
    {
        self.done
    }

    /// The error that stopped the stream, if one did.
    pub fn error(&self) -> (r: Option<DecodeError>)
        ensures
            r == self.spec_failed(),
    {
        self.fail
    }

    /// Hands the decoder one inbound byte fragment and collects what it
    /// can emit: the chunks of every event completed so far, in order.
    ///
    /// Once the sentinel has been seen or a payload has failed, further
    /// fragments are ignored and the terminal status is repeated. While
    /// the stream is open, the fragment joins the buffer and every
    /// complete event in it is processed, exactly as [`spec_run_buffer`]
    /// says; a delimiter split across fragments is found once both halves
    /// have arrived, and an unfinished trailing event stays in the buffer.
    #[verifier::loop_isolation(false)]
    pub fn feed(&mut self, bytes: &[u8]) -> (r: (Vec<Chunk>, FeedStatus))
        ensures
            old(self).spec_done() ==> {
                &&& *final(self) == *old(self)
                &&& r.0@.len() == 0
                &&& r.1 == FeedStatus::Done
            },
            !old(self).spec_done() && old(self).spec_failed() is Some ==> {
                &&& *final(self) == *old(self)
                &&& r.0@.len() == 0
                &&& r.1 == FeedStatus::Failed(old(self).spec_failed()->0)
            },
            old(self).spec_active() ==> {
                let full = old(self).spec_buf() + bytes@;
                &&& r.0@.map_values(|c: Chunk| c@) == spec_run_buffer(full).0
                &&& r.1 == spec_run_buffer(full).1
                &&& final(self).spec_buf() == spec_run_buffer(full).2
                &&& final(self).spec_done() == (spec_run_buffer(full).1 == FeedStatus::Done)
                &&& final(self).spec_failed() == (match spec_run_buffer(full).1 {
                    FeedStatus::Failed(e) => Some(e),
                    _ => None::<DecodeError>,
                })
            },
    {
        if self.done {
            return (Vec::new(), FeedStatus::Done);
        }
        if let Some(e) = self.fail {
            return (Vec::new(), FeedStatus::Failed(e));
        }
        let ghost start = self.buf@;
        let mut k: usize = 0;
        while k < bytes.len()
            invariant
                k <= bytes@.len(),
                self.buf@ == start + bytes@.take(k as int),
                self.done == false,
                self.fail is None,
            decreases bytes@.len() - k,
        {
            self.buf.push(bytes[k]);
            k = k + 1;
            proof {
                assert(bytes@.take(k as int) =~= bytes@.take(k as int - 1).push(
                    bytes@[k as int - 1],
                ));
                assert(self.buf@ =~= start + bytes@.take(k as int));
            }
        }
        proof {
            assert(bytes@.take(bytes@.len() as int) =~= bytes@);
        }
        let ghost full = start + bytes@;
        let mut out: Vec<Chunk> = Vec::new();
        proof {
            assert(out@.map_values(|c: Chunk| c@) =~= Seq::<ChunkV>::empty());
            assert(spec_run_buffer(full).0 =~= out@.map_values(|c: Chunk| c@) + spec_run_buffer(
                self.buf@,
            ).0);
        }
        loop
            invariant
                self.done == false,
                self.fail is None,
                spec_run_buffer(full).0 == out@.map_values(|c: Chunk| c@) + spec_run_buffer(
                    self.buf@,
                ).0,
                spec_run_buffer(full).1 == spec_run_buffer(self.buf@).1,
                spec_run_buffer(full).2 == spec_run_buffer(self.buf@).2,
            decreases self.buf@.len(),
        {
            match find_delim(&self.buf) {
                None => {
                    proof {
                        assert(spec_run_buffer(self.buf@).0 == Seq::<ChunkV>::empty());
                        assert(spec_run_buffer(full).0 =~= out@.map_values(|c: Chunk| c@));
                    }
                    return (out, FeedStatus::Active);
                },
                Some(i) => {
                    let blen = self.buf.len();
                    let event = copy_range(&self.buf, 0, i);
                    let rest = copy_range(&self.buf, i + 2, blen);
                    let ghost pre = self.buf@;
                    self.buf = rest;
                    proof {
                        assert(event@ =~= pre.take(spec_first_delim(pre)));
                        assert(self.buf@ =~= pre.skip(spec_first_delim(pre) + 2));
                    }
                    let (mut cs, st) = run_event(&event);
                    let ghost old_out = out@;
                    out.append(&mut cs);
                    proof {
                        assert(out@.map_values(|c: Chunk| c@) =~= old_out.map_values(|c: Chunk| c@)
                            + spec_run_event(event@).0);
                    }
                    match st {
                        FeedStatus::Active => {
                            proof {
                                assert(spec_run_buffer(pre).0 == spec_run_event(event@).0
                                    + spec_run_buffer(self.buf@).0);
                                assert(spec_run_buffer(pre).1 == spec_run_buffer(self.buf@).1);
                                assert(spec_run_buffer(pre).2 == spec_run_buffer(self.buf@).2);
                                assert(spec_run_buffer(full).0 =~= out@.map_values(|c: Chunk| c@)
                                    + spec_run_buffer(self.buf@).0);
                            }
                        },
                        FeedStatus::Done => {
                            self.done = true;
                            proof {
                                assert(spec_run_buffer(pre).0 == spec_run_event(event@).0);
                                assert(spec_run_buffer(pre).1 == FeedStatus::Done);
                                assert(spec_run_buffer(full).0 =~= out@.map_values(
                                    |c: Chunk| c@,
                                ));
                            }
                            return (out, FeedStatus::Done);
                        },
                        FeedStatus::Failed(e) => {
                            self.fail = Some(e);
                            proof {
                                assert(spec_run_buffer(pre).0 == spec_run_event(event@).0);
                                assert(spec_run_buffer(pre).1 == FeedStatus::Failed(e));
                                assert(spec_run_buffer(full).0 =~= out@.map_values(
                                    |c: Chunk| c@,
                                ));
                            }
                            return (out, FeedStatus::Failed(e));
                        },
                    }
                },
            }
        }
    }
}

} // verus!
