//! Incremental scanning of append-only JSONL session logs.
//!
//! The authoritative progress of a log is `(last_modified, last_line_offset)`.
//! A resume hint additionally records the byte position of that line
//! boundary, a snapshot of the parser state and an FNV-1a fingerprint of the
//! bytes just before the boundary; it is used only when it agrees with the
//! authoritative progress, the file has not shrunk below it and the
//! fingerprint still matches. Otherwise the scan restarts at byte 0 and
//! replays history lines (reported as not new).
//!
//! Persisted progress only ever advances to a newline boundary: an
//! incomplete tail line is still handed to the parser, but the next scan
//! rereads it from the boundary.
//!
//! File access, the parser state machine and its serialisation belong to the
//! caller; this module decides.

use vstd::prelude::*;
use vstd::utf8::{decode_utf8, valid_utf8};
use crate::text::{is_blank, trim};

verus! {

/// At most this many bytes before the resume boundary are fingerprinted.
pub const TAIL_HASH_WINDOW: u64 = 64;

pub const FNV_OFFSET_BASIS: u64 = 0xcbf2_9ce4_8422_2325;

pub const FNV_PRIME: u64 = 0x0000_0100_0000_01b3;

/// FNV-1a, 64 bit: xor in each byte, then multiply by the prime modulo 2^64.
pub open spec fn spec_fnv1a64(bytes: Seq<u8>) -> u64
    decreases bytes.len(),
{
    if bytes.len() == 0 {
        FNV_OFFSET_BASIS
    } else {
        vstd::wrapping::u64_specs::wrapping_mul(
            spec_fnv1a64(bytes.drop_last()) ^ (bytes.last() as u64),
            FNV_PRIME,
        )
    }
}

/// FNV-1a 64-bit hash, the content fingerprint of a resume boundary.
pub fn fnv1a64(bytes: &[u8]) -> (h: u64)
    ensures
        h == spec_fnv1a64(bytes@),
{
    let mut hash: u64 = FNV_OFFSET_BASIS;
    let mut i: usize = 0;
    while i < bytes.len()
        invariant
            i <= bytes@.len(),
            hash == spec_fnv1a64(bytes@.subrange(0, i as int)),
        decreases bytes@.len() - i,
    {
        let ghost prefix = bytes@.subrange(0, i + 1);
        assert(prefix.drop_last() =~= bytes@.subrange(0, i as int));
        assert(prefix.last() == bytes@[i as int]);
        hash = (hash ^ (bytes[i] as u64)).wrapping_mul(FNV_PRIME);
        i = i + 1;
    }
    assert(bytes@.subrange(0, bytes@.len() as int) =~= bytes@);
    hash
}

/// The fingerprint as it is stored: the hash's bits read as an `i64`.
pub open spec fn spec_tail_hash(tail: Seq<u8>) -> i64 {
    spec_fnv1a64(tail) as i64
}

pub fn tail_hash(tail: &[u8]) -> (h: i64)
    ensures
        h == spec_tail_hash(tail@),
{
    fnv1a64(tail) as i64
}

/// The fingerprint window before `byte_pos`: `(start, len)` with
/// `len == min(byte_pos, TAIL_HASH_WINDOW)` and `start + len == byte_pos`.
pub fn tail_window(byte_pos: u64) -> (w: (u64, u64))
    ensures
        w.1 == (if byte_pos < TAIL_HASH_WINDOW {
            byte_pos
        } else {
            TAIL_HASH_WINDOW
        }),
        w.0 + w.1 == byte_pos,
{
    let window = if byte_pos < TAIL_HASH_WINDOW {
        byte_pos
    } else {
        TAIL_HASH_WINDOW
    };
    (byte_pos - window, window)
}

/// The resume hint kept beside the authoritative progress of one log.
#[derive(Debug, Clone, PartialEq, Eq)]
pub struct SyncResumeHint {
    pub file_path: String,
    pub last_modified: i64,
    pub last_line_offset: i64,
    pub byte_offset: i64,
    pub state: Option<String>,
    pub tail_hash: Option<i64>,
}

/// A file whose modification time has not passed the recorded one is
/// skipped.
pub fn is_unchanged(file_modified: i64, last_modified: i64) -> (b: bool)
    ensures
        b == (file_modified <= last_modified),
{
    file_modified <= last_modified
}

/// A first sync (no authoritative progress) has nothing to resume, so no
/// hint needs to be loaded.
pub fn should_load_resume_hint(last_offset: i64) -> (b: bool)
    ensures
        b == (last_offset > 0),
{
    last_offset > 0
}

/// The hint agrees with the authoritative progress and points inside the
/// file.
pub open spec fn spec_hint_matches(
    hint: SyncResumeHint,
    last_modified: i64,
    last_offset: i64,
    file_len: u64,
) -> bool {
    &&& last_offset > 0
    &&& hint.last_modified == last_modified
    &&& hint.last_line_offset == last_offset
    &&& hint.byte_offset > 0
    &&& hint.byte_offset <= file_len
}

/// The basic hint check: same authoritative snapshot, and the file has not
/// been truncated below the hint's byte position.
pub fn load_matching_resume_hint(
    hint: Option<SyncResumeHint>,
    last_modified: i64,
    last_offset: i64,
    file_len: u64,
) -> (r: Option<SyncResumeHint>)
    ensures
        r == (match hint {
            Some(h) => if spec_hint_matches(h, last_modified, last_offset, file_len) {
                Some(h)
            } else {
                None
            },
            None => None,
        }),
{
    if last_offset <= 0 {
        return None;
    }
    match hint {
        Some(h) => {
            if h.last_modified == last_modified && h.last_line_offset == last_offset
                && h.byte_offset > 0 && (h.byte_offset as u64) <= file_len {
                Some(h)
            } else {
                None
            }
        },
        None => None,
    }
}

/// The content check of a hint: it carries a fingerprint, and the bytes
/// read from the fingerprint window before its byte position hash to it.
pub fn hint_tail_matches(hint: &SyncResumeHint, tail: &[u8]) -> (b: bool)
    ensures
        b == (hint.tail_hash == Some(spec_tail_hash(tail@))),
{
    match hint.tail_hash {
        Some(expected) => tail_hash(tail) == expected,
        None => false,
    }
}

/// The content check of a hint that passed the basic check: it is used,
/// resuming at its byte offset, exactly when its parser state could be
/// restored and the bytes of the fingerprint window before that offset hash
/// to its fingerprint.
pub fn accept_resume_hint(hint: &SyncResumeHint, tail: &[u8], state_restored: bool) -> (r: Option<
    u64,
>)
    ensures
        r == (if state_restored && hint.tail_hash == Some(spec_tail_hash(tail@)) {
            Some(hint.byte_offset as u64)
        } else {
            None
        }),
{
    if state_restored && hint_tail_matches(hint, tail) {
        Some(hint.byte_offset as u64)
    } else {
        None
    }
}

/// `std::str::from_utf8`, keeping the string when the bytes are valid UTF-8.
#[verifier::external_body]
fn utf8_str<'a>(bytes: &'a [u8]) -> (r: Option<&'a str>)
    ensures
        r is Some <==> valid_utf8(bytes@),
        r matches Some(s) ==> s@ == decode_utf8(bytes@),
{
    std::str::from_utf8(bytes).ok()
}

/// `s.trim_end_matches(c)`.
pub open spec fn strip_trailing(s: Seq<char>, c: char) -> Seq<char>
    decreases s.len(),
{
    if s.len() > 0 && s.last() == c {
        strip_trailing(s.drop_last(), c)
    } else {
        s
    }
}

fn strip_trailing_str<'a>(s: &'a str, c: char) -> (r: &'a str)
    ensures
        r@ == strip_trailing(s@, c),
{
    let n = s.unicode_len();
    let mut j: usize = n;
    assert(s@.subrange(0, n as int) =~= s@);
    while j > 0 && s.get_char(j - 1) == c
        invariant
            n == s@.len(),
            j <= n,
            strip_trailing(s@, c) == strip_trailing(s@.subrange(0, j as int), c),
        decreases j,
    {
        assert(s@.subrange(0, j as int).drop_last() =~= s@.subrange(0, j - 1));
        j = j - 1;
    }
    s.substring_char(0, j)
}

/// The text a raw line (its bytes, with the newline if it had one) gives the
/// parser: `None` for invalid UTF-8 and for blank lines; otherwise the line
/// without trailing `'\n'`s and then without trailing `'\r'`s.
pub open spec fn spec_line_text(raw: Seq<u8>) -> Option<Seq<char>> {
    if !valid_utf8(raw) {
        None
    } else {
        let line = strip_trailing(strip_trailing(decode_utf8(raw), '\n'), '\r');
        if trim(line).len() == 0 {
            None
        } else {
            Some(line)
        }
    }
}

pub fn line_text<'a>(raw: &'a [u8]) -> (r: Option<&'a str>)
    ensures
        match r {
            Some(s) => spec_line_text(raw@) == Some(s@),
            None => spec_line_text(raw@) is None,
        },
{
    match utf8_str(raw) {
        None => None,
        Some(s) => {
            let a = strip_trailing_str(s, '\n');
            let line = strip_trailing_str(a, '\r');
            if is_blank(line) {
                None
            } else {
                Some(line)
            }
        },
    }
}

/// Ends with a newline byte.
pub open spec fn is_complete_line(raw: Seq<u8>) -> bool {
    raw.len() > 0 && raw.last() == 10u8
}

/// What the caller does with one raw line.
pub struct LineEvent<'a> {
    /// Snapshot the parser state now, before the line reaches it: the first
    /// incomplete line while no snapshot has been kept.
    pub snapshot_before: bool,
    /// The text handed to the parser, if any.
    pub line: Option<&'a str>,
    /// Whether the line lies past the authoritative progress.
    pub is_new: bool,
}

/// Where a scan stands: the position reached, the last newline boundary
/// (the progress that may be persisted), and the authoritative line offset
/// that separates history from new lines.
pub struct ScanCursor {
    pub line_offset: i64,
    pub byte_pos: u64,
    pub committed_line_offset: i64,
    pub committed_byte_pos: u64,
    pub last_offset: i64,
    pub has_snapshot: bool,
}

/// What `advance` does to a cursor.
pub open spec fn spec_advance(c: ScanCursor, raw: Seq<u8>) -> ScanCursor {
    let byte_pos = (c.byte_pos + raw.len()) as u64;
    let line_offset = (c.line_offset + 1) as i64;
    ScanCursor {
        line_offset,
        byte_pos,
        committed_line_offset: if is_complete_line(raw) {
            line_offset
        } else {
            c.committed_line_offset
        },
        committed_byte_pos: if is_complete_line(raw) {
            byte_pos
        } else {
            c.committed_byte_pos
        },
        last_offset: c.last_offset,
        has_snapshot: c.has_snapshot,
    }
}

/// The cursor after the raw lines `lines`, in order.
pub open spec fn spec_scan(c: ScanCursor, lines: Seq<Seq<u8>>) -> ScanCursor
    decreases lines.len(),
{
    if lines.len() == 0 {
        c
    } else {
        spec_advance(spec_scan(c, lines.drop_last()), lines.last())
    }
}

/// The number of bytes in `lines`.
pub open spec fn total_len(lines: Seq<Seq<u8>>) -> nat
    decreases lines.len(),
{
    if lines.len() == 0 {
        0
    } else {
        total_len(lines.drop_last()) + lines.last().len()
    }
}

/// The bytes and the number of lines up to and including the last complete
/// line of `lines`, if one is complete.
pub open spec fn last_boundary(lines: Seq<Seq<u8>>) -> Option<(nat, nat)>
    decreases lines.len(),
{
    if lines.len() == 0 {
        None
    } else if is_complete_line(lines.last()) {
        Some((total_len(lines), lines.len()))
    } else {
        last_boundary(lines.drop_last())
    }
}

/// Persisted progress is the last newline boundary: after any run of raw
/// lines, the position reached counts every byte and line, and the
/// committed position is the end of the last complete line (unchanged when
/// none was complete).
pub proof fn lemma_committed_is_last_boundary(c: ScanCursor, lines: Seq<Seq<u8>>)
    requires
        c.wf(),
        c.byte_pos + total_len(lines) <= u64::MAX,
        c.line_offset + lines.len() <= i64::MAX,
    ensures
        spec_scan(c, lines).wf(),
        spec_scan(c, lines).byte_pos == c.byte_pos + total_len(lines),
        spec_scan(c, lines).line_offset == c.line_offset + lines.len(),
        spec_scan(c, lines).last_offset == c.last_offset,
        spec_scan(c, lines).has_snapshot == c.has_snapshot,
        spec_scan(c, lines).committed_byte_pos == (match last_boundary(lines) {
            Some(b) => c.byte_pos + b.0,
            None => c.committed_byte_pos as int,
        }),
        spec_scan(c, lines).committed_line_offset == (match last_boundary(lines) {
            Some(b) => c.line_offset + b.1,
            None => c.committed_line_offset as int,
        }),
    decreases lines.len(),
{
    if lines.len() > 0 {
        lemma_committed_is_last_boundary(c, lines.drop_last());
        if !is_complete_line(lines.last()) {
            lemma_last_boundary_within(lines.drop_last());
        }
    }
}

/// A resumed scan starts at the authoritative line offset, so every line it
/// reads is new; a scan from byte 0 reports a line as new exactly when its
/// number passes the authoritative offset.
pub proof fn lemma_line_is_new(c: ScanCursor, lines: Seq<Seq<u8>>, k: int)
    requires
        c.wf(),
        0 <= k < lines.len(),
        c.byte_pos + total_len(lines) <= u64::MAX,
        c.line_offset + lines.len() <= i64::MAX,
    ensures
        spec_scan(c, lines.take(k + 1)).line_offset == c.line_offset + k + 1,
        c.line_offset >= c.last_offset ==> spec_scan(c, lines.take(k + 1)).line_offset
            > c.last_offset,
{
    lemma_total_len_prefix(lines, k + 1);
    lemma_committed_is_last_boundary(c, lines.take(k + 1));
}

proof fn lemma_total_len_prefix(lines: Seq<Seq<u8>>, n: int)
    requires
        0 <= n <= lines.len(),
    ensures
        total_len(lines.take(n)) <= total_len(lines),
    decreases lines.len(),
{
    if n < lines.len() {
        assert(lines.drop_last().take(n) =~= lines.take(n));
        lemma_total_len_prefix(lines.drop_last(), n);
    } else {
        assert(lines.take(n) =~= lines);
    }
}

proof fn lemma_last_boundary_within(lines: Seq<Seq<u8>>)
    ensures
        last_boundary(lines) matches Some(b) ==> b.0 <= total_len(lines) && b.1 <= lines.len(),
    decreases lines.len(),
{
    if lines.len() > 0 && !is_complete_line(lines.last()) {
        lemma_last_boundary_within(lines.drop_last());
    }
}

/// The end (exclusive) of the line of `b` that contains position `i`,
/// scanning from `i`: just past the next newline, or the end of `b`.
pub open spec fn line_end(b: Seq<u8>, i: int) -> int
    decreases b.len() - i,
{
    if i >= b.len() || i < 0 {
        b.len() as int
    } else if b[i] == 10u8 {
        i + 1
    } else {
        line_end(b, i + 1)
    }
}

pub proof fn lemma_line_end(b: Seq<u8>, i: int)
    requires
        0 <= i <= b.len(),
    ensures
        i <= line_end(b, i) <= b.len(),
        i < b.len() ==> i < line_end(b, i),
        forall|j: int| i <= j < line_end(b, i) - 1 ==> b[j] != 10u8,
        line_end(b, i) < b.len() ==> b[line_end(b, i) - 1] == 10u8,
        line_end(b, i) == b.len() && line_end(b, i) > i ==> (b[line_end(b, i) - 1] == 10u8
            || forall|j: int| i <= j < b.len() ==> b[j] != 10u8),
    decreases b.len() - i,
{
    if i < b.len() && b[i] != 10u8 {
        lemma_line_end(b, i + 1);
    }
}

/// The raw lines of `b` as a reader splitting after each newline returns
/// them: every line but the last ends with a newline.
pub open spec fn split_lines(b: Seq<u8>) -> Seq<Seq<u8>>
    decreases b.len(),
{
    if b.len() == 0 {
        Seq::empty()
    } else {
        let e = line_end(b, 0);
        proof {
            lemma_line_end(b, 0);
        }
        seq![b.subrange(0, e)] + split_lines(b.subrange(e, b.len() as int))
    }
}

/// `b` is empty or ends with a newline: a newline boundary.
pub open spec fn at_boundary(b: Seq<u8>) -> bool {
    b.len() == 0 || b.last() == 10u8
}

proof fn lemma_line_end_prefix(p: Seq<u8>, q: Seq<u8>, i: int)
    requires
        0 <= i < p.len(),
        p.last() == 10u8,
    ensures
        line_end(p + q, i) == line_end(p, i),
    decreases p.len() - i,
{
    assert((p + q)[i] == p[i]);
    if p[i] != 10u8 {
        if i + 1 < p.len() {
            lemma_line_end_prefix(p, q, i + 1);
        } else {
            assert(i == p.len() - 1);
        }
    }
}

/// Splitting a buffer at a newline boundary splits its lines there.
pub proof fn lemma_split_append(p: Seq<u8>, q: Seq<u8>)
    requires
        at_boundary(p),
    ensures
        split_lines(p + q) == split_lines(p) + split_lines(q),
    decreases p.len(),
{
    if p.len() == 0 {
        assert(p + q =~= q);
        assert(split_lines(p) + split_lines(q) =~= split_lines(q));
    } else {
        let e = line_end(p, 0);
        lemma_line_end(p, 0);
        lemma_line_end_prefix(p, q, 0);
        let b = p + q;
        assert(b.len() > 0);
        assert(b.subrange(0, e) =~= p.subrange(0, e));
        let rest_p = p.subrange(e, p.len() as int);
        assert(b.subrange(e, b.len() as int) =~= rest_p + q);
        assert(at_boundary(rest_p));
        lemma_split_append(rest_p, q);
        assert(split_lines(b) == seq![p.subrange(0, e)] + split_lines(rest_p + q));
        assert(split_lines(p) == seq![p.subrange(0, e)] + split_lines(rest_p));
        assert(split_lines(b) =~= split_lines(p) + split_lines(q));
    }
}

proof fn lemma_total_len_concat(xs: Seq<Seq<u8>>, ys: Seq<Seq<u8>>)
    ensures
        total_len(xs + ys) == total_len(xs) + total_len(ys),
    decreases ys.len(),
{
    if ys.len() == 0 {
        assert(xs + ys =~= xs);
    } else {
        assert((xs + ys).drop_last() =~= xs + ys.drop_last());
        lemma_total_len_concat(xs, ys.drop_last());
    }
}

/// The lines of a buffer hold all its bytes, none is empty, and the last
/// is complete exactly when the buffer ends at a newline boundary.
proof fn lemma_split_lines(b: Seq<u8>)
    ensures
        total_len(split_lines(b)) == b.len(),
        split_lines(b).len() <= b.len(),
        b.len() > 0 && b.last() == 10u8 ==> split_lines(b).len() > 0 && is_complete_line(
            split_lines(b).last(),
        ),
    decreases b.len(),
{
    if b.len() > 0 {
        let e = line_end(b, 0);
        lemma_line_end(b, 0);
        let rest = b.subrange(e, b.len() as int);
        lemma_split_lines(rest);
        let head = seq![b.subrange(0, e)];
        lemma_total_len_concat(head, split_lines(rest));
        assert(head.drop_last() =~= Seq::<Seq<u8>>::empty());
        assert(total_len(Seq::<Seq<u8>>::empty()) == 0);
        assert(total_len(head) == e);
        assert(split_lines(b) == head + split_lines(rest));
        if b.last() == 10u8 {
            if rest.len() == 0 {
                assert(e == b.len());
                assert(split_lines(b).last() == b.subrange(0, e));
                assert(b.subrange(0, e).last() == b[e - 1]);
            } else {
                assert(rest.last() == b.last());
                assert(split_lines(b).last() == split_lines(rest).last());
            }
        }
    }
}

/// Scanning two runs of lines is scanning the first, then the second.
pub proof fn lemma_scan_concat(c: ScanCursor, xs: Seq<Seq<u8>>, ys: Seq<Seq<u8>>)
    ensures
        spec_scan(c, xs + ys) == spec_scan(spec_scan(c, xs), ys),
    decreases ys.len(),
{
    if ys.len() == 0 {
        assert(xs + ys =~= xs);
    } else {
        assert((xs + ys).drop_last() =~= xs + ys.drop_last());
        assert((xs + ys).last() == ys.last());
        lemma_scan_concat(c, xs, ys.drop_last());
    }
}

/// Resuming at a newline boundary is the same as rescanning from the start:
/// for a file `history + tail` whose history ends at a newline, the cursor
/// after scanning everything from byte 0 equals the cursor after scanning
/// only `tail` from the boundary (its byte position, with the number of
/// history lines as line offset). So the resumed scan hands the parser the
/// same lines with the same `is_new` flags, and ends with the same progress.
pub proof fn lemma_resume_equals_rescan(history: Seq<u8>, tail: Seq<u8>, last_offset: i64)
    requires
        at_boundary(history),
        history.len() + tail.len() <= i64::MAX,
    ensures
        ({
            let from_start = ScanCursor {
                line_offset: 0,
                byte_pos: 0,
                committed_line_offset: 0,
                committed_byte_pos: 0,
                last_offset,
                has_snapshot: false,
            };
            let n = split_lines(history).len();
            let resumed = ScanCursor {
                line_offset: n as i64,
                byte_pos: history.len() as u64,
                committed_line_offset: n as i64,
                committed_byte_pos: history.len() as u64,
                last_offset,
                has_snapshot: false,
            };
            spec_scan(from_start, split_lines(history + tail)) == spec_scan(
                resumed,
                split_lines(tail),
            )
        }),
{
    let from_start = ScanCursor {
        line_offset: 0,
        byte_pos: 0,
        committed_line_offset: 0,
        committed_byte_pos: 0,
        last_offset,
        has_snapshot: false,
    };
    lemma_split_append(history, tail);
    lemma_scan_concat(from_start, split_lines(history), split_lines(tail));
    lemma_split_lines(history);
    lemma_committed_is_last_boundary(from_start, split_lines(history));
    if history.len() == 0 {
        assert(split_lines(history) =~= Seq::<Seq<u8>>::empty());
    }
}

/// The number of newline bytes in `b`.
pub open spec fn count_newlines(b: Seq<u8>) -> nat
    decreases b.len(),
{
    if b.len() == 0 {
        0
    } else {
        count_newlines(b.drop_last()) + if b.last() == 10u8 {
            1nat
        } else {
            0nat
        }
    }
}

/// The length of the longest prefix of `b` that ends at a newline boundary
/// (one past the last newline, 0 when there is none).
pub open spec fn boundary_len(b: Seq<u8>) -> nat
    decreases b.len(),
{
    if b.len() == 0 {
        0
    } else if b.last() == 10u8 {
        b.len()
    } else {
        boundary_len(b.drop_last())
    }
}

proof fn lemma_count_concat(a: Seq<u8>, b: Seq<u8>)
    ensures
        count_newlines(a + b) == count_newlines(a) + count_newlines(b),
    decreases b.len(),
{
    if b.len() == 0 {
        assert(a + b =~= a);
    } else {
        assert((a + b).drop_last() =~= a + b.drop_last());
        lemma_count_concat(a, b.drop_last());
    }
}

proof fn lemma_no_newline_count(b: Seq<u8>)
    requires
        forall|j: int| 0 <= j < b.len() ==> b[j] != 10u8,
    ensures
        count_newlines(b) == 0,
    decreases b.len(),
{
    if b.len() > 0 {
        lemma_no_newline_count(b.drop_last());
    }
}

proof fn lemma_boundary_len(b: Seq<u8>)
    ensures
        boundary_len(b) <= b.len(),
        at_boundary(b.subrange(0, boundary_len(b) as int)),
        forall|j: int| boundary_len(b) <= j < b.len() ==> b[j] != 10u8,
    decreases b.len(),
{
    if b.len() > 0 {
        if b.last() == 10u8 {
            assert(b.subrange(0, b.len() as int) =~= b);
        } else {
            lemma_boundary_len(b.drop_last());
            assert(b.drop_last().subrange(0, boundary_len(b) as int) =~= b.subrange(
                0,
                boundary_len(b) as int,
            ));
        }
    }
}

/// A buffer at a newline boundary splits into as many lines as it has
/// newlines.
proof fn lemma_split_count(b: Seq<u8>)
    requires
        at_boundary(b),
    ensures
        split_lines(b).len() == count_newlines(b),
    decreases b.len(),
{
    if b.len() > 0 {
        let e = line_end(b, 0);
        lemma_line_end(b, 0);
        let head = b.subrange(0, e);
        let rest = b.subrange(e, b.len() as int);
        assert(b =~= head + rest);
        lemma_count_concat(head, rest);
        assert(head.drop_last() =~= b.subrange(0, e - 1));
        lemma_no_newline_count(head.drop_last());
        assert(head.last() == b[e - 1]);
        assert(b[e - 1] == 10u8);
        if rest.len() > 0 {
            assert(rest.last() == b.last());
        }
        lemma_split_count(rest);
    }
}

/// A whole-file scan from byte 0 (as after a fallback): the position
/// reached counts every byte and line of the file, and the committed
/// progress is the number of newlines and the end of the last one.
pub proof fn lemma_full_scan(content: Seq<u8>, last_offset: i64)
    requires
        content.len() <= i64::MAX,
    ensures
        ({
            let c = spec_scan(ScanCursor::spec_start(0, 0, last_offset), split_lines(content));
            &&& c.committed_line_offset == count_newlines(content)
            &&& c.committed_byte_pos == boundary_len(content)
            &&& c.byte_pos == content.len()
            &&& c.line_offset == split_lines(content).len()
            &&& c.last_offset == last_offset
        }),
{
    let start = ScanCursor::spec_start(0, 0, last_offset);
    let k = boundary_len(content);
    lemma_boundary_len(content);
    let history = content.subrange(0, k as int);
    let tail = content.subrange(k as int, content.len() as int);
    assert(content =~= history + tail);
    lemma_split_append(history, tail);
    lemma_scan_concat(start, split_lines(history), split_lines(tail));
    lemma_split_lines(history);
    lemma_split_lines(tail);
    lemma_split_lines(content);
    lemma_split_count(history);
    lemma_count_concat(history, tail);
    lemma_no_newline_count(tail);
    lemma_committed_is_last_boundary(start, split_lines(history));
    if history.len() == 0 {
        assert(split_lines(history) =~= Seq::<Seq<u8>>::empty());
    }
    let mid = spec_scan(start, split_lines(history));
    lemma_committed_is_last_boundary(mid, split_lines(tail));
    lemma_tail_has_no_boundary(tail);
}

/// The text (if any) and the newness of the event one raw line gives from
/// a cursor, as `advance` reports it.
pub open spec fn spec_line_event(c: ScanCursor, raw: Seq<u8>) -> (Option<Seq<char>>, bool) {
    (spec_line_text(raw), c.line_offset + 1 > c.last_offset)
}

/// The (text, is new) pairs that a run of raw lines hands the parser, in
/// order, event by event from the cursor each line finds.
pub open spec fn spec_deliveries(c: ScanCursor, lines: Seq<Seq<u8>>) -> Seq<(Seq<char>, bool)>
    decreases lines.len(),
{
    if lines.len() == 0 {
        Seq::empty()
    } else {
        let prev = spec_deliveries(c, lines.drop_last());
        let e = spec_line_event(spec_scan(c, lines.drop_last()), lines.last());
        match e.0 {
            Some(t) => prev.push((t, e.1)),
            None => prev,
        }
    }
}

/// The pairs in closed form: the `k`-th line after line number `base`
/// (counting from 1) is handed over, when it is valid UTF-8 and not blank,
/// as its text with "new" meaning `base + k > last_offset`.
pub open spec fn numbered_deliveries(lines: Seq<Seq<u8>>, base: int, last_offset: int) -> Seq<
    (Seq<char>, bool),
>
    decreases lines.len(),
{
    if lines.len() == 0 {
        Seq::empty()
    } else {
        let prev = numbered_deliveries(lines.drop_last(), base, last_offset);
        match spec_line_text(lines.last()) {
            Some(t) => prev.push((t, base + lines.len() > last_offset)),
            None => prev,
        }
    }
}

/// Over any run of lines, the parser gets the valid, non-blank lines in
/// order, each new exactly when its line number passes the authoritative
/// offset.
pub proof fn lemma_deliveries(c: ScanCursor, lines: Seq<Seq<u8>>)
    requires
        c.wf(),
        c.byte_pos + total_len(lines) <= u64::MAX,
        c.line_offset + lines.len() <= i64::MAX,
    ensures
        spec_deliveries(c, lines) == numbered_deliveries(
            lines,
            c.line_offset as int,
            c.last_offset as int,
        ),
    decreases lines.len(),
{
    if lines.len() > 0 {
        let d = lines.drop_last();
        assert(total_len(lines) == total_len(d) + lines.last().len());
        lemma_deliveries(c, d);
        lemma_committed_is_last_boundary(c, d);
    }
}

/// The whole-file law of a scan from byte 0 (no usable hint): the parser
/// gets, in file order, the `k`-th lines that are valid UTF-8 and not
/// blank, each without its trailing newlines and carriage returns and new
/// exactly when `k > last_offset`; and the committed progress is the number
/// of newlines and the end of the last one.
pub proof fn lemma_full_scan_deliveries(content: Seq<u8>, last_offset: i64)
    requires
        content.len() <= i64::MAX,
    ensures
        spec_deliveries(ScanCursor::spec_start(0, 0, last_offset), split_lines(content))
            == numbered_deliveries(split_lines(content), 0, last_offset as int),
        spec_scan(
            ScanCursor::spec_start(0, 0, last_offset),
            split_lines(content),
        ).committed_line_offset == count_newlines(content),
        spec_scan(
            ScanCursor::spec_start(0, 0, last_offset),
            split_lines(content),
        ).committed_byte_pos == boundary_len(content),
{
    lemma_split_lines(content);
    lemma_deliveries(ScanCursor::spec_start(0, 0, last_offset), split_lines(content));
    lemma_full_scan(content, last_offset);
}

/// The raw lines of a buffer, as a reader splitting after each newline
/// returns them: they hold all its bytes in order, none is empty, each but
/// the last ends with a newline and has no other.
pub proof fn lemma_split_lines_shape(b: Seq<u8>)
    ensures
        total_len(split_lines(b)) == b.len(),
        forall|k: int| 0 <= k < split_lines(b).len() ==> (#[trigger] split_lines(b)[k]).len() > 0,
        forall|k: int|
            0 <= k < split_lines(b).len() - 1 ==> is_complete_line(#[trigger] split_lines(b)[k]),
        forall|k: int, j: int|
            0 <= k < split_lines(b).len() && 0 <= j < split_lines(b)[k].len() - 1
                ==> #[trigger] split_lines(b)[k][j] != 10u8,
    decreases b.len(),
{
    lemma_split_lines(b);
    if b.len() > 0 {
        let e = line_end(b, 0);
        lemma_line_end(b, 0);
        let head = b.subrange(0, e);
        let rest = b.subrange(e, b.len() as int);
        lemma_split_lines_shape(rest);
        let xs = split_lines(b);
        assert(xs == seq![head] + split_lines(rest));
        assert forall|k: int| 0 <= k < xs.len() - 1 implies is_complete_line(#[trigger] xs[k]) by {
            if k == 0 {
                assert(rest.len() > 0) by {
                    lemma_split_lines(rest);
                }
                assert(e < b.len());
                assert(head.last() == b[e - 1]);
            } else {
                assert(xs[k] == split_lines(rest)[k - 1]);
            }
        }
        assert forall|k: int, j: int|
            0 <= k < xs.len() && 0 <= j < xs[k].len() - 1 implies #[trigger] xs[k][j] != 10u8 by {
            if k == 0 {
                assert(head[j] == b[j]);
            } else {
                assert(xs[k] == split_lines(rest)[k - 1]);
            }
        }
        assert forall|k: int| 0 <= k < xs.len() implies (#[trigger] xs[k]).len() > 0 by {
            if k > 0 {
                assert(xs[k] == split_lines(rest)[k - 1]);
            }
        }
    }
}

proof fn lemma_tail_has_no_boundary(t: Seq<u8>)
    requires
        forall|j: int| 0 <= j < t.len() ==> t[j] != 10u8,
    ensures
        last_boundary(split_lines(t)) is None,
{
    if t.len() > 0 {
        let e = line_end(t, 0);
        lemma_line_end(t, 0);
        assert(e == t.len());
        assert(t.subrange(e, t.len() as int) =~= Seq::<u8>::empty());
        assert(split_lines(t.subrange(e, t.len() as int)) =~= Seq::<Seq<u8>>::empty());
        assert(split_lines(t) =~= seq![t.subrange(0, e)]);
        assert(t.subrange(0, e).last() == t[e - 1]);
        assert(seq![t.subrange(0, e)].drop_last() =~= Seq::<Seq<u8>>::empty());
        assert(!is_complete_line(split_lines(t).last()));
        assert(split_lines(t).drop_last() =~= Seq::<Seq<u8>>::empty());
        assert(last_boundary(Seq::<Seq<u8>>::empty()) is None);
    }
}

impl ScanCursor {
    /// A cursor at a newline boundary.
    pub open spec fn spec_start(line_offset: i64, byte_pos: u64, last_offset: i64) -> ScanCursor {
        ScanCursor {
            line_offset,
            byte_pos,
            committed_line_offset: line_offset,
            committed_byte_pos: byte_pos,
            last_offset,
            has_snapshot: false,
        }
    }
}

impl ScanCursor {
    /// The committed boundary never lies past the position reached.
    pub open spec fn wf(&self) -> bool {
        &&& self.committed_byte_pos <= self.byte_pos
        &&& self.committed_line_offset <= self.line_offset
    }

    /// Starts at a newline boundary: the resumed hint position with the
    /// authoritative line offset, or the file start with line 0.
    pub fn start(line_offset: i64, byte_pos: u64, last_offset: i64) -> (c: Self)
        ensures
            c == Self::spec_start(line_offset, byte_pos, last_offset),
            c.wf(),
            c.line_offset == line_offset,
            c.byte_pos == byte_pos,
            c.committed_line_offset == line_offset,
            c.committed_byte_pos == byte_pos,
            c.last_offset == last_offset,
            !c.has_snapshot,
    {
        ScanCursor {
            line_offset,
            byte_pos,
            committed_line_offset: line_offset,
            committed_byte_pos: byte_pos,
            last_offset,
            has_snapshot: false,
        }
    }

    /// Takes one raw line as the reader returned it (at most one trailing
    /// newline, which only the last line of a file may lack).
    pub fn advance<'a>(&mut self, raw: &'a [u8]) -> (e: LineEvent<'a>)
        requires
            old(self).wf(),
            old(self).byte_pos + raw@.len() <= u64::MAX,
            old(self).line_offset < i64::MAX,
        ensures
            *final(self) == spec_advance(*old(self), raw@),
            final(self).wf(),
            final(self).byte_pos == old(self).byte_pos + raw@.len(),
            final(self).line_offset == old(self).line_offset + 1,
            final(self).last_offset == old(self).last_offset,
            final(self).has_snapshot == old(self).has_snapshot,
            is_complete_line(raw@) ==> final(self).committed_byte_pos == final(self).byte_pos
                && final(self).committed_line_offset == final(self).line_offset,
            !is_complete_line(raw@) ==> final(self).committed_byte_pos
                == old(self).committed_byte_pos && final(self).committed_line_offset
                == old(self).committed_line_offset,
            e.snapshot_before == (!is_complete_line(raw@) && !old(self).has_snapshot),
            e.is_new == (final(self).line_offset > old(self).last_offset),
            match e.line {
                Some(s) => spec_line_text(raw@) == Some(s@),
                None => spec_line_text(raw@) is None,
            },
    {
        self.byte_pos = self.byte_pos + raw.len() as u64;
        self.line_offset = self.line_offset + 1;
        let is_new = self.line_offset > self.last_offset;
        let complete = raw.len() > 0 && raw[raw.len() - 1] == 10u8;
        let mut snapshot_before = false;
        if complete {
            self.committed_byte_pos = self.byte_pos;
            self.committed_line_offset = self.line_offset;
        } else if !self.has_snapshot {
            snapshot_before = true;
        }
        let line = line_text(raw);
        LineEvent { snapshot_before, line, is_new }
    }

    /// Records whether the parser-state snapshot was taken.
    pub fn snapshot_taken(&mut self, taken: bool)
        ensures
            final(self).has_snapshot == taken,
            final(self).line_offset == old(self).line_offset,
            final(self).byte_pos == old(self).byte_pos,
            final(self).committed_line_offset == old(self).committed_line_offset,
            final(self).committed_byte_pos == old(self).committed_byte_pos,
            final(self).last_offset == old(self).last_offset,
    {
        self.has_snapshot = taken;
    }

    /// No snapshot has been kept during the scan: the final parser state is
    /// the one to persist.
    pub fn needs_final_snapshot(&self) -> (b: bool)
        ensures
            b == !self.has_snapshot,
    {
        !self.has_snapshot
    }

    /// The scan's result: the committed boundary, with the modification
    /// time used and the state snapshot taken at that boundary.
    pub fn outcome(&self, file_modified: i64, resume_state_json: Option<String>) -> (o:
        JsonlScanOutcome)
        ensures
            o.line_offset == self.committed_line_offset,
            o.byte_pos == self.committed_byte_pos,
            o.file_modified == file_modified,
            o.resume_state_json == resume_state_json,
    {
        JsonlScanOutcome {
            line_offset: self.committed_line_offset,
            byte_pos: self.committed_byte_pos,
            file_modified,
            resume_state_json,
        }
    }
}

/// The result of one incremental scan: the caller persists
/// `(file_modified, line_offset)` as authoritative progress and, once that
/// is committed, the whole outcome as the resume hint.
#[derive(Debug, Clone, PartialEq, Eq)]
pub struct JsonlScanOutcome {
    /// Line number at the last newline boundary.
    pub line_offset: i64,
    /// Byte position of the last newline boundary.
    pub byte_pos: u64,
    /// The modification time (ns) used for this scan.
    pub file_modified: i64,
    /// Parser state at the boundary, serialised.
    pub resume_state_json: Option<String>,
}

/// `h` records `outcome` for the file at `file_path`, with `tail_hash` as
/// fingerprint.
pub open spec fn hint_made_from(
    h: SyncResumeHint,
    file_path: String,
    outcome: JsonlScanOutcome,
    tail_hash: Option<i64>,
) -> bool {
    &&& h.file_path == file_path
    &&& h.last_modified == outcome.file_modified
    &&& h.last_line_offset == outcome.line_offset
    &&& h.byte_offset == outcome.byte_pos as i64
    &&& h.state == outcome.resume_state_json
    &&& h.tail_hash == tail_hash
}

/// The hint to store after a scan's progress was committed.
pub fn make_resume_hint(file_path: String, outcome: &JsonlScanOutcome, tail_hash: Option<i64>) -> (h:
    SyncResumeHint)
    ensures
        hint_made_from(h, file_path, *outcome, tail_hash),
{
    SyncResumeHint {
        file_path,
        last_modified: outcome.file_modified,
        last_line_offset: outcome.line_offset,
        byte_offset: outcome.byte_pos as i64,
        state: outcome.resume_state_json.clone(),
        tail_hash,
    }
}

/// A hint stored after a scan is accepted by the next scan of the same file
/// when the authoritative progress is the one that scan committed (past the
/// first line), the file still reaches the boundary, and the bytes before
/// the boundary are unchanged: the basic check passes and the fingerprint
/// matches.
pub proof fn lemma_saved_hint_is_accepted(
    h: SyncResumeHint,
    file_path: String,
    outcome: JsonlScanOutcome,
    tail: Seq<u8>,
    file_len: u64,
)
    requires
        hint_made_from(h, file_path, outcome, Some(spec_tail_hash(tail))),
        outcome.line_offset > 0,
        0 < outcome.byte_pos <= file_len,
        outcome.byte_pos <= i64::MAX,
    ensures
        spec_hint_matches(h, outcome.file_modified, outcome.line_offset, file_len),
        h.tail_hash == Some(spec_tail_hash(tail)),
{
}

} // verus!
