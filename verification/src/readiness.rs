//! Readiness detection on the backend's output lines.
//!
//! A line is cleaned of terminal escape sequences, decoded as UTF-8 text and
//! searched for the readiness marker. Bytes that do not decode are dropped
//! without a fault.

use vstd::prelude::*;
use vstd::utf8::{decode_utf8, valid_utf8};

verus! {

/// The bytes that `strip_ansi_escapes::strip` leaves of `raw`.
pub uninterp spec fn stripped_bytes(raw: Seq<u8>) -> Seq<u8>;

/// `needle` stands in `hay` at offset `at`.
pub open spec fn occurs_at(hay: Seq<u8>, needle: Seq<u8>, at: int) -> bool {
    &&& 0 <= at
    &&& at + needle.len() <= hay.len()
    &&& hay.subrange(at, at + needle.len()) == needle
}

/// `needle` stands somewhere in `hay` as a contiguous run.
pub open spec fn contains_seq(hay: Seq<u8>, needle: Seq<u8>) -> bool {
    exists|at: int| occurs_at(hay, needle, at)
}

/// The marker that the backend prints once it accepts connections:
/// the ASCII bytes of `Client connected`.
pub open spec fn ready_marker_bytes() -> Seq<u8> {
    seq![67u8, 108u8, 105u8, 101u8, 110u8, 116u8, 32u8, 99u8, 111u8, 110u8, 110u8, 101u8, 99u8,
        116u8, 101u8, 100u8]
}

/// What became of one output line.
#[derive(Debug)]
pub enum LineOutcome {
    /// The bytes were not valid UTF-8; the line is discarded.
    Dropped,
    /// The decoded line, and whether it holds the readiness marker.
    Text { text: String, ready: bool },
}

/// Mathematical value of a [`LineOutcome`].
pub enum LineView {
    Dropped,
    Text { text: Seq<char>, ready: bool },
}

impl View for LineOutcome {
    type V = LineView;

    open spec fn view(&self) -> LineView {
        match self {
            LineOutcome::Dropped => LineView::Dropped,
            LineOutcome::Text { text, ready } => LineView::Text { text: text@, ready: *ready },
        }
    }
}

/// The outcome owed for a line whose escape sequences are already removed.
pub open spec fn outcome_of(stripped: Seq<u8>, marker: Seq<u8>) -> LineView {
    if valid_utf8(stripped) {
        LineView::Text { text: decode_utf8(stripped), ready: contains_seq(stripped, marker) }
    } else {
        LineView::Dropped
    }
}

/// Calls `strip_ansi_escapes::strip`, which runs the bytes through a terminal
/// parser and keeps the printable characters and line breaks. The result is a
/// function of the input bytes alone; nothing more is claimed of it.
#[verifier::external_body]
fn strip_escapes(raw: &[u8]) -> (out: Vec<u8>)
    ensures
        out@ == stripped_bytes(raw@),
{
    strip_ansi_escapes::strip(raw)
}

/// Calls `String::from_utf8`, which hands back the text exactly when the
/// bytes are valid UTF-8, and an error otherwise.
#[verifier::external_body]
fn decode_text(bytes: Vec<u8>) -> (out: Option<String>)
    ensures
        out is Some <==> valid_utf8(bytes@),
        out matches Some(text) ==> text@ == decode_utf8(bytes@),
{
    String::from_utf8(bytes).ok()
}

/// The default readiness marker.
pub fn ready_marker() -> (marker: Vec<u8>)
    ensures
        marker@ == ready_marker_bytes(),
{
    let marker: Vec<u8> = vec![67u8, 108u8, 105u8, 101u8, 110u8, 116u8, 32u8, 99u8, 111u8, 110u8,
        110u8, 101u8, 99u8, 116u8, 101u8, 100u8];
    assert(marker@ =~= ready_marker_bytes());
    marker
}

/// Compares `needle` with the bytes of `hay` that start at `at`.
pub fn matches_at(hay: &[u8], needle: &[u8], at: usize) -> (same: bool)
    requires
        at + needle.len() <= hay.len(),
    ensures
        same == occurs_at(hay@, needle@, at as int),
{
    let mut j: usize = 0;
    while j < needle.len()
        invariant
            j <= needle.len(),
            at + needle.len() <= hay.len(),
            forall|k: int| 0 <= k < j ==> hay@[at + k] == needle@[k],
        decreases needle.len() - j,
    {
        if hay[at + j] != needle[j] {
            assert(hay@.subrange(at as int, at + needle.len())[j as int] == hay@[at + j]);
            return false;
        }
        j += 1;
    }
    assert(hay@.subrange(at as int, at + needle.len()) =~= needle@);
    true
}

/// Exact substring search on bytes.
pub fn find_marker(hay: &[u8], needle: &[u8]) -> (found: bool)
    ensures
        found == contains_seq(hay@, needle@),
{
    if needle.len() > hay.len() {
        return false;
    }
    let last: usize = hay.len() - needle.len();
    let mut at: usize = 0;
    loop
        invariant
            at <= last,
            last == hay.len() - needle.len(),
            forall|k: int| 0 <= k < at ==> !occurs_at(hay@, needle@, k),
        decreases last - at,
    {
        if matches_at(hay, needle, at) {
            return true;
        }
        if at == last {
            return false;
        }
        at += 1;
    }
}

/// Decodes a line whose escape sequences are already removed and looks for
/// `marker` in it.
pub fn classify_stripped(stripped: Vec<u8>, marker: &[u8]) -> (out: LineOutcome)
    ensures
        out@ == outcome_of(stripped@, marker@),
{
    let ready = find_marker(stripped.as_slice(), marker);
    match decode_text(stripped) {
        Some(text) => LineOutcome::Text { text, ready },
        None => LineOutcome::Dropped,
    }
}

/// Classifies one raw output line: strips the terminal escape sequences, then
/// decodes and searches what is left.
pub fn classify_line(raw: &[u8], marker: &[u8]) -> (out: LineOutcome)
    ensures
        out@ == outcome_of(stripped_bytes(raw@), marker@),
{
    classify_stripped(strip_escapes(raw), marker)
}

/// The readiness detector proper: whether the line, once stripped, decodes as
/// text and holds `marker`.
pub fn is_ready_line(raw: &[u8], marker: &[u8]) -> (ready: bool)
    ensures
        ready == (valid_utf8(stripped_bytes(raw@)) && contains_seq(
            stripped_bytes(raw@),
            marker@,
        )),
{
    match classify_line(raw, marker) {
        LineOutcome::Text { text: _, ready } => ready,
        LineOutcome::Dropped => false,
    }
}

} // verus!
