//! Panic capture: formatting one record per panic and keeping the
//! most recent records in a bounded list.
//!
//! The process-wide panic handler extracts what it can — the payload
//! text, the source location, a captured trace — and hands the plain
//! values here. Everything that can fail around this (taking a lock,
//! appending to the diagnostic file, writing to standard error) is
//! skipped on failure, never escalated: diagnostics must survive the
//! failure they are reporting.

use crate::decimal::dec_rep;
use crate::decimal::u64_to_dec;
use crate::ring::RingBuffer;
use crate::ring::ring_push;
use vstd::prelude::*;

verus! {

/// How many panic records are retained.
pub const MAX_PANICS: usize = 100;

/// The one-line-plus-trace text of a panic record: location and
/// payload, with fixed fallbacks where either is unavailable, then
/// the captured trace on its own lines.
pub open spec fn panic_text(
    location: Option<Seq<char>>,
    payload: Option<Seq<char>>,
    trace: Seq<char>,
) -> Seq<char> {
    "PANIC at "@ + (match location {
        Some(l) => l,
        None => "unknown"@,
    }) + ": "@ + (match payload {
        Some(p) => p,
        None => "Unknown panic"@,
    }) + "\n"@ + trace
}

/// Whether `sub` occurs contiguously inside `s`.
pub open spec fn contains_seq(s: Seq<char>, sub: Seq<char>) -> bool {
    exists|i: int| 0 <= i <= s.len() - sub.len() && #[trigger] s.subrange(i, i + sub.len()) == sub
}

/// The bounded in-memory list of panic records, oldest evicted first.
pub struct PanicLog {
    records: RingBuffer<String>,
}

impl PanicLog {
    /// The retained records, in arrival order.
    pub closed spec fn records(&self) -> Seq<String> {
        self.records@
    }

    /// The list is bounded by [`MAX_PANICS`].
    pub closed spec fn wf(&self) -> bool {
        &&& self.records.wf()
        &&& self.records.cap() == MAX_PANICS
    }

    /// An empty list.
    pub fn new() -> (r: Self)
        ensures
            r.records() == Seq::<String>::empty(),
            r.wf(),
    {
        PanicLog { records: RingBuffer::new(MAX_PANICS) }
    }

    /// How many records are retained.
    pub fn len(&self) -> (r: usize)
        ensures
            r == self.records().len(),
    {
        self.records.len()
    }

    /// Formats one panic into its record, retains the record under
    /// the bounded-FIFO discipline, and returns it for the handler to
    /// emit to standard error and the diagnostic file.
    pub fn record_panic(
        &mut self,
        location: Option<String>,
        payload: Option<String>,
        trace: &str,
    ) -> (msg: String)
        requires
            old(self).wf(),
        ensures
            final(self).wf(),
            msg@ == panic_text(
                match location {
                    Some(l) => Some(l@),
                    None => None,
                },
                match payload {
                    Some(p) => Some(p@),
                    None => None,
                },
                trace@,
            ),
            final(self).records() == ring_push(old(self).records(), MAX_PANICS as nat, msg),
    {
        let loc: String = match location {
            Some(l) => l,
            None => String::from_str("unknown"),
        };
        let pay: String = match payload {
            Some(p) => p,
            None => String::from_str("Unknown panic"),
        };
        let msg = String::from_str("PANIC at ").concat(loc.as_str()).concat(": ").concat(
            pay.as_str(),
        ).concat("\n").concat(trace);
        self.records.push(msg.clone());
        msg
    }

    /// The most recently captured record, or nothing if no panic has
    /// occurred.
    pub fn get_last_panic(&self) -> (r: Option<String>)
        ensures
            match r {
                Some(m) => self.records().len() > 0 && m == self.records().last(),
                None => self.records().len() == 0,
            },
    {
        match self.records.last() {
            Some(m) => Some(m.clone()),
            None => None,
        }
    }
}

/// One block of the append-only diagnostic file: the record between
/// timestamp markers, exactly `=== <seconds> ===`, the record, and a
/// blank line.
pub fn format_panic_file_block(unix_seconds: u64, msg: &str) -> (r: String)
    ensures
        r@ == "=== "@ + dec_rep(unix_seconds as nat) + " ===\n"@ + msg@ + "\n\n"@,
{
    String::from_str("=== ").concat(u64_to_dec(unix_seconds).as_str()).concat(" ===\n").concat(
        msg,
    ).concat("\n\n")
}

/// Panic capture reports what happened: the record holds the payload
/// text and the source location verbatim, so a reader finds both.
pub proof fn lemma_panic_record_reports(location: Seq<char>, payload: Seq<char>, trace: Seq<char>)
    ensures
        contains_seq(panic_text(Some(location), Some(payload), trace), payload),
        contains_seq(panic_text(Some(location), Some(payload), trace), location),
{
    reveal_strlit("PANIC at ");
    reveal_strlit(": ");
    reveal_strlit("\n");
    let s = panic_text(Some(location), Some(payload), trace);
    let li: int = "PANIC at "@.len() as int;
    assert(s.subrange(li, li + location.len()) =~= location);
    let pi: int = li + location.len() + ": "@.len();
    assert(s.subrange(pi, pi + payload.len()) =~= payload);
}

} // verus!
