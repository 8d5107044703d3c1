//! Log buffering: every structured event in the process is folded
//! into a [`LogEntry`] and kept in a bounded FIFO that the host drains
//! on its own schedule. Under sustained overflow the oldest entries
//! are silently dropped; nothing else is ever lost or duplicated.

use crate::ring::RingBuffer;
use crate::ring::ring_push;
use crate::types::LogEntry;
use vstd::prelude::*;

verus! {

/// How many log entries the buffer retains.
pub const MAX_LOGS: usize = 1000;

/// A log event's severity.
#[derive(Clone, Copy, Debug, PartialEq, Eq, Structural)]
pub enum Level {
    /// Finest-grained tracing.
    Trace,
    /// Debugging detail.
    Debug,
    /// Ordinary operational events.
    Info,
    /// Something unexpected but tolerated.
    Warn,
    /// A failure.
    Error,
}

/// Severities ordered from finest to gravest.
pub open spec fn severity(l: Level) -> int {
    match l {
        Level::Trace => 0,
        Level::Debug => 1,
        Level::Info => 2,
        Level::Warn => 3,
        Level::Error => 4,
    }
}

/// The severity's conventional upper-case name.
pub open spec fn level_text(l: Level) -> Seq<char> {
    match l {
        Level::Trace => "TRACE"@,
        Level::Debug => "DEBUG"@,
        Level::Info => "INFO"@,
        Level::Warn => "WARN"@,
        Level::Error => "ERROR"@,
    }
}

/// Renders the severity's conventional upper-case name.
pub fn level_name(l: &Level) -> (r: String)
    ensures
        r@ == level_text(*l),
{
    match l {
        Level::Trace => String::from_str("TRACE"),
        Level::Debug => String::from_str("DEBUG"),
        Level::Info => String::from_str("INFO"),
        Level::Warn => String::from_str("WARN"),
        Level::Error => String::from_str("ERROR"),
    }
}

/// Whether the severity reaches the fixed minimum that is buffered
/// and forwarded.
pub fn at_least_info(l: &Level) -> (r: bool)
    ensures
        r == (severity(*l) >= severity(Level::Info)),
{
    match l {
        Level::Trace => false,
        Level::Debug => false,
        _ => true,
    }
}

/// The process-wide bounded log buffer.
pub struct LogStore {
    entries: RingBuffer<LogEntry>,
}

impl LogStore {
    /// The buffered entries, in arrival order.
    pub closed spec fn buffered(&self) -> Seq<LogEntry> {
        self.entries@
    }

    /// The buffer is bounded by [`MAX_LOGS`].
    pub closed spec fn wf(&self) -> bool {
        &&& self.entries.wf()
        &&& self.entries.cap() == MAX_LOGS
    }

    /// An empty buffer.
    pub fn new() -> (r: Self)
        ensures
            r.buffered() == Seq::<LogEntry>::empty(),
            r.wf(),
    {
        LogStore { entries: RingBuffer::new(MAX_LOGS) }
    }

    /// How many entries are currently buffered.
    pub fn len(&self) -> (r: usize)
        ensures
            r == self.buffered().len(),
    {
        self.entries.len()
    }

    /// Appends an already-built entry under the bounded-FIFO
    /// discipline.
    pub fn append_entry(&mut self, e: LogEntry)
        requires
            old(self).wf(),
        ensures
            final(self).wf(),
            final(self).buffered() == ring_push(old(self).buffered(), MAX_LOGS as nat, e),
    {
        self.entries.push(e);
    }

    /// Folds one event into the buffer: the entry keeps the event's
    /// timestamp, severity name, target and message, and lands at the
    /// back, evicting the oldest entry if the buffer is full.
    pub fn record_event(&mut self, timestamp_ms: u64, level: Level, target: String, message: String)
        requires
            old(self).wf(),
        ensures
            final(self).wf(),
            final(self).buffered().len() >= 1,
            final(self).buffered() == ring_push(
                old(self).buffered(),
                MAX_LOGS as nat,
                final(self).buffered().last(),
            ),
            final(self).buffered().last().timestamp_ms == timestamp_ms,
            final(self).buffered().last().level@ == level_text(level),
            final(self).buffered().last().target == target,
            final(self).buffered().last().message == message,
    {
        let e = LogEntry { timestamp_ms, level: level_name(&level), target, message };
        self.entries.push(e);
    }

    /// Removes and returns everything buffered, in arrival order. A
    /// second drain with no events in between returns nothing.
    pub fn get_buffered_logs(&mut self) -> (out: Vec<LogEntry>)
        requires
            old(self).wf(),
        ensures
            final(self).wf(),
            out@ == old(self).buffered(),
            final(self).buffered() == Seq::<LogEntry>::empty(),
    {
        self.entries.drain()
    }
}

/// The once-only guard around installing the buffering subscriber.
pub struct LoggingSetup {
    installed: bool,
}

impl LoggingSetup {
    /// Whether the subscriber has been installed.
    pub closed spec fn is_installed(&self) -> bool {
        self.installed
    }

    /// Nothing installed yet.
    pub fn new() -> (r: Self)
        ensures
            !r.is_installed(),
    {
        LoggingSetup { installed: false }
    }

    /// Requests installation of the buffering subscriber. Returns
    /// whether the caller must actually install it: true on the first
    /// call, false ever after, so installation happens at most once.
    pub fn init_logging(&mut self) -> (install_now: bool)
        ensures
            final(self).is_installed(),
            install_now == !old(self).is_installed(),
    {
        let install_now = !self.installed;
        self.installed = true;
        install_now
    }
}

} // verus!
