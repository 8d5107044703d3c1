//! Error and log-entry types surfaced to the host.

use vstd::prelude::*;

verus! {

/// Typed errors surfaced to the host by the bridge entry points.
#[derive(Debug)]
pub enum AnkurahError {
    /// Opening local storage or creating its directory failed.
    Storage { message: String },
    /// Opening or handshaking the remote connection failed.
    Connection { message: String },
    /// An operation was called before the node was brought up.
    NotInitialized,
    /// A second bring-up was attempted where one is forbidden.
    AlreadyInitialized,
    /// Any other engine-side failure.
    Internal { message: String },
}

/// The rendered text of an error, as the host sees it.
pub open spec fn error_text(e: AnkurahError) -> Seq<char> {
    match e {
        AnkurahError::Storage { message } => "Storage error: "@ + message@,
        AnkurahError::Connection { message } => "Connection error: "@ + message@,
        AnkurahError::NotInitialized => "Not initialized"@,
        AnkurahError::AlreadyInitialized => "Already initialized"@,
        AnkurahError::Internal { message } => "Internal error: "@ + message@,
    }
}

impl Clone for AnkurahError {
    fn clone(&self) -> (res: Self)
        ensures
            res == *self,
    {
        match self {
            AnkurahError::Storage { message } => AnkurahError::Storage { message: message.clone() },
            AnkurahError::Connection { message } => AnkurahError::Connection {
                message: message.clone(),
            },
            AnkurahError::NotInitialized => AnkurahError::NotInitialized,
            AnkurahError::AlreadyInitialized => AnkurahError::AlreadyInitialized,
            AnkurahError::Internal { message } => AnkurahError::Internal {
                message: message.clone(),
            },
        }
    }
}

impl AnkurahError {
    /// Renders the error as a human-readable message.
    pub fn message(&self) -> (r: String)
        ensures
            r@ == error_text(*self),
    {
        match self {
            AnkurahError::Storage { message } => String::from_str("Storage error: ").concat(
                message.as_str(),
            ),
            AnkurahError::Connection { message } => String::from_str("Connection error: ").concat(
                message.as_str(),
            ),
            AnkurahError::NotInitialized => String::from_str("Not initialized"),
            AnkurahError::AlreadyInitialized => String::from_str("Already initialized"),
            AnkurahError::Internal { message } => String::from_str("Internal error: ").concat(
                message.as_str(),
            ),
        }
    }
}

/// A single structured log event, immutable once constructed.
#[derive(Debug)]
pub struct LogEntry {
    /// Milliseconds since the Unix epoch at which the event was recorded.
    pub timestamp_ms: u64,
    /// Severity name: "TRACE", "DEBUG", "INFO", "WARN" or "ERROR".
    pub level: String,
    /// The module path or target that emitted the event.
    pub target: String,
    /// The event's message, or its fields joined into one line.
    pub message: String,
}

impl Clone for LogEntry {
    fn clone(&self) -> (res: Self)
        ensures
            res == *self,
    {
        LogEntry {
            timestamp_ms: self.timestamp_ms,
            level: self.level.clone(),
            target: self.target.clone(),
            message: self.message.clone(),
        }
    }
}

} // verus!
