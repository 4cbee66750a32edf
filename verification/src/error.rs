//! The driver's error taxonomy.
//!
//! Every failure of the protocol engine is reported as an [`Error`]: a
//! category plus a human-readable message. Transport faults are wrapped in
//! the `TransportIoFailed` category and never silently swallowed.

use vstd::prelude::*;

verus! {

/// The category of a driver failure.
#[derive(Clone, Copy, Debug, PartialEq, Eq, Structural)]
pub enum ErrorKind {
    /// No candidate serial device was found.
    DeviceNotFound,
    /// The serial line could not be opened.
    TransportOpenFailed,
    /// An underlying transport read, write or clear failed.
    TransportIoFailed,
    /// The discard/test retry budget was exhausted without a matching reply.
    HandshakeFailed,
    /// A connection self-test reply did not match the expected ack/echo pair.
    TestMismatch,
    /// An integer-conversion self-test reply was not three times the sent value.
    IntConversionMismatch,
    /// A write-style operation was not acknowledged by the board.
    PortWriteFailed,
    /// A board-info reply was not terminated by the ack sentinel.
    BoardInfoMalformed,
    /// The firmware identity did not match the expected value.
    VersionIncompatible,
}

/// A driver failure: a category together with a descriptive message.
#[derive(Debug)]
pub struct Error {
    /// The category of the failure.
    pub kind: ErrorKind,
    /// A human-readable description of the failure.
    pub message: String,
}

impl Error {
    /// Wraps a transport-level fault, keeping its descriptive message.
    pub fn new(what: &str) -> (r: Error)
        ensures
            r.kind == ErrorKind::TransportIoFailed,
            r.message@ == what@,
    {
        Error { kind: ErrorKind::TransportIoFailed, message: what.to_owned() }
    }

    /// Builds an error of the given category.
    pub fn with_kind(kind: ErrorKind, what: &str) -> (r: Error)
        ensures
            r.kind == kind,
            r.message@ == what@,
    {
        Error { kind, message: what.to_owned() }
    }
}

} // verus!
