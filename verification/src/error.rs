//! Failures of the serial transport and of a register read.

use vstd::prelude::*;

verus! {

/// The platform's classification of an I/O failure, carried through untouched.
#[verifier::external_type_specification]
#[verifier::external_body]
pub struct ExIoErrorKind(std::io::ErrorKind);

/// Why a bus operation or the opening of the port failed.
#[derive(Debug, PartialEq, Eq)]
pub enum Error {
    /// A register read did not complete within the time allowed for one request.
    Timeout,
    /// The named serial device does not exist.
    NoDevice(String),
    /// The device path or the port configuration is malformed.
    InvalidInput(String),
    /// A transport failure that fits no other class.
    Unknown(String),
    /// A lower-level I/O failure, tagged with the platform's classification.
    Io(std::io::ErrorKind),
}

/// The classes into which the serial transport sorts a failed open.
#[derive(Debug, PartialEq, Eq)]
pub enum OpenFailureKind {
    /// The device is missing.
    NoDevice,
    /// A parameter of the open was malformed.
    InvalidInput,
    /// The transport could not say more.
    Unknown,
    /// An I/O failure with the platform's classification.
    Io(std::io::ErrorKind),
}

/// A failed open as the serial transport reports it: a class and a
/// description for people.
#[derive(Debug, PartialEq, Eq)]
pub struct OpenFailure {
    pub kind: OpenFailureKind,
    pub description: String,
}

/// The error that a failed open becomes.
pub open spec fn open_error(kind: OpenFailureKind, description: Seq<char>, e: Error) -> bool {
    match kind {
        OpenFailureKind::NoDevice => e matches Error::NoDevice(d) && d@ == description,
        OpenFailureKind::InvalidInput => e matches Error::InvalidInput(d) && d@ == description,
        OpenFailureKind::Unknown => e matches Error::Unknown(d) && d@ == description,
        OpenFailureKind::Io(k) => e == Error::Io(k),
    }
}

impl Error {
    /// Classifies a failed open. Each class of the transport keeps its own
    /// variant, and the description travels with it; an I/O failure keeps
    /// only its classification.
    pub fn from_open_failure(failure: OpenFailure) -> (e: Error)
        ensures
            open_error(failure.kind, failure.description@, e),
            failure.kind is NoDevice <==> e is NoDevice,
            failure.kind is InvalidInput <==> e is InvalidInput,
            failure.kind is Unknown <==> e is Unknown,
            failure.kind is Io <==> e is Io,
            !(e is Timeout),
    {
        match failure.kind {
            OpenFailureKind::NoDevice => Error::NoDevice(failure.description),
            OpenFailureKind::InvalidInput => Error::InvalidInput(failure.description),
            OpenFailureKind::Unknown => Error::Unknown(failure.description),
            OpenFailureKind::Io(kind) => Error::Io(kind),
        }
    }
}

} // verus!
