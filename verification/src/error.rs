//! Errors that a client request can end with.
use vstd::prelude::*;
use vstd::std_specs::convert::FromSpecImpl;

use async_std::future::TimeoutError;
use dsf_core::prelude::DsfError as DaemonError;
use futures_codec::JsonCodecError as CodecError;
use std::io::{Error as IoError, ErrorKind as IoErrorKind};

verus! {

/// Why a client operation failed.
#[derive(Debug)]
pub enum Error {
    /// The daemon socket failed, with this kind of I/O error.
    Io(IoErrorKind),
    /// The JSON framing on the daemon socket failed.
    Codec(CodecError),
    /// The daemon reported an error.
    Remote(DaemonError),
    /// The response channel closed before any response arrived.
    NoResponse(()),
    /// The daemon answered with a response of another kind than the request asks for.
    UnrecognizedResult,
    /// No matching service was found.
    NoServiceFound,
    /// No matching page was found.
    NoPageFound,
    /// A response arrived for a request id that nobody waits for (or the error is not known).
    Unknown,
    /// No response arrived before the deadline.
    Timeout,
    /// The socket to the daemon could not be used.
    Socket,
}

/// Calls `std::io::Error::kind`. Nothing is claimed of the kind it returns:
/// `std::io::Error` is opaque here.
#[verifier::external_body]
fn io_error_kind(e: &IoError) -> IoErrorKind {
    e.kind()
}

impl From<IoError> for Error {
    /// An I/O error becomes `Error::Io` with its kind.
    fn from(e: IoError) -> (r: Self)
        ensures
            r is Io,
    {
        Error::Io(io_error_kind(&e))
    }
}

impl FromSpecImpl<IoError> for Error {
    /// The result is `Error::Io` (the `ensures` of `from` says so); its kind
    /// cannot be read here, as `std::io::Error` is opaque, so no whole value
    /// is promised through this specification.
    open spec fn obeys_from_spec() -> bool {
        false
    }

    open spec fn from_spec(e: IoError) -> Self {
        Error::Unknown
    }
}

impl From<CodecError> for Error {
    fn from(e: CodecError) -> (r: Self) {
        Error::Codec(e)
    }
}

impl FromSpecImpl<CodecError> for Error {
    open spec fn obeys_from_spec() -> bool {
        true
    }

    open spec fn from_spec(e: CodecError) -> Self {
        Error::Codec(e)
    }
}

impl From<DaemonError> for Error {
    fn from(e: DaemonError) -> (r: Self) {
        Error::Remote(e)
    }
}

impl FromSpecImpl<DaemonError> for Error {
    open spec fn obeys_from_spec() -> bool {
        true
    }

    open spec fn from_spec(e: DaemonError) -> Self {
        Error::Remote(e)
    }
}

impl From<TimeoutError> for Error {
    fn from(e: TimeoutError) -> (r: Self) {
        Error::Timeout
    }
}

impl FromSpecImpl<TimeoutError> for Error {
    open spec fn obeys_from_spec() -> bool {
        true
    }

    open spec fn from_spec(e: TimeoutError) -> Self {
        Error::Timeout
    }
}

impl From<()> for Error {
    fn from(e: ()) -> (r: Self) {
        Error::NoResponse(e)
    }
}

impl FromSpecImpl<()> for Error {
    open spec fn obeys_from_spec() -> bool {
        true
    }

    open spec fn from_spec(e: ()) -> Self {
        Error::NoResponse(e)
    }
}

} // verus!
