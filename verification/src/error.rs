//! The library's error type.
use vstd::prelude::*;

verus! {

/// `std::io::Error`, carried through opaquely in `UdxError::Io`.
#[verifier::external_type_specification]
#[verifier::external_body]
pub struct ExIoError(std::io::Error);

/// Errors of sockets, streams and packet parsing.
#[derive(Debug)]
pub enum UdxError {
    /// I/O error.
    Io(std::io::Error),
    /// Stream not connected.
    NotConnected,
    /// Stream closed.
    Closed,
    /// Invalid packet.
    InvalidPacket,
    /// Buffer too small.
    BufferTooSmall,
    /// Invalid state.
    InvalidState,
}

impl From<std::io::Error> for UdxError {
    /// Wraps an I/O error.
    fn from(e: std::io::Error) -> (r: Self) {
        UdxError::Io(e)
    }
}

impl vstd::std_specs::convert::FromSpecImpl<std::io::Error> for UdxError {
    open spec fn obeys_from_spec() -> bool {
        true
    }

    open spec fn from_spec(e: std::io::Error) -> UdxError {
        UdxError::Io(e)
    }
}

/// Results whose error is a `UdxError`.
pub type Result<T> = std::result::Result<T, UdxError>;

} // verus!
