use vstd::prelude::*;

verus! {

/// The error kinds surfaced by the protocol core.
///
/// Decode and validation errors are returned directly to the caller.
/// `ProtocolMismatch`, `Timeout` and `ConnectionError` additionally
/// invalidate the connection they occurred on (see the client module).
#[derive(Clone, Copy, PartialEq, Eq, Structural, Debug)]
pub enum WireError {
    /// Malformed or truncated bytes, or a size mismatch against a
    /// declared length.
    DecodeError,
    /// Malformed textual identity.
    InvalidIdentity,
    /// A fixed text buffer was given more bytes than it can hold.
    LengthError { expected: usize, found: usize },
    /// A fixed text buffer was given non-ASCII input.
    EncodingError,
    /// Unknown message tag, or disagreement between an envelope's declared
    /// length and the resolved record's size.
    ProtocolMismatch,
    /// No response arrived within the bounded window.
    Timeout,
    /// I/O failure establishing or using the stream.
    ConnectionError,
    /// Surfaced from the delegated signer.
    SigningError,
    /// Surfaced from the delegated verifier.
    VerificationError,
}

} // verus!
