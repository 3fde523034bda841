use vstd::prelude::*;

verus! {

/// Every way a buffer can be rejected. Each failure is terminal for the
/// call that produced it: there is no retry and no partial result.
#[derive(Clone, Copy, Debug, PartialEq, Eq, Structural)]
pub enum ParseError {
    /// A fixed-size read ran past the end of the buffer.
    Truncated,
    /// The first four bytes are not the `Cr24` magic literal.
    BadMagic,
    /// The version field is outside the two supported layouts.
    UnsupportedVersion { version: u32 },
    /// The buffer is shorter than the version's minimum viable header.
    TooSmall { version: u32, actual: usize, required: usize },
    /// The bytes at the computed payload offset do not begin with the
    /// ZIP local-file-header marker `PK`.
    BadPayloadSignature,
    /// A version-2 descriptor carries an empty public key.
    EmptyPublicKey,
    /// A version-2 descriptor carries an empty signature.
    EmptySignature,
    /// A version-3 descriptor carries a non-empty public key.
    UnexpectedPublicKey,
    /// A version-3 descriptor carries a non-empty signature.
    UnexpectedSignature,
    /// The payload offset is below the version's minimum header size.
    OffsetTooSmall { offset: usize, minimum: usize },
    /// The payload offset points past the end of the buffer.
    OffsetOutOfRange,
}

} // verus!
