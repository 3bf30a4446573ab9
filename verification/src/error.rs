//! The failures that the library reports.

use vstd::prelude::*;

verus! {

/// Sealing or opening failed.
///
/// The value carries no detail on purpose: a caller cannot tell a forged tag
/// from a truncated message or from associated data that the cipher does not
/// take.
#[derive(Clone, Copy, Debug, PartialEq, Eq, Structural)]
pub struct BoxError;

/// A public key was to be made from a byte string that is not
/// [`KEY_SIZE`](crate::keys::KEY_SIZE) bytes long.
#[derive(Clone, Copy, Debug, PartialEq, Eq, Structural)]
pub struct InvalidLength {
    /// The length that was presented.
    pub len: usize,
}

/// The opaque failure value of the `aead` crate, which the ciphers return.
#[verifier::external_type_specification]
#[verifier::external_body]
pub struct ExAeadError(xsalsa20poly1305::aead::Error);

} // verus!
