//! Drawing keys and nonces from a caller's random number generator.

use vstd::prelude::*;
use rand_core::{CryptoRng, RngCore};
use crate::aead::NONCE_SIZE;

verus! {

/// The error with which a random number generator reports that it could not
/// deliver.
#[verifier::external_type_specification]
#[verifier::external_body]
pub struct ExRngError(rand_core::Error);

/// Calls `rand_core::RngCore::try_fill_bytes` on the whole array. Nothing is
/// claimed of the bytes that come back, nor of when the generator fails.
#[verifier::external_body]
pub(crate) fn try_fill<T: RngCore + CryptoRng, const N: usize>(
    csprng: &mut T,
    dest: &mut [u8; N],
) -> (filled: Result<(), rand_core::Error>) {
    csprng.try_fill_bytes(dest)
}

/// What a draw yields once the generator has answered: the bytes where it
/// delivered them, its error where it did not.
pub fn drawn<const N: usize>(
    bytes: [u8; N],
    delivered: Result<(), rand_core::Error>,
) -> (outcome: Result<[u8; N], rand_core::Error>)
    ensures
        match delivered {
            Ok(_) => outcome matches Ok(same) && same == bytes,
            Err(error) => outcome matches Err(same) && same == error,
        },
{
    match delivered {
        Ok(()) => Ok(bytes),
        Err(error) => Err(error),
    }
}

/// Draws a nonce from `csprng`. The generator's own error is handed on as it
/// is; nothing is tried twice.
///
/// A nonce must never be used for two messages under one box. With 24
/// random bytes a repetition is not to be expected.
pub fn generate_nonce<T: RngCore + CryptoRng>(
    csprng: &mut T,
) -> (nonce: Result<[u8; NONCE_SIZE], rand_core::Error>)
    ensures
        nonce matches Ok(bytes) ==> bytes@.len() == NONCE_SIZE,
{
    let mut bytes = [0u8; NONCE_SIZE];
    let delivered = try_fill(csprng, &mut bytes);
    drawn(bytes, delivered)
}

} // verus!
