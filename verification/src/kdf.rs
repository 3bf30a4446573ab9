//! From a key pair to the symmetric key of a box: agreement, then expansion.
//!
//! The raw X25519 output is not uniform over all 256-bit strings, so it is
//! not used as a cipher key itself. It is run through the expansion function
//! that belongs to the cipher (HSalsa20 or HChaCha20) with an all-zero
//! 16-byte input; that input is fixed, no caller chooses it.

use vstd::prelude::*;
use crate::bytes::zeroed;
use crate::curve::{shared_secret, x25519};
use crate::keys::{PublicKey, SecretKey, KEY_SIZE};
use crate::wipe::wipe;

verus! {

/// Size in bytes of the second input of the two expansion functions.
pub const EXPAND_INPUT_SIZE: usize = 16;

/// The result of HSalsa20 on a 32-byte key and a 16-byte input.
pub uninterp spec fn hsalsa20_spec(key: Seq<u8>, input: Seq<u8>) -> [u8; 32];

/// The result of HChaCha20 on a 32-byte key and a 16-byte input.
pub uninterp spec fn hchacha20_spec(key: Seq<u8>, input: Seq<u8>) -> [u8; 32];

/// The key that a [`SalsaBox`](crate::SalsaBox) holds for a secret key and a
/// peer's public key.
pub open spec fn salsa_box_key(secret: Seq<u8>, public: Seq<u8>) -> Seq<u8> {
    hsalsa20_spec(shared_secret(secret, public), zeroed(EXPAND_INPUT_SIZE as nat))@
}

/// The key that a [`ChaChaBox`](crate::ChaChaBox) holds for a secret key and
/// a peer's public key.
pub open spec fn chacha_box_key(secret: Seq<u8>, public: Seq<u8>) -> Seq<u8> {
    hchacha20_spec(shared_secret(secret, public), zeroed(EXPAND_INPUT_SIZE as nat))@
}

/// Calls `salsa20::hsalsa20`, which sets up the Salsa20 state from its
/// constants, the key and the input, runs the 20 rounds and returns eight
/// words of the state. The contract gives the result its name.
#[verifier::external_body]
pub(crate) fn hsalsa20(key: &[u8; KEY_SIZE], input: &[u8; EXPAND_INPUT_SIZE]) -> (subkey: [u8; KEY_SIZE])
    ensures
        subkey == hsalsa20_spec(key@, input@),
{
    salsa20::hsalsa20(key.into(), input.into()).into()
}

/// Calls `chacha20::hchacha` with 20 rounds, the counterpart of HSalsa20 on
/// the ChaCha state. The contract gives the result its name.
#[verifier::external_body]
pub(crate) fn hchacha20(key: &[u8; KEY_SIZE], input: &[u8; EXPAND_INPUT_SIZE]) -> (subkey: [u8; KEY_SIZE])
    ensures
        subkey == hchacha20_spec(key@, input@),
{
    chacha20::hchacha::<chacha20::R20>(key.into(), input.into()).into()
}

/// The X25519 agreement of a secret key with a peer's public key. The value
/// is as secret as the key: the caller erases it after use.
pub(crate) fn agree(secret_key: &SecretKey, public_key: &PublicKey) -> (shared: [u8; KEY_SIZE])
    ensures
        shared@ == shared_secret(secret_key@, public_key@),
{
    x25519(*secret_key.as_bytes(), *public_key.as_bytes())
}

/// Expands a shared secret to the key of a [`SalsaBox`](crate::SalsaBox) and
/// erases the shared secret.
pub(crate) fn derive_salsa_key(shared: &mut [u8; KEY_SIZE]) -> (key: [u8; KEY_SIZE])
    ensures
        key == hsalsa20_spec(old(shared)@, zeroed(EXPAND_INPUT_SIZE as nat)),
        final(shared)@ == zeroed(KEY_SIZE as nat),
{
    let input = [0u8; EXPAND_INPUT_SIZE];
    assert(input@ =~= zeroed(EXPAND_INPUT_SIZE as nat));
    let key = hsalsa20(shared, &input);
    wipe(shared);
    key
}

/// Expands a shared secret to the key of a [`ChaChaBox`](crate::ChaChaBox)
/// and erases the shared secret.
pub(crate) fn derive_chacha_key(shared: &mut [u8; KEY_SIZE]) -> (key: [u8; KEY_SIZE])
    ensures
        key == hchacha20_spec(old(shared)@, zeroed(EXPAND_INPUT_SIZE as nat)),
        final(shared)@ == zeroed(KEY_SIZE as nat),
{
    let input = [0u8; EXPAND_INPUT_SIZE];
    assert(input@ =~= zeroed(EXPAND_INPUT_SIZE as nat));
    let key = hchacha20(shared, &input);
    wipe(shared);
    key
}

} // verus!
