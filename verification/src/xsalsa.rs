//! XSalsa20-Poly1305, the NaCl `crypto_secretbox` cipher, as the library
//! sees it.
//!
//! The cipher lays the XSalsa20 keystream over the message and takes a
//! Poly1305 tag of the ciphertext. It takes no associated data: with any,
//! every operation fails.
//!
//! In the boxed form the tag stands behind the ciphertext, as it does for
//! XChaCha20-Poly1305. NaCl's own packets carry the tag in front; who needs
//! those takes ciphertext and tag apart, in the detached form.
//!
//! The keystream and the tag are computed by the `xsalsa20poly1305` crate
//! and appear here under their names. How sealing and opening put them
//! together is written out below; the two functions at the end of this file
//! claim that the crate does the same.

use vstd::prelude::*;
use xsalsa20poly1305::aead::{AeadInPlace, NewAead};
use xsalsa20poly1305::XSalsa20Poly1305;
use crate::aead::{NONCE_SIZE, TAG_SIZE};
use crate::bytes::xor_bytes;
use crate::keys::KEY_SIZE;

verus! {

/// The `len` bytes of XSalsa20 keystream that the cipher lays over a message
/// of that length under a key and a nonce. (They follow the 32 bytes of the
/// stream that key the authenticator.)
pub uninterp spec fn xsalsa20_keystream(key: Seq<u8>, nonce: Seq<u8>, len: nat) -> Seq<u8>;

/// The Poly1305 tag that the cipher computes of a ciphertext under a key and
/// a nonce.
pub uninterp spec fn xsalsa20_poly1305_tag(key: Seq<u8>, nonce: Seq<u8>, ciphertext: Seq<u8>) -> [u8; 16];

/// `data` with the keystream laid over it: the ciphertext of a plaintext,
/// and the plaintext of a ciphertext.
pub open spec fn apply_keystream(key: Seq<u8>, nonce: Seq<u8>, data: Seq<u8>) -> Seq<u8> {
    xor_bytes(data, xsalsa20_keystream(key, nonce, data.len()))
}

/// Ciphertext and tag of a plaintext, or `None` where sealing fails: with
/// associated data that is not empty.
pub open spec fn sealed_detached(
    key: Seq<u8>,
    nonce: Seq<u8>,
    associated_data: Seq<u8>,
    plaintext: Seq<u8>,
) -> Option<(Seq<u8>, Seq<u8>)> {
    if associated_data.len() == 0 {
        let ciphertext = apply_keystream(key, nonce, plaintext);
        Some((ciphertext, xsalsa20_poly1305_tag(key, nonce, ciphertext)@))
    } else {
        None
    }
}

/// The plaintext of a ciphertext that comes with its tag, or `None` where
/// opening fails: with associated data that is not empty, or with a tag that
/// is not the tag of the ciphertext.
pub open spec fn opened_detached(
    key: Seq<u8>,
    nonce: Seq<u8>,
    associated_data: Seq<u8>,
    ciphertext: Seq<u8>,
    tag: Seq<u8>,
) -> Option<Seq<u8>> {
    if associated_data.len() == 0 && tag == xsalsa20_poly1305_tag(key, nonce, ciphertext)@ {
        Some(apply_keystream(key, nonce, ciphertext))
    } else {
        None
    }
}

/// The boxed form of a plaintext: the ciphertext, then the tag.
pub open spec fn sealed(
    key: Seq<u8>,
    nonce: Seq<u8>,
    associated_data: Seq<u8>,
    plaintext: Seq<u8>,
) -> Option<Seq<u8>> {
    match sealed_detached(key, nonce, associated_data, plaintext) {
        Some((ciphertext, tag)) => Some(ciphertext + tag),
        None => None,
    }
}

/// The plaintext of a boxed message. What is shorter than a tag holds no
/// message.
pub open spec fn opened(
    key: Seq<u8>,
    nonce: Seq<u8>,
    associated_data: Seq<u8>,
    boxed: Seq<u8>,
) -> Option<Seq<u8>> {
    if boxed.len() < TAG_SIZE {
        None
    } else {
        opened_detached(
            key,
            nonce,
            associated_data,
            boxed.take(boxed.len() - TAG_SIZE),
            boxed.skip(boxed.len() - TAG_SIZE),
        )
    }
}

/// Makes an `XSalsa20Poly1305` of the key with `NewAead::new`, which stores
/// the key, and calls its `AeadInPlace::encrypt_in_place_detached`.
///
/// The contract claims what the crate's source shows: the call fails on
/// associated data that is not empty and then leaves the buffer as it was;
/// else it lays the keystream over the buffer and returns the tag of the
/// result.
#[verifier::external_body]
pub(crate) fn encrypt_in_place_detached(
    key: &[u8; KEY_SIZE],
    nonce: &[u8; NONCE_SIZE],
    associated_data: &[u8],
    buffer: &mut [u8],
) -> (outcome: Result<[u8; TAG_SIZE], xsalsa20poly1305::aead::Error>)
    ensures
        match outcome {
            Ok(tag) => {
                &&& associated_data@.len() == 0
                &&& final(buffer)@ == xor_bytes(
                    old(buffer)@,
                    xsalsa20_keystream(key@, nonce@, old(buffer)@.len()),
                )
                &&& tag == xsalsa20_poly1305_tag(key@, nonce@, final(buffer)@)
            },
            Err(_) => associated_data@.len() != 0 && final(buffer)@ == old(buffer)@,
        },
{
    let cipher = XSalsa20Poly1305::new(key.into());
    match cipher.encrypt_in_place_detached(nonce.into(), associated_data, buffer) {
        Ok(tag) => Ok(tag.into()),
        Err(e) => Err(e),
    }
}

/// Makes an `XSalsa20Poly1305` of the key with `NewAead::new` and calls its
/// `AeadInPlace::decrypt_in_place_detached`.
///
/// The contract claims what the crate's source shows: the call computes the
/// tag of the buffer and compares it with the one given; only where they are
/// equal, and no associated data is given, it lays the keystream over the
/// buffer. Where it fails, the buffer is as it was.
#[verifier::external_body]
pub(crate) fn decrypt_in_place_detached(
    key: &[u8; KEY_SIZE],
    nonce: &[u8; NONCE_SIZE],
    associated_data: &[u8],
    buffer: &mut [u8],
    tag: &[u8; TAG_SIZE],
) -> (outcome: Result<(), xsalsa20poly1305::aead::Error>)
    ensures
        match outcome {
            Ok(_) => {
                &&& associated_data@.len() == 0
                &&& tag@ == xsalsa20_poly1305_tag(key@, nonce@, old(buffer)@)@
                &&& final(buffer)@ == xor_bytes(
                    old(buffer)@,
                    xsalsa20_keystream(key@, nonce@, old(buffer)@.len()),
                )
            },
            Err(_) => {
                &&& associated_data@.len() != 0 || tag@ != xsalsa20_poly1305_tag(
                    key@,
                    nonce@,
                    old(buffer)@,
                )@
                &&& final(buffer)@ == old(buffer)@
            },
        },
{
    let cipher = XSalsa20Poly1305::new(key.into());
    cipher.decrypt_in_place_detached(nonce.into(), associated_data, buffer, tag.into())
}

} // verus!
