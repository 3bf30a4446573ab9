//! XChaCha20-Poly1305 as the library sees it.
//!
//! The cipher lays the XChaCha20 keystream over the message and takes a
//! Poly1305 tag of the associated data and the ciphertext. In the boxed
//! form the tag stands behind the ciphertext. A message of `MAX_BLOCKS`
//! blocks or more is refused: the block counter would not hold it.
//!
//! The keystream and the tag are computed by the `chacha20poly1305` crate
//! and appear here under their names. How sealing and opening put them
//! together is written out below; the two functions at the end of this file
//! claim that the crate does the same.

use vstd::prelude::*;
use chacha20poly1305::aead::{AeadInPlace, NewAead};
use chacha20poly1305::XChaCha20Poly1305;
use crate::aead::{NONCE_SIZE, TAG_SIZE};
use crate::bytes::xor_bytes;
use crate::keys::KEY_SIZE;

verus! {

/// Size of a block of keystream in bytes.
pub const BLOCK_SIZE: usize = 64;

/// The number of blocks at which a message is too long.
pub const MAX_BLOCKS: u32 = 0xffff_ffff;

/// The `len` bytes of XChaCha20 keystream that the cipher lays over a
/// message of that length under a key and a nonce. (They start at the
/// second block; the first keys the authenticator.)
pub uninterp spec fn xchacha20_keystream(key: Seq<u8>, nonce: Seq<u8>, len: nat) -> Seq<u8>;

/// The Poly1305 tag that the cipher computes of associated data and a
/// ciphertext under a key and a nonce.
pub uninterp spec fn xchacha20_poly1305_tag(
    key: Seq<u8>,
    nonce: Seq<u8>,
    associated_data: Seq<u8>,
    ciphertext: Seq<u8>,
) -> [u8; 16];

/// A message of `len` bytes is short enough for the cipher.
pub open spec fn fits(len: nat) -> bool {
    len / (BLOCK_SIZE as nat) < MAX_BLOCKS
}

/// `data` with the keystream laid over it: the ciphertext of a plaintext,
/// and the plaintext of a ciphertext.
pub open spec fn apply_keystream(key: Seq<u8>, nonce: Seq<u8>, data: Seq<u8>) -> Seq<u8> {
    xor_bytes(data, xchacha20_keystream(key, nonce, data.len()))
}

/// Ciphertext and tag of a plaintext, or `None` where sealing fails: with a
/// plaintext that is too long.
pub open spec fn sealed_detached(
    key: Seq<u8>,
    nonce: Seq<u8>,
    associated_data: Seq<u8>,
    plaintext: Seq<u8>,
) -> Option<(Seq<u8>, Seq<u8>)> {
    if fits(plaintext.len()) {
        let ciphertext = apply_keystream(key, nonce, plaintext);
        Some((ciphertext, xchacha20_poly1305_tag(key, nonce, associated_data, ciphertext)@))
    } else {
        None
    }
}

/// The plaintext of a ciphertext that comes with its tag, or `None` where
/// opening fails: with a ciphertext that is too long, or with a tag that is
/// not the tag of the associated data and the ciphertext.
pub open spec fn opened_detached(
    key: Seq<u8>,
    nonce: Seq<u8>,
    associated_data: Seq<u8>,
    ciphertext: Seq<u8>,
    tag: Seq<u8>,
) -> Option<Seq<u8>> {
    if fits(ciphertext.len()) && tag == xchacha20_poly1305_tag(
        key,
        nonce,
        associated_data,
        ciphertext,
    )@ {
        Some(apply_keystream(key, nonce, ciphertext))
    } else {
        None
    }
}

/// The boxed form of a plaintext: the ciphertext, then the tag.
pub open spec fn sealed(
    key: Seq<u8>,
    nonce: Seq<u8>,
    associated_data: Seq<u8>,
    plaintext: Seq<u8>,
) -> Option<Seq<u8>> {
    match sealed_detached(key, nonce, associated_data, plaintext) {
        Some((ciphertext, tag)) => Some(ciphertext + tag),
        None => None,
    }
}

/// The plaintext of a boxed message. What is shorter than a tag holds no
/// message.
pub open spec fn opened(
    key: Seq<u8>,
    nonce: Seq<u8>,
    associated_data: Seq<u8>,
    boxed: Seq<u8>,
) -> Option<Seq<u8>> {
    if boxed.len() < TAG_SIZE {
        None
    } else {
        opened_detached(
            key,
            nonce,
            associated_data,
            boxed.take(boxed.len() - TAG_SIZE),
            boxed.skip(boxed.len() - TAG_SIZE),
        )
    }
}

/// Makes an `XChaCha20Poly1305` of the key with `NewAead::new`, which stores
/// the key, and calls its `AeadInPlace::encrypt_in_place_detached`.
///
/// The contract claims what the crate's source shows: the call fails on a
/// buffer of `MAX_BLOCKS` blocks or more and then leaves it as it was; else
/// it lays the keystream over the buffer and returns the tag of the
/// associated data and the result.
#[verifier::external_body]
pub(crate) fn encrypt_in_place_detached(
    key: &[u8; KEY_SIZE],
    nonce: &[u8; NONCE_SIZE],
    associated_data: &[u8],
    buffer: &mut [u8],
) -> (outcome: Result<[u8; TAG_SIZE], chacha20poly1305::aead::Error>)
    ensures
        match outcome {
            Ok(tag) => {
                &&& fits(old(buffer)@.len())
                &&& final(buffer)@ == xor_bytes(
                    old(buffer)@,
                    xchacha20_keystream(key@, nonce@, old(buffer)@.len()),
                )
                &&& tag == xchacha20_poly1305_tag(key@, nonce@, associated_data@, final(buffer)@)
            },
            Err(_) => !fits(old(buffer)@.len()) && final(buffer)@ == old(buffer)@,
        },
{
    let cipher = XChaCha20Poly1305::new(key.into());
    match cipher.encrypt_in_place_detached(nonce.into(), associated_data, buffer) {
        Ok(tag) => Ok(tag.into()),
        Err(e) => Err(e),
    }
}

/// Makes an `XChaCha20Poly1305` of the key with `NewAead::new` and calls its
/// `AeadInPlace::decrypt_in_place_detached`.
///
/// The contract claims what the crate's source shows: the call fails on a
/// buffer of `MAX_BLOCKS` blocks or more; else it computes the tag of the
/// associated data and the buffer and compares it with the one given, and
/// only where they are equal it lays the keystream over the buffer. Where
/// it fails, the buffer is as it was.
#[verifier::external_body]
pub(crate) fn decrypt_in_place_detached(
    key: &[u8; KEY_SIZE],
    nonce: &[u8; NONCE_SIZE],
    associated_data: &[u8],
    buffer: &mut [u8],
    tag: &[u8; TAG_SIZE],
) -> (outcome: Result<(), chacha20poly1305::aead::Error>)
    ensures
        match outcome {
            Ok(_) => {
                &&& fits(old(buffer)@.len())
                &&& tag@ == xchacha20_poly1305_tag(key@, nonce@, associated_data@, old(buffer)@)@
                &&& final(buffer)@ == xor_bytes(
                    old(buffer)@,
                    xchacha20_keystream(key@, nonce@, old(buffer)@.len()),
                )
            },
            Err(_) => {
                &&& !fits(old(buffer)@.len()) || tag@ != xchacha20_poly1305_tag(
                    key@,
                    nonce@,
                    associated_data@,
                    old(buffer)@,
                )@
                &&& final(buffer)@ == old(buffer)@
            },
        },
{
    let cipher = XChaCha20Poly1305::new(key.into());
    cipher.decrypt_in_place_detached(nonce.into(), associated_data, buffer, tag.into())
}

} // verus!
