//! The box over XChaCha20-Poly1305.

use vstd::prelude::*;
use crate::aead::{trailing_tag, NONCE_SIZE, TAG_SIZE};
use crate::bytes::zeroed;
use crate::error::BoxError;
use crate::kdf::{agree, derive_chacha_key, chacha_box_key};
use crate::keys::{PublicKey, SecretKey, KEY_SIZE};
use crate::wipe::wipe;
use crate::xchacha;

verus! {

/// Public-key authenticated encryption with X25519 and XChaCha20-Poly1305.
///
/// A box is made once for a pair of parties and then seals and opens any
/// number of messages. It keeps no state between calls: keeping nonces
/// apart is the caller's part. Associated data is not encrypted, but a
/// message only opens with the associated data that it was sealed with.
///
/// The box holds the symmetric key that the cipher works with, and nothing
/// else of the two keys it was made from. The key is overwritten with zeros
/// when the box is dropped.
pub struct ChaChaBox {
    key: [u8; KEY_SIZE],
}

impl View for ChaChaBox {
    type V = Seq<u8>;

    /// The symmetric key of the box.
    closed spec fn view(&self) -> Seq<u8> {
        self.key@
    }
}

impl ChaChaBox {
    /// The key of a box has `KEY_SIZE` bytes.
    pub proof fn lemma_len(self)
        ensures
            self@.len() == KEY_SIZE,
    {
    }

    /// Makes the box of one party's secret key and the other party's public
    /// key. This is the one place where the shared secret is computed: it
    /// is expanded to the key of the box and erased.
    pub fn new(public_key: &PublicKey, secret_key: &SecretKey) -> (cipher: ChaChaBox)
        ensures
            cipher@ == chacha_box_key(secret_key@, public_key@),
    {
        let mut shared = agree(secret_key, public_key);
        let mut key = derive_chacha_key(&mut shared);
        ChaChaBox::from_key(&mut key)
    }

    /// Makes the box that works with `key`, and erases the caller's copy of
    /// the key.
    fn from_key(key: &mut [u8; KEY_SIZE]) -> (cipher: ChaChaBox)
        ensures
            cipher@ == old(key)@,
            final(key)@ == zeroed(KEY_SIZE as nat),
    {
        let cipher = ChaChaBox { key: *key };
        wipe(key);
        cipher
    }

    /// Seals `plaintext` and returns the boxed message: the ciphertext, then
    /// the tag. Fails where the plaintext is too long for the cipher.
    ///
    /// The plaintext and a tag must fit into one vector.
    pub fn encrypt(
        &self,
        nonce: &[u8; NONCE_SIZE],
        plaintext: &[u8],
        associated_data: &[u8],
    ) -> (outcome: Result<Vec<u8>, BoxError>)
        requires
            plaintext@.len() + TAG_SIZE <= isize::MAX,
        ensures
            match outcome {
                Ok(boxed) => xchacha::sealed(self@, nonce@, associated_data@, plaintext@) == Some(
                    boxed@,
                ),
                Err(_) => xchacha::sealed(self@, nonce@, associated_data@, plaintext@) is None,
            },
    {
        let mut buffer: Vec<u8> = Vec::with_capacity(plaintext.len() + TAG_SIZE);
        buffer.extend_from_slice(plaintext);
        assert(buffer@ =~= plaintext@);
        match self.encrypt_in_place(nonce, associated_data, &mut buffer) {
            Ok(()) => Ok(buffer),
            Err(e) => Err(e),
        }
    }

    /// Opens a boxed message and returns the plaintext. Fails, without
    /// saying why and without any plaintext, where the message is shorter
    /// than a tag or too long for the cipher, and where its tag is not the
    /// tag of `associated_data` and its ciphertext under this box and nonce.
    pub fn decrypt(
        &self,
        nonce: &[u8; NONCE_SIZE],
        ciphertext: &[u8],
        associated_data: &[u8],
    ) -> (outcome: Result<Vec<u8>, BoxError>)
        ensures
            match outcome {
                Ok(plaintext) => xchacha::opened(self@, nonce@, associated_data@, ciphertext@)
                    == Some(plaintext@),
                Err(_) => xchacha::opened(self@, nonce@, associated_data@, ciphertext@) is None,
            },
    {
        let mut buffer: Vec<u8> = Vec::with_capacity(ciphertext.len());
        buffer.extend_from_slice(ciphertext);
        assert(buffer@ =~= ciphertext@);
        match self.decrypt_in_place(nonce, associated_data, &mut buffer) {
            Ok(()) => Ok(buffer),
            Err(e) => Err(e),
        }
    }

    /// Seals the plaintext in `buffer` and leaves the boxed message there:
    /// the ciphertext in the place of the plaintext, and the tag behind it.
    /// Where it fails, the buffer is as it was. The vector must be able to
    /// grow by a tag.
    pub fn encrypt_in_place(
        &self,
        nonce: &[u8; NONCE_SIZE],
        associated_data: &[u8],
        buffer: &mut Vec<u8>,
    ) -> (outcome: Result<(), BoxError>)
        requires
            old(buffer)@.len() + TAG_SIZE <= isize::MAX,
        ensures
            match outcome {
                Ok(_) => xchacha::sealed(self@, nonce@, associated_data@, old(buffer)@) == Some(
                    final(buffer)@,
                ),
                Err(_) => xchacha::sealed(self@, nonce@, associated_data@, old(buffer)@) is None
                    && final(buffer)@ == old(buffer)@,
            },
    {
        let sealed = self.encrypt_in_place_detached(
            nonce,
            associated_data,
            buffer.as_mut_slice(),
        );
        match sealed {
            Ok(tag) => {
                let ghost ciphertext = buffer@;
                buffer.extend_from_slice(tag.as_slice());
                assert(buffer@ =~= ciphertext + tag@);
                Ok(())
            },
            Err(error) => Err(error),
        }
    }

    /// Opens the boxed message in `buffer` and leaves the plaintext there:
    /// the last `TAG_SIZE` bytes are taken as the tag of what stands before
    /// them, and cut off. Where it fails, the buffer is as it was.
    pub fn decrypt_in_place(
        &self,
        nonce: &[u8; NONCE_SIZE],
        associated_data: &[u8],
        buffer: &mut Vec<u8>,
    ) -> (outcome: Result<(), BoxError>)
        ensures
            match outcome {
                Ok(_) => xchacha::opened(self@, nonce@, associated_data@, old(buffer)@) == Some(
                    final(buffer)@,
                ),
                Err(_) => xchacha::opened(self@, nonce@, associated_data@, old(buffer)@) is None
                    && final(buffer)@ == old(buffer)@,
            },
    {
        if buffer.len() < TAG_SIZE {
            return Err(BoxError);
        }
        let tag = trailing_tag(buffer);
        let tag_start = buffer.len() - TAG_SIZE;
        let (ciphertext, _) = buffer.as_mut_slice().split_at_mut(tag_start);
        let opened = self.decrypt_in_place_detached(nonce, associated_data, ciphertext, &tag);
        match opened {
            Ok(()) => {
                buffer.truncate(tag_start);
                Ok(())
            },
            Err(error) => Err(error),
        }
    }

    /// Replaces the plaintext in `buffer` by its ciphertext and returns the
    /// tag. Where it fails, the buffer is as it was.
    pub fn encrypt_in_place_detached(
        &self,
        nonce: &[u8; NONCE_SIZE],
        associated_data: &[u8],
        buffer: &mut [u8],
    ) -> (outcome: Result<[u8; TAG_SIZE], BoxError>)
        ensures
            match outcome {
                Ok(tag) => xchacha::sealed_detached(self@, nonce@, associated_data@, old(buffer)@)
                    == Some((final(buffer)@, tag@)),
                Err(_) => xchacha::sealed_detached(self@, nonce@, associated_data@, old(buffer)@) is None
                    && final(buffer)@ == old(buffer)@,
            },
    {
        match xchacha::encrypt_in_place_detached(&self.key, nonce, associated_data, buffer) {
            Ok(tag) => Ok(tag),
            Err(_) => Err(BoxError),
        }
    }

    /// Replaces the ciphertext in `buffer` by its plaintext, if `tag` is the
    /// tag of `associated_data` and the ciphertext. Where it fails, the
    /// buffer is as it was.
    pub fn decrypt_in_place_detached(
        &self,
        nonce: &[u8; NONCE_SIZE],
        associated_data: &[u8],
        buffer: &mut [u8],
        tag: &[u8; TAG_SIZE],
    ) -> (outcome: Result<(), BoxError>)
        ensures
            match outcome {
                Ok(_) => xchacha::opened_detached(
                    self@,
                    nonce@,
                    associated_data@,
                    old(buffer)@,
                    tag@,
                ) == Some(final(buffer)@),
                Err(_) => xchacha::opened_detached(
                    self@,
                    nonce@,
                    associated_data@,
                    old(buffer)@,
                    tag@,
                ) is None && final(buffer)@ == old(buffer)@,
            },
    {
        match xchacha::decrypt_in_place_detached(&self.key, nonce, associated_data, buffer, tag) {
            Ok(()) => Ok(()),
            Err(_) => Err(BoxError),
        }
    }
}

impl Clone for ChaChaBox {
    fn clone(&self) -> (copy: ChaChaBox)
        ensures
            copy@ == self@,
    {
        ChaChaBox { key: self.key }
    }
}

/// Dropping a box erases its key.
impl Drop for ChaChaBox {
    fn drop(&mut self)
        ensures
            final(self)@ == zeroed(KEY_SIZE as nat),
        opens_invariants none
        no_unwind
    {
        wipe(&mut self.key);
    }
}

} // verus!
