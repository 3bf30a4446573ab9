//! Secret and public keys.

use vstd::prelude::*;
use vstd::std_specs::cmp::PartialEqSpecImpl;
use vstd::std_specs::convert::FromSpecImpl;
use rand_core::{CryptoRng, RngCore};
use crate::bytes::zeroed;
use crate::curve::{basepoint, basepoint_bytes, is_key_pair, x25519, x25519_spec};
use crate::error::InvalidLength;
use crate::random::{drawn, try_fill};
use crate::wipe::wipe;

verus! {

/// Size of a public or secret key in bytes.
pub const KEY_SIZE: usize = 32;

/// A secret key: 32 bytes that are taken as an X25519 scalar.
///
/// Any 32 bytes make a key; the curve function clamps the scalar itself.
/// The bytes are overwritten with zeros when the value is dropped. A copy is
/// only made where the caller asks for one, with `clone` or `to_bytes`, and
/// each copy that leaves this type is the caller's to erase.
pub struct SecretKey([u8; KEY_SIZE]);

impl View for SecretKey {
    type V = Seq<u8>;

    closed spec fn view(&self) -> Seq<u8> {
        self.0@
    }
}

impl SecretKey {
    /// A key has `KEY_SIZE` bytes.
    pub proof fn lemma_len(self)
        ensures
            self@.len() == KEY_SIZE,
    {
    }

    /// Draws a secret key from `csprng`. Fails only when the generator
    /// does, with the generator's own error.
    pub fn generate<T: RngCore + CryptoRng>(
        csprng: &mut T,
    ) -> (key: Result<SecretKey, rand_core::Error>)
        ensures
            key matches Ok(secret) ==> secret@.len() == KEY_SIZE,
    {
        let mut bytes = [0u8; KEY_SIZE];
        let delivered = try_fill(csprng, &mut bytes);
        SecretKey::from_drawn(bytes, delivered)
    }

    /// What a draw makes of its bytes once the generator has answered: the
    /// key that holds them where it delivered them, its error where it did
    /// not.
    pub fn from_drawn(
        bytes: [u8; KEY_SIZE],
        delivered: Result<(), rand_core::Error>,
    ) -> (key: Result<SecretKey, rand_core::Error>)
        ensures
            match delivered {
                Ok(_) => key matches Ok(secret) && secret@ == bytes@,
                Err(error) => key matches Err(same) && same == error,
            },
    {
        match drawn(bytes, delivered) {
            Ok(bytes) => Ok(SecretKey(bytes)),
            Err(error) => Err(error),
        }
    }

    /// The public key that belongs to this secret key: the base point
    /// multiplied by it.
    pub fn public_key(&self) -> (public: PublicKey)
        ensures
            is_key_pair(self@, public@),
    {
        PublicKey(x25519(self.0, basepoint_bytes()))
    }

    /// A copy of the key's bytes. Prefer [`SecretKey::as_bytes`], which
    /// makes none.
    pub fn to_bytes(&self) -> (bytes: [u8; KEY_SIZE])
        ensures
            bytes@ == self@,
    {
        self.0
    }

    /// The key's bytes.
    pub fn as_bytes(&self) -> (bytes: &[u8; KEY_SIZE])
        ensures
            bytes@ == self@,
    {
        &self.0
    }

    /// Overwrites the key with zeros. Dropping a key does this, and nothing
    /// else.
    pub fn zeroize(&mut self)
        ensures
            final(self)@ == zeroed(KEY_SIZE as nat),
        opens_invariants none
        no_unwind
    {
        wipe(&mut self.0);
    }
}

impl From<[u8; KEY_SIZE]> for SecretKey {
    fn from(bytes: [u8; KEY_SIZE]) -> (key: SecretKey)
        ensures
            key@ == bytes@,
    {
        SecretKey(bytes)
    }
}

impl FromSpecImpl<[u8; KEY_SIZE]> for SecretKey {
    open spec fn obeys_from_spec() -> bool {
        true
    }

    closed spec fn from_spec(bytes: [u8; KEY_SIZE]) -> SecretKey {
        SecretKey(bytes)
    }
}

impl Clone for SecretKey {
    fn clone(&self) -> (copy: SecretKey)
        ensures
            copy@ == self@,
    {
        SecretKey(self.0)
    }
}

/// Dropping a secret key erases it, as [`SecretKey::zeroize`] does.
impl Drop for SecretKey {
    fn drop(&mut self)
        ensures
            final(self)@ == zeroed(KEY_SIZE as nat),
        opens_invariants none
        no_unwind
    {
        self.zeroize();
    }
}

/// A public key: 32 bytes that are taken as the u-coordinate of a point.
///
/// It is not secret. Any 32 bytes make a key, one received from a peer
/// included; the curve function deals with points that are on no curve.
#[derive(Debug, Eq, Hash)]
pub struct PublicKey([u8; KEY_SIZE]);

impl View for PublicKey {
    type V = Seq<u8>;

    closed spec fn view(&self) -> Seq<u8> {
        self.0@
    }
}

impl PublicKey {
    /// A key has `KEY_SIZE` bytes.
    pub proof fn lemma_len(self)
        ensures
            self@.len() == KEY_SIZE,
    {
    }

    /// The key's bytes.
    pub fn as_bytes(&self) -> (bytes: &[u8; KEY_SIZE])
        ensures
            bytes@ == self@,
    {
        &self.0
    }

    /// Makes a key from a byte string of any length, and refuses every
    /// length but `KEY_SIZE`. This is the check that a key read from a wire
    /// format has to pass.
    pub fn from_slice(bytes: &[u8]) -> (key: Result<PublicKey, InvalidLength>)
        ensures
            match key {
                Ok(public) => bytes@.len() == KEY_SIZE && public@ == bytes@,
                Err(e) => bytes@.len() != KEY_SIZE && e.len == bytes@.len(),
            },
    {
        if bytes.len() != KEY_SIZE {
            return Err(InvalidLength { len: bytes.len() });
        }
        let mut array = [0u8; KEY_SIZE];
        let mut i: usize = 0;
        while i < KEY_SIZE
            invariant
                i <= KEY_SIZE,
                bytes@.len() == KEY_SIZE,
                forall|j: int| 0 <= j < i ==> array@[j] == bytes@[j],
            decreases KEY_SIZE - i,
        {
            array[i] = bytes[i];
            i += 1;
        }
        assert(array@ =~= bytes@);
        Ok(PublicKey(array))
    }
}

impl AsRef<[u8]> for PublicKey {
    fn as_ref(&self) -> (bytes: &[u8])
        ensures
            bytes@ == self@,
    {
        self.0.as_slice()
    }
}

impl From<&SecretKey> for PublicKey {
    fn from(secret_key: &SecretKey) -> (public: PublicKey)
        ensures
            is_key_pair(secret_key@, public@),
    {
        PublicKey(x25519(secret_key.0, basepoint_bytes()))
    }
}

impl FromSpecImpl<&SecretKey> for PublicKey {
    open spec fn obeys_from_spec() -> bool {
        true
    }

    closed spec fn from_spec(secret_key: &SecretKey) -> PublicKey {
        PublicKey(x25519_spec(secret_key@, basepoint()))
    }
}

impl From<[u8; KEY_SIZE]> for PublicKey {
    fn from(bytes: [u8; KEY_SIZE]) -> (key: PublicKey)
        ensures
            key@ == bytes@,
    {
        PublicKey(bytes)
    }
}

impl FromSpecImpl<[u8; KEY_SIZE]> for PublicKey {
    open spec fn obeys_from_spec() -> bool {
        true
    }

    closed spec fn from_spec(bytes: [u8; KEY_SIZE]) -> PublicKey {
        PublicKey(bytes)
    }
}

impl Clone for PublicKey {
    fn clone(&self) -> (copy: PublicKey)
        ensures
            copy == *self,
    {
        PublicKey(self.0)
    }
}

impl PartialEq for PublicKey {
    fn eq(&self, other: &PublicKey) -> (equal: bool)
        ensures
            equal <==> self@ == other@,
    {
        let mut i: usize = 0;
        while i < KEY_SIZE
            invariant
                i <= KEY_SIZE,
                forall|j: int| 0 <= j < i ==> self.0@[j] == other.0@[j],
            decreases KEY_SIZE - i,
        {
            if self.0[i] != other.0[i] {
                return false;
            }
            i += 1;
        }
        assert(self.0@ =~= other.0@);
        true
    }
}

impl PartialEqSpecImpl for PublicKey {
    open spec fn obeys_eq_spec() -> bool {
        true
    }

    closed spec fn eq_spec(&self, other: &PublicKey) -> bool {
        self.0@ == other.0@
    }
}

} // verus!
