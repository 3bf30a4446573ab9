//! The X25519 function and what the library relies on from it.

use vstd::prelude::*;
use crate::keys::KEY_SIZE;

verus! {

/// The result of the X25519 function of RFC 7748 on a 32-byte scalar and the
/// 32-byte u-coordinate of a point.
pub uninterp spec fn x25519_spec(scalar: Seq<u8>, point: Seq<u8>) -> [u8; 32];

/// The u-coordinate of the base point: the byte 9 followed by 31 zero bytes.
pub open spec fn basepoint() -> Seq<u8> {
    Seq::new(32, |i: int| if i == 0 { 9u8 } else { 0u8 })
}

/// The public key that belongs to a secret key.
pub open spec fn public_of(secret: Seq<u8>) -> Seq<u8> {
    x25519_spec(secret, basepoint())@
}

/// What a secret key and another party's public key agree on.
pub open spec fn shared_secret(secret: Seq<u8>, public: Seq<u8>) -> Seq<u8> {
    x25519_spec(secret, public)@
}

/// `public` serves every other key holder as the public key of `secret`
/// should: what the other's secret key yields with `public` is what `secret`
/// yields with the other's public key.
pub open spec fn agrees_with_every_key(secret: Seq<u8>, public: Seq<u8>) -> bool {
    forall|other: Seq<u8>|
        other.len() == 32 ==> #[trigger] shared_secret(other, public) == shared_secret(
            secret,
            public_of(other),
        )
}

/// `public` is the public key of `secret`: the base point multiplied by it,
/// with which every other key holder arrives at what `secret` arrives at.
pub open spec fn is_key_pair(secret: Seq<u8>, public: Seq<u8>) -> bool {
    public == public_of(secret) && agrees_with_every_key(secret, public)
}

/// Calls `x25519_dalek::x25519`, the byte-oriented X25519 function. It clamps
/// the scalar, multiplies the point by it and returns the u-coordinate of the
/// product; it takes every 32-byte input.
///
/// The contract gives the result its name. For the base point it also claims
/// the Diffie-Hellman agreement that the function is documented with and
/// that nothing here proves: a public key made by this call gives any other
/// secret key the value that this scalar gets from the other's public key.
#[verifier::external_body]
pub(crate) fn x25519(scalar: [u8; KEY_SIZE], point: [u8; KEY_SIZE]) -> (product: [u8; KEY_SIZE])
    ensures
        product == x25519_spec(scalar@, point@),
        point@ == basepoint() ==> agrees_with_every_key(scalar@, product@),
{
    x25519_dalek::x25519(scalar, point)
}

/// Hands out `x25519_dalek::X25519_BASEPOINT_BYTES`, the constant that holds
/// the base point: 9, then 31 zeros.
#[verifier::external_body]
pub(crate) fn basepoint_bytes() -> (point: [u8; KEY_SIZE])
    ensures
        point@ == basepoint(),
{
    x25519_dalek::X25519_BASEPOINT_BYTES
}

} // verus!
