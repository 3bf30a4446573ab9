//! What holds of the library as a whole, proved from the contracts of its
//! parts.
//!
//! Each statement is made once for each cipher. Where sealing can fail (a
//! [`SalsaBox`] with associated data, a [`ChaChaBox`] with a plaintext that
//! is too long) a statement about sealed messages speaks of the inputs on
//! which it succeeds.
//!
//! That a message changed on its way never opens does not hold of every
//! input: a changed ciphertext, nonce or associated data may have the tag
//! that the message came with. Nobody is expected to find such a change
//! without the key, but there are some, so the statements on changed
//! messages leave them out by name. Without exception, a message opens
//! under no tag but its own, and whatever opens is the sealed form of the
//! plaintext that comes out.

use vstd::prelude::*;
use crate::aead::TAG_SIZE;
use crate::bytes::lemma_xor_twice;
use crate::chacha_box::ChaChaBox;
use crate::curve::{is_key_pair, public_of, shared_secret};
use crate::kdf::{chacha_box_key, salsa_box_key};
use crate::keys::KEY_SIZE;
use crate::salsa_box::SalsaBox;
use crate::xchacha;
use crate::xsalsa;

verus! {

/// Two parties that each combine their own secret key with the other's
/// public key arrive at the same shared secret, and so at the same key for
/// either kind of box.
pub proof fn lemma_agreement_symmetry(
    a_secret: Seq<u8>,
    a_public: Seq<u8>,
    b_secret: Seq<u8>,
    b_public: Seq<u8>,
)
    requires
        a_secret.len() == KEY_SIZE,
        b_secret.len() == KEY_SIZE,
        is_key_pair(a_secret, a_public),
        is_key_pair(b_secret, b_public),
    ensures
        shared_secret(a_secret, b_public) == shared_secret(b_secret, a_public),
        salsa_box_key(a_secret, b_public) == salsa_box_key(b_secret, a_public),
        chacha_box_key(a_secret, b_public) == chacha_box_key(b_secret, a_public),
{
    assert(shared_secret(b_secret, a_public) == shared_secret(a_secret, public_of(b_secret)));
}

/// What a [`SalsaBox`] seals opens again, under the same nonce, to the
/// plaintext.
pub proof fn lemma_salsa_round_trip(key: Seq<u8>, nonce: Seq<u8>, plaintext: Seq<u8>)
    ensures
        xsalsa::sealed(key, nonce, Seq::empty(), plaintext) is Some,
        xsalsa::opened(
            key,
            nonce,
            Seq::empty(),
            xsalsa::sealed(key, nonce, Seq::empty(), plaintext).unwrap(),
        ) == Some(plaintext),
{
    let (ciphertext, tag) = xsalsa::sealed_detached(key, nonce, Seq::empty(), plaintext).unwrap();
    let boxed = ciphertext + tag;
    assert(boxed.take(boxed.len() - TAG_SIZE) =~= ciphertext);
    assert(boxed.skip(boxed.len() - TAG_SIZE) =~= tag);
    lemma_salsa_round_trip_detached(key, nonce, plaintext);
}

/// The same for the detached form: ciphertext and tag of a plaintext open
/// to the plaintext.
pub proof fn lemma_salsa_round_trip_detached(key: Seq<u8>, nonce: Seq<u8>, plaintext: Seq<u8>)
    ensures
        xsalsa::sealed_detached(key, nonce, Seq::empty(), plaintext) matches Some(
            (ciphertext, tag),
        ) && xsalsa::opened_detached(key, nonce, Seq::empty(), ciphertext, tag) == Some(
            plaintext,
        ),
{
    lemma_xor_twice(plaintext, xsalsa::xsalsa20_keystream(key, nonce, plaintext.len()));
}

/// What a [`ChaChaBox`] seals opens again, under the same nonce and
/// associated data, to the plaintext.
pub proof fn lemma_chacha_round_trip(
    key: Seq<u8>,
    nonce: Seq<u8>,
    associated_data: Seq<u8>,
    plaintext: Seq<u8>,
)
    requires
        xchacha::fits(plaintext.len()),
    ensures
        xchacha::sealed(key, nonce, associated_data, plaintext) is Some,
        xchacha::opened(
            key,
            nonce,
            associated_data,
            xchacha::sealed(key, nonce, associated_data, plaintext).unwrap(),
        ) == Some(plaintext),
{
    let (ciphertext, tag) = xchacha::sealed_detached(
        key,
        nonce,
        associated_data,
        plaintext,
    ).unwrap();
    let boxed = ciphertext + tag;
    assert(boxed.take(boxed.len() - TAG_SIZE) =~= ciphertext);
    assert(boxed.skip(boxed.len() - TAG_SIZE) =~= tag);
    lemma_chacha_round_trip_detached(key, nonce, associated_data, plaintext);
}

/// The same for the detached form.
pub proof fn lemma_chacha_round_trip_detached(
    key: Seq<u8>,
    nonce: Seq<u8>,
    associated_data: Seq<u8>,
    plaintext: Seq<u8>,
)
    requires
        xchacha::fits(plaintext.len()),
    ensures
        xchacha::sealed_detached(key, nonce, associated_data, plaintext) matches Some(
            (ciphertext, tag),
        ) && xchacha::opened_detached(key, nonce, associated_data, ciphertext, tag) == Some(
            plaintext,
        ),
{
    lemma_xor_twice(plaintext, xchacha::xchacha20_keystream(key, nonce, plaintext.len()));
}

/// What one party seals in its [`SalsaBox`], the other party opens in its
/// own.
pub proof fn lemma_salsa_peers(
    a_secret: Seq<u8>,
    a_public: Seq<u8>,
    b_secret: Seq<u8>,
    b_public: Seq<u8>,
    nonce: Seq<u8>,
    plaintext: Seq<u8>,
)
    requires
        a_secret.len() == KEY_SIZE,
        b_secret.len() == KEY_SIZE,
        is_key_pair(a_secret, a_public),
        is_key_pair(b_secret, b_public),
    ensures
        xsalsa::opened(
            salsa_box_key(b_secret, a_public),
            nonce,
            Seq::empty(),
            xsalsa::sealed(
                salsa_box_key(a_secret, b_public),
                nonce,
                Seq::empty(),
                plaintext,
            ).unwrap(),
        ) == Some(plaintext),
{
    lemma_agreement_symmetry(a_secret, a_public, b_secret, b_public);
    lemma_salsa_round_trip(salsa_box_key(a_secret, b_public), nonce, plaintext);
}

/// What one party seals in its [`ChaChaBox`], the other party opens in its
/// own.
pub proof fn lemma_chacha_peers(
    a_secret: Seq<u8>,
    a_public: Seq<u8>,
    b_secret: Seq<u8>,
    b_public: Seq<u8>,
    nonce: Seq<u8>,
    associated_data: Seq<u8>,
    plaintext: Seq<u8>,
)
    requires
        a_secret.len() == KEY_SIZE,
        b_secret.len() == KEY_SIZE,
        is_key_pair(a_secret, a_public),
        is_key_pair(b_secret, b_public),
        xchacha::fits(plaintext.len()),
    ensures
        xchacha::opened(
            chacha_box_key(b_secret, a_public),
            nonce,
            associated_data,
            xchacha::sealed(
                chacha_box_key(a_secret, b_public),
                nonce,
                associated_data,
                plaintext,
            ).unwrap(),
        ) == Some(plaintext),
{
    lemma_agreement_symmetry(a_secret, a_public, b_secret, b_public);
    lemma_chacha_round_trip(chacha_box_key(a_secret, b_public), nonce, associated_data, plaintext);
}

/// Two [`SalsaBox`]es made of the same keys are one for another: they hold
/// the same key, seal alike, and each opens what the other seals.
pub proof fn lemma_salsa_boxes_interchangeable(
    first: SalsaBox,
    second: SalsaBox,
    secret: Seq<u8>,
    public: Seq<u8>,
    nonce: Seq<u8>,
    plaintext: Seq<u8>,
)
    requires
        first@ == salsa_box_key(secret, public),
        second@ == salsa_box_key(secret, public),
    ensures
        first@ == second@,
        xsalsa::sealed(first@, nonce, Seq::empty(), plaintext) == xsalsa::sealed(
            second@,
            nonce,
            Seq::empty(),
            plaintext,
        ),
        xsalsa::opened(
            second@,
            nonce,
            Seq::empty(),
            xsalsa::sealed(first@, nonce, Seq::empty(), plaintext).unwrap(),
        ) == Some(plaintext),
{
    lemma_salsa_round_trip(first@, nonce, plaintext);
}

/// Two [`ChaChaBox`]es made of the same keys are one for another.
pub proof fn lemma_chacha_boxes_interchangeable(
    first: ChaChaBox,
    second: ChaChaBox,
    secret: Seq<u8>,
    public: Seq<u8>,
    nonce: Seq<u8>,
    associated_data: Seq<u8>,
    plaintext: Seq<u8>,
)
    requires
        first@ == chacha_box_key(secret, public),
        second@ == chacha_box_key(secret, public),
        xchacha::fits(plaintext.len()),
    ensures
        first@ == second@,
        xchacha::sealed(first@, nonce, associated_data, plaintext) == xchacha::sealed(
            second@,
            nonce,
            associated_data,
            plaintext,
        ),
        xchacha::opened(
            second@,
            nonce,
            associated_data,
            xchacha::sealed(first@, nonce, associated_data, plaintext).unwrap(),
        ) == Some(plaintext),
{
    lemma_chacha_round_trip(first@, nonce, associated_data, plaintext);
}

/// A message that a [`SalsaBox`] sealed opens under no tag but its own.
pub proof fn lemma_salsa_tag_binding(
    key: Seq<u8>,
    nonce: Seq<u8>,
    plaintext: Seq<u8>,
    other_tag: Seq<u8>,
)
    requires
        other_tag != xsalsa::sealed_detached(key, nonce, Seq::empty(), plaintext).unwrap().1,
    ensures
        xsalsa::opened_detached(
            key,
            nonce,
            Seq::empty(),
            xsalsa::sealed_detached(key, nonce, Seq::empty(), plaintext).unwrap().0,
            other_tag,
        ) is None,
{
}

/// A message that a [`ChaChaBox`] sealed opens under no tag but its own.
pub proof fn lemma_chacha_tag_binding(
    key: Seq<u8>,
    nonce: Seq<u8>,
    associated_data: Seq<u8>,
    plaintext: Seq<u8>,
    other_tag: Seq<u8>,
)
    requires
        xchacha::fits(plaintext.len()),
        other_tag != xchacha::sealed_detached(key, nonce, associated_data, plaintext).unwrap().1,
    ensures
        xchacha::opened_detached(
            key,
            nonce,
            associated_data,
            xchacha::sealed_detached(key, nonce, associated_data, plaintext).unwrap().0,
            other_tag,
        ) is None,
{
}

/// Whatever a [`SalsaBox`] opens is the sealed form of the plaintext that
/// comes out: no other message opens.
pub proof fn lemma_salsa_opens_only_sealed(
    key: Seq<u8>,
    nonce: Seq<u8>,
    associated_data: Seq<u8>,
    boxed: Seq<u8>,
)
    requires
        xsalsa::opened(key, nonce, associated_data, boxed) is Some,
    ensures
        xsalsa::sealed(
            key,
            nonce,
            associated_data,
            xsalsa::opened(key, nonce, associated_data, boxed).unwrap(),
        ) == Some(boxed),
{
    let ciphertext = boxed.take(boxed.len() - TAG_SIZE);
    let tag = boxed.skip(boxed.len() - TAG_SIZE);
    lemma_xor_twice(ciphertext, xsalsa::xsalsa20_keystream(key, nonce, ciphertext.len()));
    assert(ciphertext + tag =~= boxed);
}

/// Whatever a [`ChaChaBox`] opens is the sealed form of the plaintext that
/// comes out: no other message opens.
pub proof fn lemma_chacha_opens_only_sealed(
    key: Seq<u8>,
    nonce: Seq<u8>,
    associated_data: Seq<u8>,
    boxed: Seq<u8>,
)
    requires
        xchacha::opened(key, nonce, associated_data, boxed) is Some,
    ensures
        xchacha::sealed(
            key,
            nonce,
            associated_data,
            xchacha::opened(key, nonce, associated_data, boxed).unwrap(),
        ) == Some(boxed),
{
    let ciphertext = boxed.take(boxed.len() - TAG_SIZE);
    let tag = boxed.skip(boxed.len() - TAG_SIZE);
    lemma_xor_twice(ciphertext, xchacha::xchacha20_keystream(key, nonce, ciphertext.len()));
    assert(ciphertext + tag =~= boxed);
}

/// A [`SalsaBox`] binds a message to its associated data in the one way it
/// can: it seals with none, and opens with none.
pub proof fn lemma_salsa_associated_data_binding(
    key: Seq<u8>,
    nonce: Seq<u8>,
    sealed_with: Seq<u8>,
    opened_with: Seq<u8>,
    plaintext: Seq<u8>,
)
    requires
        xsalsa::sealed(key, nonce, sealed_with, plaintext) is Some,
        opened_with != sealed_with,
    ensures
        xsalsa::opened(
            key,
            nonce,
            opened_with,
            xsalsa::sealed(key, nonce, sealed_with, plaintext).unwrap(),
        ) is None,
{
    assert(sealed_with =~= Seq::empty());
    if opened_with.len() == 0 {
        assert(opened_with =~= Seq::empty());
    }
}

/// A message that a [`SalsaBox`] sealed and that reaches the receiver with
/// another nonce or ciphertext, or with associated data, does not open,
/// unless the tag it came with is the tag of what it was changed to.
pub proof fn lemma_salsa_change_detected(
    key: Seq<u8>,
    nonce: Seq<u8>,
    plaintext: Seq<u8>,
    changed_nonce: Seq<u8>,
    changed_associated_data: Seq<u8>,
    changed_ciphertext: Seq<u8>,
)
    requires
        xsalsa::xsalsa20_poly1305_tag(key, changed_nonce, changed_ciphertext)@
            != xsalsa::sealed_detached(key, nonce, Seq::empty(), plaintext).unwrap().1,
    ensures
        xsalsa::opened_detached(
            key,
            changed_nonce,
            changed_associated_data,
            changed_ciphertext,
            xsalsa::sealed_detached(key, nonce, Seq::empty(), plaintext).unwrap().1,
        ) is None,
{
}

/// A message that a [`ChaChaBox`] sealed and that reaches the receiver with
/// another nonce, other associated data or another ciphertext does not
/// open, unless the tag it came with is the tag of what it was changed to.
pub proof fn lemma_chacha_change_detected(
    key: Seq<u8>,
    nonce: Seq<u8>,
    associated_data: Seq<u8>,
    plaintext: Seq<u8>,
    changed_nonce: Seq<u8>,
    changed_associated_data: Seq<u8>,
    changed_ciphertext: Seq<u8>,
)
    requires
        xchacha::fits(plaintext.len()),
        xchacha::xchacha20_poly1305_tag(
            key,
            changed_nonce,
            changed_associated_data,
            changed_ciphertext,
        )@ != xchacha::sealed_detached(key, nonce, associated_data, plaintext).unwrap().1,
    ensures
        xchacha::opened_detached(
            key,
            changed_nonce,
            changed_associated_data,
            changed_ciphertext,
            xchacha::sealed_detached(key, nonce, associated_data, plaintext).unwrap().1,
        ) is None,
{
}

/// A [`ChaChaBox`] opens a message only with the associated data that it
/// was sealed with, unless the ciphertext has the same tag with both.
pub proof fn lemma_chacha_associated_data_binding(
    key: Seq<u8>,
    nonce: Seq<u8>,
    sealed_with: Seq<u8>,
    opened_with: Seq<u8>,
    plaintext: Seq<u8>,
)
    requires
        xchacha::fits(plaintext.len()),
        opened_with != sealed_with,
        xchacha::xchacha20_poly1305_tag(
            key,
            nonce,
            opened_with,
            xchacha::apply_keystream(key, nonce, plaintext),
        ) != xchacha::xchacha20_poly1305_tag(
            key,
            nonce,
            sealed_with,
            xchacha::apply_keystream(key, nonce, plaintext),
        ),
    ensures
        xchacha::opened(
            key,
            nonce,
            opened_with,
            xchacha::sealed(key, nonce, sealed_with, plaintext).unwrap(),
        ) is None,
{
    let (ciphertext, tag) = xchacha::sealed_detached(key, nonce, sealed_with, plaintext).unwrap();
    let boxed = ciphertext + tag;
    assert(boxed.take(boxed.len() - TAG_SIZE) =~= ciphertext);
    assert(boxed.skip(boxed.len() - TAG_SIZE) =~= tag);
    let other = xchacha::xchacha20_poly1305_tag(key, nonce, opened_with, ciphertext);
    if tag == other@ {
        assert(other =~= xchacha::xchacha20_poly1305_tag(key, nonce, sealed_with, ciphertext));
    }
}

/// The boxed message of a [`SalsaBox`] is one tag longer than the plaintext:
/// it is the detached ciphertext with the detached tag behind it.
pub proof fn lemma_salsa_boxed_form(key: Seq<u8>, nonce: Seq<u8>, plaintext: Seq<u8>)
    ensures
        xsalsa::sealed(key, nonce, Seq::empty(), plaintext) matches Some(boxed) && {
            &&& boxed.len() == plaintext.len() + TAG_SIZE
            &&& xsalsa::sealed_detached(key, nonce, Seq::empty(), plaintext) == Some(
                (boxed.take(plaintext.len() as int), boxed.skip(plaintext.len() as int)),
            )
        },
{
    let (ciphertext, tag) = xsalsa::sealed_detached(key, nonce, Seq::empty(), plaintext).unwrap();
    let boxed = ciphertext + tag;
    assert(boxed.take(plaintext.len() as int) =~= ciphertext);
    assert(boxed.skip(plaintext.len() as int) =~= tag);
}

/// The boxed message of a [`ChaChaBox`] is one tag longer than the
/// plaintext: it is the detached ciphertext with the detached tag behind it.
pub proof fn lemma_chacha_boxed_form(
    key: Seq<u8>,
    nonce: Seq<u8>,
    associated_data: Seq<u8>,
    plaintext: Seq<u8>,
)
    requires
        xchacha::fits(plaintext.len()),
    ensures
        xchacha::sealed(key, nonce, associated_data, plaintext) matches Some(boxed) && {
            &&& boxed.len() == plaintext.len() + TAG_SIZE
            &&& xchacha::sealed_detached(key, nonce, associated_data, plaintext) == Some(
                (boxed.take(plaintext.len() as int), boxed.skip(plaintext.len() as int)),
            )
        },
{
    let (ciphertext, tag) = xchacha::sealed_detached(
        key,
        nonce,
        associated_data,
        plaintext,
    ).unwrap();
    let boxed = ciphertext + tag;
    assert(boxed.take(plaintext.len() as int) =~= ciphertext);
    assert(boxed.skip(plaintext.len() as int) =~= tag);
}

} // verus!
