//! What the two boxes have in common: the sizes of nonces and tags, and
//! where the tag stands in a boxed message.

use vstd::prelude::*;

verus! {

/// Size of a nonce in bytes. Both ciphers take the extended nonce of 24
/// bytes, which is long enough to be drawn at random.
pub const NONCE_SIZE: usize = 24;

/// Size of an authentication tag in bytes.
pub const TAG_SIZE: usize = 16;

/// A nonce. It must never be used for two messages under one box.
pub type Nonce = [u8; NONCE_SIZE];

/// A Poly1305 authentication tag.
pub type Tag = [u8; TAG_SIZE];

/// A copy of the tag of a boxed message: its last `TAG_SIZE` bytes.
pub(crate) fn trailing_tag(boxed: &Vec<u8>) -> (tag: [u8; TAG_SIZE])
    requires
        boxed@.len() >= TAG_SIZE,
    ensures
        tag@ == boxed@.skip(boxed@.len() - TAG_SIZE),
{
    let start = boxed.len() - TAG_SIZE;
    let mut tag = [0u8; TAG_SIZE];
    let mut i: usize = 0;
    while i < TAG_SIZE
        invariant
            i <= TAG_SIZE,
            start + TAG_SIZE == boxed@.len() <= usize::MAX,
            forall|j: int| 0 <= j < i ==> tag@[j] == boxed@[start + j],
        decreases TAG_SIZE - i,
    {
        tag[i] = boxed[start + i];
        i += 1;
    }
    assert(tag@ =~= boxed@.skip(boxed@.len() - TAG_SIZE));
    tag
}

} // verus!
