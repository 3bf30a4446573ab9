//! Erasing secret bytes.

use vstd::prelude::*;
use zeroize::Zeroize;
use crate::bytes::zeroed;
use crate::keys::KEY_SIZE;

verus! {

/// Calls `zeroize::Zeroize::zeroize` on the array, which overwrites every
/// byte with zero by volatile writes that the compiler may not remove. The
/// contract claims that all bytes are zero afterwards.
#[verifier::external_body]
pub(crate) fn wipe(bytes: &mut [u8; KEY_SIZE])
    ensures
        final(bytes)@ == zeroed(KEY_SIZE as nat),
    opens_invariants none
    no_unwind
{
    bytes.zeroize()
}

} // verus!
