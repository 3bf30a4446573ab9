//! Byte sequences as the contracts speak of them.

use vstd::prelude::*;

verus! {

/// `len` zero bytes.
pub open spec fn zeroed(len: nat) -> Seq<u8> {
    Seq::new(len, |i: int| 0u8)
}

/// `data` with `stream` laid over it byte by byte. The result is as long as
/// `data`; a stream cipher both encrypts and decrypts this way.
pub open spec fn xor_bytes(data: Seq<u8>, stream: Seq<u8>) -> Seq<u8> {
    Seq::new(data.len(), |i: int| data[i] ^ stream[i])
}

/// Laying the same stream over data twice gives the data back.
pub proof fn lemma_xor_twice(data: Seq<u8>, stream: Seq<u8>)
    ensures
        xor_bytes(xor_bytes(data, stream), stream) == data,
{
    assert forall|i: int| 0 <= i < data.len() implies xor_bytes(xor_bytes(data, stream), stream)[i]
        == data[i] by {
        let a = data[i];
        let b = stream[i];
        assert((a ^ b) ^ b == a) by (bit_vector);
    }
}

} // verus!
