//! The masking primitive: a 4-byte XOR mask applied to a payload buffer.

use vstd::prelude::*;

verus! {

/// The byte sequence `s` with the 4-byte XOR mask `key` applied: byte `i` is
/// XORed with `key[i % 4]`.
pub open spec fn masked(s: Seq<u8>, key: Seq<u8>) -> Seq<u8>
    recommends
        key.len() == 4,
{
    Seq::new(s.len(), |i: int| s[i] ^ key[i % 4])
}

/// XOR every payload byte with the mask byte at its index modulo 4, in place,
/// in a single pass. Applying it twice with the same key restores the buffer
/// (see `lemma_mask_involution`).
pub fn apply_mask(buf: &mut Vec<u8>, key: &[u8; 4])
    ensures
        final(buf)@ == masked(old(buf)@, key@),
{
    let n = buf.len();
    let mut i: usize = 0;
    while i < n
        invariant
            n == buf.len(),
            i <= n,
            buf@.len() == old(buf)@.len(),
            forall|j: int| 0 <= j < i ==> buf@[j] == masked(old(buf)@, key@)[j],
            forall|j: int| i <= j < n ==> buf@[j] == old(buf)@[j],
        decreases n - i,
    {
        let b = buf[i];
        let m = key[i % 4];
        buf.set(i, b ^ m);
        i += 1;
    }
    assert(buf@ =~= masked(old(buf)@, key@));
}

/// Masking round-trip law: for every mask key and payload, masking twice with
/// the same key is the identity transform.
pub proof fn lemma_mask_involution(s: Seq<u8>, key: Seq<u8>)
    requires
        key.len() == 4,
    ensures
        masked(masked(s, key), key) == s,
{
    assert forall|i: int| 0 <= i < s.len() implies masked(masked(s, key), key)[i] == s[i] by {
        let b = s[i];
        let k = key[i % 4];
        assert((b ^ k) ^ k == b) by (bit_vector);
    }
    assert(masked(masked(s, key), key) =~= s);
}

} // verus!
