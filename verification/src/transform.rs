use vstd::prelude::*;

verus! {

/// The fixed key shared by obfuscation and de-obfuscation. The transform is
/// its own inverse, so the same key (and the same function) serves for both.
pub const XOR_KEY: u32 = 0xdeadbeef;

/// The mask byte applied at position `i`: one of the four bytes of `key`,
/// selected by `i % 4`, byte 0 being the least significant.
pub open spec fn mask_byte(key: u32, i: int) -> u8 {
    (key >> ((8 * (i % 4)) as u32)) as u8
}

/// What the transform returns: each byte XORed with the mask byte of its own
/// position. Length and position of every byte are preserved.
pub open spec fn transform_spec(data: Seq<u8>, key: u32) -> Seq<u8> {
    Seq::new(data.len(), |i: int| data[i] ^ mask_byte(key, i))
}

/// Obfuscates or de-obfuscates `data` with the repeating four-byte mask drawn
/// from `key`. Total over all byte sequences and all key values.
pub fn xor_encrypt_decrypt(data: &[u8], key: u32) -> (out: Vec<u8>)
    ensures
        out@ == transform_spec(data@, key),
        out@.len() == data@.len(),
{
    let mut out: Vec<u8> = Vec::new();
    let mut i: usize = 0;
    while i < data.len()
        invariant
            i <= data@.len(),
            out@ == transform_spec(data@, key).subrange(0, i as int),
        decreases data@.len() - i,
    {
        let shift: u32 = (8 * (i % 4)) as u32;
        let mask: u8 = #[verifier::truncate] ((key >> shift) as u8);
        out.push(data[i] ^ mask);
        proof {
            assert(mask == mask_byte(key, i as int));
            assert(out@ =~= transform_spec(data@, key).subrange(0, i as int + 1));
        }
        i += 1;
    }
    proof {
        assert(out@ =~= transform_spec(data@, key));
    }
    out
}

/// Involution: applying the transform twice with the same key returns the
/// original sequence, because XOR with the same mask twice is the identity.
pub proof fn lemma_transform_involutive(data: Seq<u8>, key: u32)
    ensures
        transform_spec(transform_spec(data, key), key) == data,
{
    let twice = transform_spec(transform_spec(data, key), key);
    assert forall|i: int| 0 <= i < data.len() implies twice[i] == data[i] by {
        let b = data[i];
        let m = mask_byte(key, i);
        assert((b ^ m) ^ m == b) by (bit_vector);
    }
    assert(twice =~= data);
}

/// Identity on empty input: the transform of the empty sequence is the empty
/// sequence, for every key.
pub proof fn lemma_transform_empty(key: u32)
    ensures
        transform_spec(Seq::<u8>::empty(), key) == Seq::<u8>::empty(),
{
    assert(transform_spec(Seq::<u8>::empty(), key) =~= Seq::<u8>::empty());
}

/// Length preservation: the output has exactly the input's length.
pub proof fn lemma_transform_length(data: Seq<u8>, key: u32)
    ensures
        transform_spec(data, key).len() == data.len(),
{
}

/// Periodicity: positions congruent modulo 4 receive the same mask byte.
pub proof fn lemma_mask_byte_periodic(key: u32, i: int, j: int)
    requires
        i % 4 == j % 4,
    ensures
        mask_byte(key, i) == mask_byte(key, j),
{
}

} // verus!
