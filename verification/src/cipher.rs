//! The transform engine: one key byte, combined by exclusive or with every
//! byte of a buffer. The same operation encrypts and decrypts.

use vstd::prelude::*;

use crate::mode::Mode;

verus! {

/// `bytes` with every byte combined with `key` by exclusive or.
pub open spec fn xor_mask(bytes: Seq<u8>, key: u8) -> Seq<u8> {
    Seq::new(bytes.len(), |i: int| bytes[i] ^ key)
}

/// The ciphertext of `bytes` under `key`.
pub open spec fn encrypted(bytes: Seq<u8>, key: u8) -> Seq<u8> {
    xor_mask(bytes, key)
}

/// The plaintext of `bytes` under `key`.
pub open spec fn decrypted(bytes: Seq<u8>, key: u8) -> Seq<u8> {
    xor_mask(bytes, key)
}

/// What a run in `mode` makes of `bytes` under `key`.
pub open spec fn masked(mode: Mode, bytes: Seq<u8>, key: u8) -> Seq<u8> {
    match mode {
        Mode::Encrypt => encrypted(bytes, key),
        Mode::Decrypt => decrypted(bytes, key),
    }
}

/// Masks `buffer` in place with `key`. The buffer keeps its length; an empty
/// buffer is left empty.
pub fn transform(buffer: &mut Vec<u8>, key: u8)
    ensures
        final(buffer)@ == xor_mask(old(buffer)@, key),
        final(buffer)@.len() == old(buffer)@.len(),
{
    let n: usize = buffer.len();
    let mut i: usize = 0;
    while i < n
        invariant
            i <= n,
            n == buffer@.len(),
            n == old(buffer)@.len(),
            forall|j: int| 0 <= j < i ==> buffer@[j] == old(buffer)@[j] ^ key,
            forall|j: int| i <= j < n ==> buffer@[j] == old(buffer)@[j],
        decreases n - i,
    {
        let b: u8 = buffer[i];
        buffer[i] = b ^ key;
        i += 1;
    }
}

/// Encrypts `data` in place under `key`.
pub fn encryption(data: &mut Vec<u8>, key: u8)
    ensures
        final(data)@ == encrypted(old(data)@, key),
{
    transform(data, key);
}

/// Decrypts `data` in place under `key`.
pub fn decryption(data: &mut Vec<u8>, key: u8)
    ensures
        final(data)@ == decrypted(old(data)@, key),
{
    transform(data, key);
}

/// Runs the operation that `mode` asks for on `data`, in place.
pub fn apply(mode: Mode, data: &mut Vec<u8>, key: u8)
    ensures
        final(data)@ == masked(mode, old(data)@, key),
        final(data)@.len() == old(data)@.len(),
{
    match mode {
        Mode::Encrypt => encryption(data, key),
        Mode::Decrypt => decryption(data, key),
    }
}

/// Masking twice with the same key gives the bytes back.
pub proof fn lemma_mask_is_involution(bytes: Seq<u8>, key: u8)
    ensures
        xor_mask(xor_mask(bytes, key), key) == bytes,
{
    assert forall|i: int| 0 <= i < bytes.len() implies (#[trigger] bytes[i] ^ key) ^ key
        == bytes[i] by {
        let b = bytes[i];
        assert((b ^ key) ^ key == b) by (bit_vector);
    }
    assert(xor_mask(xor_mask(bytes, key), key) =~= bytes);
}

/// Masking keeps the number of bytes.
pub proof fn lemma_mask_keeps_length(bytes: Seq<u8>, key: u8)
    ensures
        xor_mask(bytes, key).len() == bytes.len(),
{
}

/// The key 0 changes nothing.
pub proof fn lemma_zero_key_is_identity(bytes: Seq<u8>)
    ensures
        xor_mask(bytes, 0) == bytes,
{
    assert forall|i: int| 0 <= i < bytes.len() implies #[trigger] bytes[i] ^ 0u8 == bytes[i] by {
        let b = bytes[i];
        assert(b ^ 0u8 == b) by (bit_vector);
    }
    assert(xor_mask(bytes, 0) =~= bytes);
}

/// Decrypting what was encrypted with the same key restores every byte, and
/// so does encrypting what was decrypted.
pub proof fn lemma_decryption_undoes_encryption(bytes: Seq<u8>, key: u8)
    ensures
        decrypted(encrypted(bytes, key), key) == bytes,
        encrypted(decrypted(bytes, key), key) == bytes,
{
    lemma_mask_is_involution(bytes, key);
}

/// The mode does not change the transform: two runs under the same key, in
/// whichever modes, restore every byte.
pub proof fn lemma_second_run_restores(first: Mode, second: Mode, bytes: Seq<u8>, key: u8)
    ensures
        masked(second, masked(first, bytes, key), key) == bytes,
        masked(first, bytes, key) == xor_mask(bytes, key),
{
    lemma_mask_is_involution(bytes, key);
}

} // verus!
