use vstd::prelude::*;

verus! {

/// Bytes in one block of the cipher.
pub const BLOCK_SIZE: usize = 16;

/// Bytes of salt at the start of an encrypted payload.
pub const SALT_LEN: usize = 16;

/// Bytes of initialization vector that follow the salt.
pub const IV_LEN: usize = 16;

/// Bytes that precede the ciphertext in an encrypted payload: salt and IV.
pub const HEADER_LEN: usize = 32;

/// Length of the ciphertext of an `n`-byte plaintext: `n` rounded up to the
/// next block boundary, a whole block more where `n` is already on one,
/// since the padding is never empty.
pub open spec fn padded_len(n: nat) -> nat {
    (n + (16 - n % 16)) as nat
}

/// Length of the encrypted payload of an `n`-byte plaintext: salt, IV and the
/// padded ciphertext.
pub open spec fn encrypted_size(n: nat) -> nat {
    (n + (16 - n % 16) + 32) as nat
}

/// The exact number of bytes that encrypting `src` writes.
///
/// The sum must fit the machine's word.
pub fn get_encrypted_size(src: &[u8]) -> (size: usize)
    requires
        encrypted_size(src@.len()) <= usize::MAX,
    ensures
        size == encrypted_size(src@.len()),
{
    let salt_and_iv_size: usize = HEADER_LEN;
    src.len() + (BLOCK_SIZE - src.len() % BLOCK_SIZE) + salt_and_iv_size
}

/// Past its 32 bytes of salt and IV an encrypted payload is a whole number of
/// blocks, at least one, and always longer than the plaintext.
pub proof fn encrypted_size_is_block_aligned(n: nat)
    ensures
        encrypted_size(n) == padded_len(n) + 32,
        padded_len(n) % 16 == 0,
        encrypted_size(n) % 16 == 0,
        n < padded_len(n) <= n + 16,
{
}

} // verus!
