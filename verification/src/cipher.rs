use vstd::prelude::*;
use vstd::slice::slice_subrange;
use crate::entropy::random_bytes;
use crate::error::{agrees, PlayfairError};
use crate::kdf::{derive_key, derived_key, KEY_LEN};
use crate::sizing::{encrypted_size, padded_len, HEADER_LEN, IV_LEN, SALT_LEN};
use aes::cipher::{BlockDecryptMut, BlockEncryptMut, KeyIvInit};

verus! {

/// The ciphertext of AES-256 in CBC mode with PKCS#7 padding, for a key of 32
/// bytes, an initialization vector of 16 and a plaintext.
pub uninterp spec fn aes256_cbc_sealed(key: Seq<u8>, iv: Seq<u8>, plaintext: Seq<u8>) -> Seq<u8>;

/// What decrypting with AES-256 in CBC mode and stripping PKCS#7 padding
/// gives for a key, an initialization vector and a ciphertext: the plaintext,
/// or nothing where the length is no whole number of blocks or the padding is
/// malformed.
pub uninterp spec fn aes256_cbc_opened(key: Seq<u8>, iv: Seq<u8>, ciphertext: Seq<u8>) -> Option<
    Seq<u8>,
>;

/// `cbc::Encryptor::<aes::Aes256>`, made by `new_from_slices` and run by
/// `encrypt_padded_vec_mut` with `Pkcs7`. The result depends on the three
/// arguments alone. The padding fills the last block and is never empty, so
/// the ciphertext is the plaintext's length rounded up past the next block
/// boundary. Decrypting the result under the same key and vector gives the
/// plaintext back, the cipher being a permutation of blocks.
#[verifier::external_body]
fn cbc_seal(key: &[u8], iv: &[u8], plaintext: &[u8]) -> (ciphertext: Vec<u8>)
    requires
        key@.len() == 32,
        iv@.len() == 16,
        plaintext@.len() + 16 <= usize::MAX,
    ensures
        ciphertext@ == aes256_cbc_sealed(key@, iv@, plaintext@),
        ciphertext@.len() == padded_len(plaintext@.len()),
        aes256_cbc_opened(key@, iv@, ciphertext@) == Some(plaintext@),
{
    let cipher = cbc::Encryptor::<aes::Aes256>::new_from_slices(key, iv).unwrap();
    cipher.encrypt_padded_vec_mut::<aes::cipher::block_padding::Pkcs7>(plaintext)
}

/// `cbc::Decryptor::<aes::Aes256>`, made by `new_from_slices` and run by
/// `decrypt_padded_vec_mut` with `Pkcs7`: the plaintext, or nothing where the
/// crate reports an unpadding error. The outcome depends on the three
/// arguments alone.
#[verifier::external_body]
fn cbc_open(key: &[u8], iv: &[u8], ciphertext: &[u8]) -> (plaintext: Option<Vec<u8>>)
    requires
        key@.len() == 32,
        iv@.len() == 16,
    ensures
        plaintext.is_some() == aes256_cbc_opened(key@, iv@, ciphertext@).is_some(),
        plaintext matches Some(p) ==> aes256_cbc_opened(key@, iv@, ciphertext@) == Some(p@),
{
    let cipher = cbc::Decryptor::<aes::Aes256>::new_from_slices(key, iv).unwrap();
    cipher.decrypt_padded_vec_mut::<aes::cipher::block_padding::Pkcs7>(ciphertext).ok()
}

/// The encrypted payload of a plaintext under a passphrase, a salt and an
/// initialization vector: salt, then vector, then the ciphertext under the
/// key that passphrase and salt derive. It fails where the payload's size
/// does not fit the machine's word, and otherwise where the derivation does.
pub open spec fn encrypt_outcome(src: Seq<u8>, pass: Seq<u8>, salt: Seq<u8>, iv: Seq<u8>) -> Result<
    Seq<u8>,
    PlayfairError,
> {
    if encrypted_size(src.len()) > usize::MAX {
        Err(PlayfairError::SizingOrIoFailure)
    } else {
        match derived_key(pass, salt, 32) {
            None => Err(PlayfairError::KeyDerivationFailure),
            Some(key) => Ok(salt + iv + aes256_cbc_sealed(key, iv, src)),
        }
    }
}

/// The plaintext of an encrypted payload under a passphrase. The first 16
/// bytes are the salt and the next 16 the initialization vector. A payload
/// too short to hold both, a length that is no whole number of blocks and a
/// malformed padding all give `InvalidKeyOrData`, as a wrong passphrase
/// does.
pub open spec fn decrypt_outcome(payload: Seq<u8>, pass: Seq<u8>) -> Result<Seq<u8>, PlayfairError> {
    if payload.len() < 32 {
        Err(PlayfairError::InvalidKeyOrData)
    } else {
        match derived_key(pass, payload.subrange(0, 16), 32) {
            None => Err(PlayfairError::KeyDerivationFailure),
            Some(key) => match aes256_cbc_opened(
                key,
                payload.subrange(16, 32),
                payload.subrange(32, payload.len() as int),
            ) {
                Some(plaintext) => Ok(plaintext),
                None => Err(PlayfairError::InvalidKeyOrData),
            },
        }
    }
}

/// Decrypting fails in one way only, as long as the passphrase is one that
/// the key derivation takes: whatever was done to the payload, the error is
/// `InvalidKeyOrData`, the one that a wrong passphrase gives too.
pub proof fn decryption_fails_in_one_way(payload: Seq<u8>, pass: Seq<u8>)
    requires
        pass.len() <= 0xFFFF_FFFF,
    ensures
        decrypt_outcome(payload, pass).is_ok() || decrypt_outcome(payload, pass) == Err::<
            Seq<u8>,
            PlayfairError,
        >(PlayfairError::InvalidKeyOrData),
{
}

/// Encrypts `src` under `pass` with the salt and the initialization vector
/// given. The payload has exactly the size that the sizing formula gives,
/// and decrypting it under the same passphrase gives `src` back.
pub fn encrypt_with(src: &[u8], pass: &[u8], salt: &[u8], iv: &[u8]) -> (payload: Result<
    Vec<u8>,
    PlayfairError,
>)
    requires
        salt@.len() == 16,
        iv@.len() == 16,
    ensures
        agrees(payload, encrypt_outcome(src@, pass@, salt@, iv@)),
        payload.is_ok() == (encrypted_size(src@.len()) <= usize::MAX && pass@.len()
            <= 0xFFFF_FFFF),
        payload matches Ok(p) ==> p@.len() == encrypted_size(src@.len()) && decrypt_outcome(
            p@,
            pass@,
        ) == Ok::<Seq<u8>, PlayfairError>(src@),
{
    if src.len() > usize::MAX - 48 {
        return Err(PlayfairError::SizingOrIoFailure);
    }
    match derive_key(pass, salt, KEY_LEN) {
        Err(e) => Err(e),
        Ok(key) => {
            let ciphertext = cbc_seal(key.as_slice(), iv, src);
            let mut out: Vec<u8> = Vec::new();
            out.extend_from_slice(salt);
            out.extend_from_slice(iv);
            out.extend_from_slice(ciphertext.as_slice());
            proof {
                assert(out@ =~= salt@ + iv@ + ciphertext@);
                assert(out@.subrange(0, 16) =~= salt@);
                assert(out@.subrange(16, 32) =~= iv@);
                assert(out@.subrange(32, out@.len() as int) =~= ciphertext@);
            }
            Ok(out)
        },
    }
}

/// Encrypts `src` under `pass` with a salt and an initialization vector drawn
/// afresh. The payload starts with the two, and is what `encrypt_with` gives
/// for them.
pub fn encrypt(src: &[u8], pass: &[u8]) -> (payload: Result<Vec<u8>, PlayfairError>)
    ensures
        payload.is_ok() == (encrypted_size(src@.len()) <= usize::MAX && pass@.len()
            <= 0xFFFF_FFFF),
        payload matches Err(e) ==> e == (if encrypted_size(src@.len()) > usize::MAX {
            PlayfairError::SizingOrIoFailure
        } else {
            PlayfairError::KeyDerivationFailure
        }),
        payload matches Ok(p) ==> p@.len() == encrypted_size(src@.len()) && encrypt_outcome(
            src@,
            pass@,
            p@.subrange(0, 16),
            p@.subrange(16, 32),
        ) == Ok::<Seq<u8>, PlayfairError>(p@) && decrypt_outcome(p@, pass@) == Ok::<
            Seq<u8>,
            PlayfairError,
        >(src@),
{
    let salt = random_bytes(SALT_LEN);
    let iv = random_bytes(IV_LEN);
    let payload = encrypt_with(src, pass, salt.as_slice(), iv.as_slice());
    proof {
        if let Ok(p) = &payload {
            assert(p@ == salt@ + iv@ + p@.subrange(32, p@.len() as int)) by {
                let key = derived_key(pass@, salt@, 32).unwrap();
                let ct = aes256_cbc_sealed(key, iv@, src@);
                assert((salt@ + iv@ + ct).subrange(32, (salt@ + iv@ + ct).len() as int) =~= ct);
            }
            assert(p@.subrange(0, 16) =~= salt@);
            assert(p@.subrange(16, 32) =~= iv@);
        }
    }
    payload
}

/// Decrypts a payload of salt, initialization vector and ciphertext under
/// `pass` and gives the plaintext without its padding.
pub fn decrypt(src: &[u8], pass: &[u8]) -> (plaintext: Result<Vec<u8>, PlayfairError>)
    ensures
        agrees(plaintext, decrypt_outcome(src@, pass@)),
{
    if src.len() < HEADER_LEN {
        return Err(PlayfairError::InvalidKeyOrData);
    }
    let salt = slice_subrange(src, 0, SALT_LEN);
    let iv = slice_subrange(src, SALT_LEN, HEADER_LEN);
    let ciphertext = slice_subrange(src, HEADER_LEN, src.len());
    match derive_key(pass, salt, KEY_LEN) {
        Err(e) => Err(e),
        Ok(key) => match cbc_open(key.as_slice(), iv, ciphertext) {
            Some(p) => Ok(p),
            None => Err(PlayfairError::InvalidKeyOrData),
        },
    }
}

} // verus!
