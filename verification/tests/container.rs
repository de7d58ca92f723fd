use playfair_core::{
    decrypt, encrypt, encrypt_with, get_encrypted_size, pack, pack_with, unpack, unpack_request,
    unpack_with_response, xor, PlayfairError, Secrets,
};

fn secrets() -> Secrets {
    Secrets {
        magic: b"FAIR".to_vec(),
        hmac_key: b"shared secret".to_vec(),
        user_agent: b"playfair/1".to_vec(),
    }
}

const SALT: [u8; 16] = [1, 2, 3, 4, 5, 6, 7, 8, 9, 10, 11, 12, 13, 14, 15, 16];
const IV: [u8; 16] = [0xA0, 0xA1, 0xA2, 0xA3, 0xA4, 0xA5, 0xA6, 0xA7, 0xA8, 0xA9, 0xAA, 0xAB, 0xAC, 0xAD, 0xAE, 0xAF];

fn sample(n: usize) -> Vec<u8> {
    (0..n).map(|i| (i * 7 + 3) as u8).collect()
}

#[test]
fn encrypted_size_follows_the_formula() {
    assert_eq!(get_encrypted_size(&sample(0)), 48);
    assert_eq!(get_encrypted_size(&sample(1)), 48);
    assert_eq!(get_encrypted_size(&sample(15)), 48);
    assert_eq!(get_encrypted_size(&sample(16)), 64);
    assert_eq!(get_encrypted_size(&sample(17)), 64);
    assert_eq!(get_encrypted_size(&sample(31)), 64);
    assert_eq!(get_encrypted_size(&sample(32)), 80);
    assert_eq!(get_encrypted_size(&sample(1000)), 1040);
}

#[test]
fn encrypted_size_is_block_aligned_past_the_header() {
    for n in 0..70 {
        let size = get_encrypted_size(&sample(n));
        assert_eq!((size - 32) % 16, 0);
        assert_eq!(size % 16, 0);
        assert!(size - 32 > n);
        assert!(size - 32 <= n + 16);
    }
}

#[test]
fn xor_cycles_the_key() {
    assert_eq!(xor(&[0x00, 0xFF, 0x0F, 0xF0, 0x55], &[0x0F, 0xF0]), vec![0x0F, 0x0F, 0x00, 0x00, 0x5A]);
    assert_eq!(xor(b"http", b"FAIR"), vec![b'h' ^ b'F', b't' ^ b'A', b't' ^ b'I', b'p' ^ b'R']);
    assert_eq!(xor(&[], &[1, 2, 3]), Vec::<u8>::new());
    assert_eq!(xor(&[], &[]), Vec::<u8>::new());
    assert_eq!(xor(&[9, 9], &[9, 8, 7, 6]), vec![0, 1]);
}

#[test]
fn xor_twice_gives_the_input_back() {
    for n in [0usize, 1, 3, 4, 5, 16, 255] {
        let url = sample(n);
        let mixed = xor(&url, b"FAIR");
        assert_eq!(mixed.len(), n);
        assert_eq!(xor(&mixed, b"FAIR"), url);
    }
}

#[test]
fn pack_lays_the_container_out() {
    let s = secrets();
    let url = b"https://keys.example/k";
    let what = sample(20);
    let c = pack_with(&what, b"correct", url, &s, &SALT, &IV).unwrap();
    assert_eq!(c.len(), 4 + 1 + url.len() + 64);
    assert_eq!(&c[..4], b"FAIR");
    assert_eq!(c[4] as usize, url.len());
    assert_eq!(&c[5..5 + url.len()], xor(url, b"FAIR").as_slice());
    assert_eq!(&c[5 + url.len()..5 + url.len() + 16], &SALT);
    assert_eq!(&c[5 + url.len() + 16..5 + url.len() + 32], &IV);
    assert_eq!(c[5 + url.len()..].len(), get_encrypted_size(&what));
}

#[test]
fn pack_then_unpack_gives_the_plaintext_back() {
    let s = secrets();
    for n in [0usize, 1, 15, 16, 17, 100] {
        let what = sample(n);
        let c = pack(&what, b"correct", b"https://keys.example/k", &s).unwrap();
        assert_eq!(c.len(), 4 + 1 + 22 + get_encrypted_size(&what));
        assert_eq!(unpack(&c, b"correct", &s), Ok(what));
    }
}

#[test]
fn pack_with_empty_url_and_empty_passphrase_round_trips() {
    let s = secrets();
    let what = sample(33);
    let c = pack(&what, b"", b"", &s).unwrap();
    assert_eq!(c[4], 0);
    assert_eq!(unpack(&c, b"", &s), Ok(what));
}

#[test]
fn pack_draws_a_fresh_salt_and_vector() {
    let s = secrets();
    let what = sample(10);
    let a = pack(&what, b"k", b"u", &s).unwrap();
    let b = pack(&what, b"k", b"u", &s).unwrap();
    assert_ne!(a[6..38], b[6..38]);
    assert_ne!(a, b);
}

#[test]
fn pack_with_is_deterministic() {
    let s = secrets();
    let what = sample(10);
    let a = pack_with(&what, b"k", b"u", &s, &SALT, &IV).unwrap();
    let b = pack_with(&what, b"k", b"u", &s, &SALT, &IV).unwrap();
    assert_eq!(a, b);
}

#[test]
fn url_of_255_bytes_fits_and_256_does_not() {
    let s = secrets();
    let what = sample(5);
    let url = sample(255);
    let c = pack_with(&what, b"k", &url, &s, &SALT, &IV).unwrap();
    assert_eq!(c[4], 255);
    assert_eq!(unpack_request(&c, &s).unwrap().url, url);
    assert_eq!(unpack(&c, b"k", &s), Ok(what.clone()));
    let long = sample(256);
    assert_eq!(pack_with(&what, b"k", &long, &s, &SALT, &IV), Err(PlayfairError::SizingOrIoFailure));
    assert_eq!(pack(&what, b"k", &long, &s), Err(PlayfairError::SizingOrIoFailure));
}

#[test]
fn wrong_passphrase_is_refused() {
    let s = secrets();
    let what = sample(40);
    let c = pack_with(&what, b"correct", b"https://keys.example/k", &s, &SALT, &IV).unwrap();
    assert_eq!(unpack(&c, b"wrong", &s), Err(PlayfairError::InvalidKeyOrData));
}

#[test]
fn flipped_ciphertext_bit_never_gives_the_plaintext() {
    let s = secrets();
    let what = sample(40);
    let url = b"https://keys.example/k";
    let c = pack_with(&what, b"correct", url, &s, &SALT, &IV).unwrap();
    let first = 5 + url.len() + 32;
    for at in [first, first + 17, c.len() - 1] {
        for bit in [0u8, 7] {
            let mut t = c.clone();
            t[at] ^= 1 << bit;
            match unpack(&t, b"correct", &s) {
                Ok(p) => assert_ne!(p, what),
                Err(e) => assert_eq!(e, PlayfairError::InvalidKeyOrData),
            }
        }
    }
}

#[test]
fn flipped_bit_in_last_block_is_refused() {
    let s = secrets();
    let what = sample(40);
    let c = pack_with(&what, b"correct", b"u", &s, &SALT, &IV).unwrap();
    let mut t = c.clone();
    let last = t.len() - 1;
    t[last] ^= 0x80;
    assert_eq!(unpack(&t, b"correct", &s), Err(PlayfairError::InvalidKeyOrData));
}

#[test]
fn bad_magic_is_refused() {
    let s = secrets();
    assert_eq!(unpack(b"FAIL\x00wxyz", b"k", &s), Err(PlayfairError::BadMagic));
    assert_eq!(unpack(b"", b"k", &s), Err(PlayfairError::BadMagic));
    assert_eq!(unpack(b"FAI", b"k", &s), Err(PlayfairError::BadMagic));
    assert_eq!(unpack(&sample(200), b"", &s), Err(PlayfairError::BadMagic));
    assert_eq!(unpack_request(b"fair\x00", &s).err(), Some(PlayfairError::BadMagic));
    assert_eq!(
        unpack_with_response(b"XAIR\x00", &[7; 16], Some(b"00"), &s),
        Err(PlayfairError::BadMagic)
    );
    assert_eq!(unpack_with_response(b"XAIR\x00", &[7; 16], None, &s), Err(PlayfairError::BadMagic));
}

#[test]
fn truncated_container_is_refused_as_damaged() {
    let s = secrets();
    assert_eq!(unpack(b"FAIR", b"k", &s), Err(PlayfairError::InvalidKeyOrData));
    assert_eq!(unpack(b"FAIR\x05abc", b"k", &s), Err(PlayfairError::InvalidKeyOrData));
    assert_eq!(unpack(b"FAIR\x00", b"k", &s), Err(PlayfairError::InvalidKeyOrData));
    assert_eq!(unpack(b"FAIR\x01u0123456789", b"k", &s), Err(PlayfairError::InvalidKeyOrData));
    let c = pack_with(&sample(20), b"k", b"u", &s, &SALT, &IV).unwrap();
    assert_eq!(unpack(&c[..c.len() - 1], b"k", &s), Err(PlayfairError::InvalidKeyOrData));
    assert_eq!(unpack(&c[..c.len() - 16], b"k", &s), Err(PlayfairError::InvalidKeyOrData));
    assert_eq!(unpack(&c[..6 + 32], b"k", &s), Err(PlayfairError::InvalidKeyOrData));
    assert_eq!(unpack_request(b"FAIR\x05abc", &s).err(), Some(PlayfairError::InvalidKeyOrData));
}

#[test]
fn encrypt_writes_salt_vector_and_whole_blocks() {
    for n in [0usize, 1, 16, 31, 32] {
        let what = sample(n);
        let p = encrypt(&what, b"pass").unwrap();
        assert_eq!(p.len(), get_encrypted_size(&what));
        assert_eq!(decrypt(&p, b"pass"), Ok(what));
    }
    let what = sample(20);
    let p = encrypt_with(&what, b"pass", &SALT, &IV).unwrap();
    assert_eq!(&p[..16], &SALT);
    assert_eq!(&p[16..32], &IV);
    assert_eq!(p.len(), 32 + 32);
    assert_ne!(&p[32..52], what.as_slice());
    assert_eq!(decrypt(&p, b"pass"), Ok(what));
}

#[test]
fn decrypt_refuses_short_and_ragged_payloads() {
    assert_eq!(decrypt(&[], b"pass"), Err(PlayfairError::InvalidKeyOrData));
    assert_eq!(decrypt(&sample(31), b"pass"), Err(PlayfairError::InvalidKeyOrData));
    assert_eq!(decrypt(&sample(32), b"pass"), Err(PlayfairError::InvalidKeyOrData));
    assert_eq!(decrypt(&sample(32 + 15), b"pass"), Err(PlayfairError::InvalidKeyOrData));
    let p = encrypt_with(&sample(20), b"pass", &SALT, &IV).unwrap();
    assert_eq!(decrypt(&p, b"other"), Err(PlayfairError::InvalidKeyOrData));
}

#[test]
fn secrets_need_a_magic_tag() {
    assert!(Secrets::new(vec![], vec![1], vec![2]).is_none());
    let s = Secrets::new(b"FAIR".to_vec(), vec![1], vec![2]).unwrap();
    assert_eq!(s.magic, b"FAIR".to_vec());
    assert_eq!(s.hmac_key, vec![1]);
    assert_eq!(s.user_agent, vec![2]);
}

#[test]
fn each_error_has_its_message() {
    assert_eq!(PlayfairError::BadMagic.message(), "Bad magic");
    assert_eq!(PlayfairError::BadResponse.message(), "Bad response");
    assert_eq!(PlayfairError::AuthenticationFailure.message(), "Bad response signature");
    assert_eq!(PlayfairError::NetworkFailure.message(), "Key request failed");
    assert_eq!(PlayfairError::InvalidKeyOrData.message(), "Invalid key");
    assert_eq!(PlayfairError::KeyDerivationFailure.message(), "Failed to derive key");
    assert_eq!(PlayfairError::SizingOrIoFailure.message(), "Encryption failed");
}
