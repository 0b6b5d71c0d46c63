use filecrypt::codec::{decode, encode, HEADER_LEN, NONCE_LEN, SALT_LEN};
use filecrypt::crypto::{open_with, random_bytes, seal_with, KEY_LEN, TAG_LEN};
use filecrypt::error::CryptError;
use filecrypt::pipeline::{decrypt, encrypt, encrypt_with};

#[test]
fn empty_plaintext_round_trip() {
    let file = encrypt(b"", b"secret").unwrap();
    assert_eq!(file.len(), 44);
    assert_eq!(decrypt(&file, b"secret").unwrap(), Vec::<u8>::new());
}

#[test]
fn hello_world_round_trip_and_wrong_password() {
    let file = encrypt(b"hello world", b"secret").unwrap();
    assert_eq!(file.len(), 55);
    assert_eq!(decrypt(&file, b"secret").unwrap(), b"hello world".to_vec());
    assert_eq!(decrypt(&file, b"wrong"), Err(CryptError::AuthenticationFailure));
}

#[test]
fn round_trip_many_lengths() {
    for n in [1usize, 16, 4096] {
        let plaintext: Vec<u8> = (0..n).map(|i| (i * 7 + 3) as u8).collect();
        let file = encrypt(&plaintext, b"pass phrase").unwrap();
        assert_eq!(file.len(), HEADER_LEN + n + TAG_LEN);
        assert_eq!(decrypt(&file, b"pass phrase").unwrap(), plaintext);
    }
}

#[test]
fn flipped_bits_in_ciphertext_are_detected() {
    let file = encrypt(b"attack at dawn", b"secret").unwrap();
    let last = file.len() - 1;
    for (i, bit) in [(HEADER_LEN, 0u32), (HEADER_LEN + 7, 5), (last - TAG_LEN, 7), (last, 0)] {
        let mut tampered = file.clone();
        tampered[i] ^= 1 << bit;
        assert_eq!(decrypt(&tampered, b"secret"), Err(CryptError::AuthenticationFailure));
    }
}

#[test]
fn tampered_salt_or_nonce_is_detected() {
    let file = encrypt(b"attack at dawn", b"secret").unwrap();
    for i in [0usize, 15, 16, 27] {
        let mut tampered = file.clone();
        tampered[i] ^= 0x80;
        assert_eq!(decrypt(&tampered, b"secret"), Err(CryptError::AuthenticationFailure));
    }
}

#[test]
fn wrong_password_is_rejected() {
    let file = encrypt(b"some data", b"first key").unwrap();
    assert_eq!(decrypt(&file, b"second key"), Err(CryptError::AuthenticationFailure));
    assert_eq!(decrypt(&file, b""), Err(CryptError::AuthenticationFailure));
}

#[test]
fn two_encryptions_differ() {
    let a = encrypt(b"same input", b"same key").unwrap();
    let b = encrypt(b"same input", b"same key").unwrap();
    assert_ne!(a, b);
    assert_ne!(a[..SALT_LEN], b[..SALT_LEN]);
    assert_ne!(a[SALT_LEN..HEADER_LEN], b[SALT_LEN..HEADER_LEN]);
}

#[test]
fn short_streams_are_format_errors() {
    for n in 0..HEADER_LEN {
        let bytes = vec![0xabu8; n];
        assert!(matches!(decode(&bytes), Err(CryptError::FormatError)));
        assert_eq!(decrypt(&bytes, b"secret"), Err(CryptError::FormatError));
    }
}

#[test]
fn header_only_stream_fails_authentication() {
    let bytes = vec![0u8; HEADER_LEN];
    assert_eq!(decrypt(&bytes, b"secret"), Err(CryptError::AuthenticationFailure));
}

#[test]
fn decode_splits_fields() {
    let bytes: Vec<u8> = (0u8..40).collect();
    let parts = decode(&bytes).unwrap();
    assert_eq!(parts.salt, (0u8..16).collect::<Vec<u8>>());
    assert_eq!(parts.nonce, (16u8..28).collect::<Vec<u8>>());
    assert_eq!(parts.sealed, (28u8..40).collect::<Vec<u8>>());
    let exact = decode(&bytes[..HEADER_LEN]).unwrap();
    assert!(exact.sealed.is_empty());
}

#[test]
fn encode_concatenates_fields() {
    let salt = vec![1u8; SALT_LEN];
    let nonce = vec![2u8; NONCE_LEN];
    let sealed = vec![3u8, 4, 5];
    let bytes = encode(&salt, &nonce, &sealed);
    let mut expected = salt.clone();
    expected.extend_from_slice(&nonce);
    expected.extend_from_slice(&sealed);
    assert_eq!(bytes, expected);
    let parts = decode(&bytes).unwrap();
    assert_eq!((parts.salt, parts.nonce, parts.sealed), (salt, nonce, sealed));
}

#[test]
fn derive_is_deterministic() {
    let salt = [9u8; SALT_LEN];
    let a = filecrypt::crypto::derive(b"secret", &salt);
    let b = filecrypt::crypto::derive(b"secret", &salt);
    assert_eq!(a.len(), KEY_LEN);
    assert_eq!(a, b);
    assert_ne!(a, vec![0u8; KEY_LEN]);
    let other_salt = [8u8; SALT_LEN];
    assert_ne!(a, filecrypt::crypto::derive(b"secret", &other_salt));
    assert_ne!(a, filecrypt::crypto::derive(b"secreT", &salt));
}

#[test]
fn encrypt_with_fixed_salt_and_nonce_is_deterministic() {
    let salt = [7u8; SALT_LEN];
    let nonce = [5u8; NONCE_LEN];
    let a = encrypt_with(b"hello world", b"secret", &salt, &nonce);
    let b = encrypt_with(b"hello world", b"secret", &salt, &nonce);
    assert_eq!(a, b);
    assert_eq!(a.len(), 55);
    assert_eq!(a[..SALT_LEN], salt);
    assert_eq!(a[SALT_LEN..HEADER_LEN], nonce);
    assert_ne!(a[HEADER_LEN..HEADER_LEN + 11], b"hello world"[..]);
    assert_eq!(decrypt(&a, b"secret").unwrap(), b"hello world".to_vec());
}

#[test]
fn seal_and_open_with_a_key() {
    let key = vec![0x42u8; KEY_LEN];
    let nonce = vec![0x24u8; NONCE_LEN];
    let sealed = seal_with(&key, &nonce, b"plain");
    assert_eq!(sealed.len(), 5 + TAG_LEN);
    assert_ne!(sealed[..5], b"plain"[..]);
    assert_eq!(open_with(&key, &nonce, &sealed).unwrap(), b"plain".to_vec());
    let other_nonce = vec![0x25u8; NONCE_LEN];
    assert_eq!(open_with(&key, &other_nonce, &sealed), Err(CryptError::AuthenticationFailure));
    assert_eq!(open_with(&key, &nonce, &sealed[..TAG_LEN - 1]), Err(CryptError::AuthenticationFailure));
}

#[test]
fn aes_gcm_known_answer() {
    // NIST GCM test case 13: zero key, zero nonce, empty plaintext.
    let key = vec![0u8; KEY_LEN];
    let nonce = vec![0u8; NONCE_LEN];
    let sealed = seal_with(&key, &nonce, b"");
    let expected: Vec<u8> = vec![
        0x53, 0x0f, 0x8a, 0xfb, 0xc7, 0x45, 0x36, 0xb9, 0xa9, 0x63, 0xb4, 0xf1, 0xc4, 0xcb, 0x73, 0x8b,
    ];
    assert_eq!(sealed, expected);
}

#[test]
fn random_bytes_have_requested_length() {
    let a = random_bytes(SALT_LEN).unwrap();
    let b = random_bytes(SALT_LEN).unwrap();
    assert_eq!(a.len(), SALT_LEN);
    assert_ne!(a, b);
    assert_eq!(random_bytes(0).unwrap().len(), 0);
}
