use rustystorage::cipher::{open, seal, seal_with_nonce, NONCE_LEN, TAG_LEN};
use rustystorage::error::TransferError;
use rustystorage::key::SecretKey;
use std::collections::HashSet;

const ZERO_KEY: &str = "0000000000000000000000000000000000000000000000000000000000000000";

fn zero_key() -> SecretKey {
    SecretKey::from_hex(ZERO_KEY).unwrap()
}

fn key_of(byte: u8) -> SecretKey {
    SecretKey::from_bytes(vec![byte; 32]).unwrap()
}

#[test]
fn seal_then_open_gives_the_plaintext_back() {
    let key = key_of(7);
    for plaintext in [Vec::new(), b"hello world".to_vec(), vec![0xabu8; 1024], vec![1u8; 4097]] {
        let envelope = seal(&plaintext, &key);
        assert_eq!(envelope.len(), NONCE_LEN + plaintext.len() + TAG_LEN);
        assert_eq!(open(&envelope, &key), Ok(plaintext));
    }
}

#[test]
fn envelope_is_nonce_then_ciphertext_then_tag() {
    let nonce = vec![0u8; 12];
    let envelope = seal_with_nonce(&Vec::new(), &zero_key(), &nonce);
    let tag = hex::decode("530f8afbc74536b9a963b4f1c4cb738b").unwrap();
    assert_eq!(&envelope[..12], &nonce[..]);
    assert_eq!(&envelope[12..], &tag[..]);

    let envelope = seal_with_nonce(&vec![0u8; 16], &zero_key(), &nonce);
    let sealed =
        hex::decode("cea7403d4d606b6e074ec5d3baf39d18d0d1c8a799996bf0265b98b5d48ab919").unwrap();
    assert_eq!(envelope.len(), 12 + 16 + 16);
    assert_eq!(&envelope[..12], &nonce[..]);
    assert_eq!(&envelope[12..], &sealed[..]);
    assert_eq!(open(&envelope, &zero_key()), Ok(vec![0u8; 16]));
}

#[test]
fn seal_with_nonce_depends_on_the_nonce() {
    let key = key_of(1);
    let plaintext = b"same payload".to_vec();
    let first = seal_with_nonce(&plaintext, &key, &vec![0u8; 12]);
    let second = seal_with_nonce(&plaintext, &key, &vec![1u8; 12]);
    assert_ne!(first[12..], second[12..]);
    assert_eq!(open(&first, &key), Ok(plaintext.clone()));
    assert_eq!(open(&second, &key), Ok(plaintext));
}

#[test]
fn flipping_any_ciphertext_bit_fails_authentication() {
    let key = key_of(42);
    let plaintext = b"tamper with me, if you can".to_vec();
    let envelope = seal(&plaintext, &key);
    for position in NONCE_LEN..envelope.len() {
        for bit in 0..8 {
            let mut tampered = envelope.clone();
            tampered[position] ^= 1 << bit;
            assert_eq!(open(&tampered, &key), Err(TransferError::AuthenticationFailure));
        }
    }
}

#[test]
fn flipping_a_nonce_bit_fails_authentication() {
    let key = key_of(42);
    let mut envelope = seal(&b"payload".to_vec(), &key);
    envelope[0] ^= 0x80;
    assert_eq!(open(&envelope, &key), Err(TransferError::AuthenticationFailure));
}

#[test]
fn nonces_do_not_repeat() {
    let key = key_of(9);
    let plaintext = b"x".to_vec();
    let mut seen = HashSet::new();
    for _ in 0..10_000 {
        let envelope = seal(&plaintext, &key);
        assert!(seen.insert(envelope[..NONCE_LEN].to_vec()));
    }
    assert_eq!(seen.len(), 10_000);
}

#[test]
fn another_key_fails_authentication() {
    let envelope = seal(&b"hello world".to_vec(), &key_of(1));
    assert_eq!(open(&envelope, &key_of(2)), Err(TransferError::AuthenticationFailure));
}

#[test]
fn short_envelope_is_malformed() {
    let key = zero_key();
    let envelope = seal(&b"hello world".to_vec(), &key);
    assert_eq!(open(&envelope[..5].to_vec(), &key), Err(TransferError::MalformedEnvelope));
    assert_eq!(open(&Vec::new(), &key), Err(TransferError::MalformedEnvelope));
    assert_eq!(open(&envelope[..11].to_vec(), &key), Err(TransferError::MalformedEnvelope));
}

#[test]
fn envelope_without_room_for_a_tag_fails_authentication() {
    let key = zero_key();
    let envelope = seal(&b"hello world".to_vec(), &key);
    assert_eq!(open(&envelope[..12].to_vec(), &key), Err(TransferError::AuthenticationFailure));
    assert_eq!(open(&envelope[..27].to_vec(), &key), Err(TransferError::AuthenticationFailure));
}

#[test]
fn key_from_hex_decodes_both_cases() {
    let text = "000102030405060708090a0b0c0d0e0fF0F1F2F3F4F5F6F7F8F9FAFBFCFDFEFF";
    let key = SecretKey::from_hex(text).unwrap();
    let mut expected: Vec<u8> = (0u8..16).collect();
    expected.extend(0xf0u8..=0xff);
    assert_eq!(key.as_bytes(), &expected);
}

#[test]
fn key_from_hex_refuses_bad_text() {
    assert!(matches!(SecretKey::from_hex(""), Err(TransferError::InvalidInput)));
    assert!(matches!(SecretKey::from_hex("abc"), Err(TransferError::InvalidInput)));
    assert!(matches!(SecretKey::from_hex(&"0g".repeat(32)), Err(TransferError::InvalidInput)));
    assert!(matches!(SecretKey::from_hex(&"é".repeat(32)), Err(TransferError::InvalidInput)));
    assert!(matches!(SecretKey::from_hex(&"0".repeat(63)), Err(TransferError::InvalidInput)));
}

#[test]
fn key_from_hex_refuses_other_lengths() {
    assert!(matches!(SecretKey::from_hex("00"), Err(TransferError::InvalidKeyLength)));
    assert!(matches!(SecretKey::from_hex(&"00".repeat(31)), Err(TransferError::InvalidKeyLength)));
    assert!(matches!(SecretKey::from_hex(&"00".repeat(33)), Err(TransferError::InvalidKeyLength)));
    assert!(SecretKey::from_hex(&"00".repeat(32)).is_ok());
}

#[test]
fn key_from_bytes_wants_32_bytes() {
    assert!(matches!(SecretKey::from_bytes(vec![0; 31]), Err(TransferError::InvalidKeyLength)));
    assert!(matches!(SecretKey::from_bytes(Vec::new()), Err(TransferError::InvalidKeyLength)));
    assert_eq!(SecretKey::from_bytes(vec![5; 32]).unwrap().as_bytes(), &vec![5u8; 32]);
}
