//! Tests for the cipher codec: round trips, IV freshness, tamper and
//! wrong-key behavior, and the error variants.

use smsvault::cipher::{decrypt_message, encrypt_message, DecryptError};

const KEY: &str = "0123456789abcdef0123456789abcdef";
const OTHER_KEY: &str = "ffffffffffffffffffffffffffffffff";

fn b64_decode(s: &str) -> Vec<u8> {
    base64::Engine::decode(&base64::engine::general_purpose::STANDARD, s).unwrap()
}

fn b64_encode(b: &[u8]) -> String {
    base64::Engine::encode(&base64::engine::general_purpose::STANDARD, b)
}

#[test]
fn round_trip_simple() {
    let p = "Your code is 1234";
    let env = encrypt_message(p, KEY).unwrap();
    assert_eq!(decrypt_message(&env, KEY).unwrap(), p);
}

#[test]
fn round_trip_unicode() {
    let p = "h\u{e9}llo w\u{f6}rld \u{1f600}";
    let env = encrypt_message(p, KEY).unwrap();
    assert_eq!(decrypt_message(&env, KEY).unwrap(), p);
}

#[test]
fn round_trip_empty() {
    let env = encrypt_message("", KEY).unwrap();
    assert_eq!(decrypt_message(&env, KEY).unwrap(), "");
}

#[test]
fn distinct_ivs() {
    let p = "same plaintext, same key";
    let a = encrypt_message(p, KEY).unwrap();
    let b = encrypt_message(p, KEY).unwrap();
    assert_ne!(a, b);
    assert_eq!(decrypt_message(&a, KEY).unwrap(), p);
    assert_eq!(decrypt_message(&b, KEY).unwrap(), p);
}

#[test]
fn envelope_shape() {
    // 17 plaintext bytes pad to 32, so 48 decoded bytes and 64 base64 chars.
    let env = encrypt_message("Your code is 1234", KEY).unwrap();
    assert!(env.len() > 20);
    assert!(env.len() >= 44);
    assert_eq!(env.len() % 4, 0);
    assert_eq!(env.len(), 64);
    assert!(env.is_ascii());
    assert!(env.chars().all(|c| c.is_ascii_alphanumeric() || c == '+' || c == '/' || c == '='));
    let bytes = b64_decode(&env);
    assert_eq!(bytes.len(), 16 + 16 * (17 / 16 + 1));
    assert_eq!((bytes.len() - 16) % 16, 0);
}

#[test]
fn fresh_iv_in_prefix() {
    let p = "Your code is 1234";
    let a = b64_decode(&encrypt_message(p, KEY).unwrap());
    let b = b64_decode(&encrypt_message(p, KEY).unwrap());
    assert_ne!(&a[..16], &b[..16]);
}

#[test]
fn tamper_any_ciphertext_byte_never_silently_corrupts() {
    let p = "short msg";
    let env = encrypt_message(p, KEY).unwrap();
    let bytes = b64_decode(&env);
    for i in 16..bytes.len() {
        let mut t = bytes.clone();
        t[i] ^= 0x40;
        let tampered = b64_encode(&t);
        if let Ok(out) = decrypt_message(&tampered, KEY) {
            assert_ne!(out, p, "tampered byte {} decrypted back to the original", i);
        }
    }
}

#[test]
fn wrong_key_does_not_give_plaintext() {
    let p = "Secret";
    let env = encrypt_message(p, KEY).unwrap();
    if let Ok(out) = decrypt_message(&env, OTHER_KEY) {
        assert_ne!(out, p);
    }
}

#[test]
fn decrypt_rejects_non_base64() {
    assert_eq!(
        decrypt_message("!!! not base64 !!!", KEY).unwrap_err(),
        DecryptError::Base64DecodeError
    );
}

#[test]
fn decrypt_rejects_short_payload() {
    let short = b64_encode(&[0u8; 16]);
    assert_eq!(
        decrypt_message(&short, KEY).unwrap_err(),
        DecryptError::InvalidCiphertextLength
    );
    let shorter = b64_encode(&[1u8, 2, 3]);
    assert_eq!(
        decrypt_message(&shorter, KEY).unwrap_err(),
        DecryptError::InvalidCiphertextLength
    );
}

#[test]
fn decrypt_rejects_ragged_ciphertext() {
    // 17 ciphertext bytes after the IV: not a whole number of blocks.
    let env = b64_encode(&[0u8; 33]);
    assert_eq!(decrypt_message(&env, KEY).unwrap_err(), DecryptError::PaddingError);
}

#[test]
fn decrypt_rejects_garbage_blocks() {
    // 16-byte IV plus one block that is not a real ciphertext: decryption
    // fails on padding (or, rarely, on UTF-8), never panics.
    let env = b64_encode(&[7u8; 32]);
    let r = decrypt_message(&env, KEY);
    assert!(!matches!(
        r,
        Err(DecryptError::Base64DecodeError) | Err(DecryptError::InvalidCiphertextLength)
    ));
}
