//! End-to-end tests for the normalization pipeline: the write path through
//! encryption and the read path back, with legacy and failure cases.

use smsvault::pipeline::{
    normalize_message_read, normalize_read, prepare_write, Message, WriteError,
};

const KEY: &str = "0123456789abcdef0123456789abcdef";
const OTHER_KEY: &str = "ffffffffffffffffffffffffffffffff";

fn b64_decode(s: &str) -> Vec<u8> {
    base64::Engine::decode(&base64::engine::general_purpose::STANDARD, s).unwrap()
}

fn msg(sender: &str, sms: &str, ts: &str) -> Message {
    Message { id: None, sender: sender.to_string(), sms: sms.to_string(), ts: ts.to_string() }
}

#[test]
fn end_to_end_bank_message() {
    let m = msg("Bank", "Your code is 1234", "2024-01-01T00:00:00Z");
    let p = prepare_write(m, KEY).unwrap();
    assert_eq!(p.sender, "Bank");
    assert_eq!(p.ts, "2024-01-01T00:00:00Z");
    assert_eq!(p.notify_sms, "Your code is 1234");
    assert!(p.stored_sms.len() > 20);
    assert!(p.stored_sms.chars().all(|c| c.is_alphanumeric() || c == '+' || c == '/' || c == '='));

    let stored = Message {
        id: Some("1".to_string()),
        sender: p.sender.clone(),
        sms: p.stored_sms.clone(),
        ts: p.ts.clone(),
    };
    let read = normalize_message_read(stored, KEY);
    assert_eq!(read.sms, "Your code is 1234");
    assert_eq!(read.sender, "Bank");
    assert_eq!(read.ts, "2024-01-01T00:00:00Z");
    assert_eq!(read.id, Some("1".to_string()));
}

#[test]
fn stored_prefix_varies_per_call() {
    let a = prepare_write(msg("Bank", "Your code is 1234", "t"), KEY).unwrap();
    let b = prepare_write(msg("Bank", "Your code is 1234", "t"), KEY).unwrap();
    assert_ne!(a.stored_sms, b.stored_sms);
    assert_ne!(&b64_decode(&a.stored_sms)[..16], &b64_decode(&b.stored_sms)[..16]);
}

#[test]
fn empty_body_rejected() {
    assert_eq!(prepare_write(msg("a", "", "t"), KEY).unwrap_err(), WriteError::EmptyBodyError);
    assert_eq!(prepare_write(msg("a", "   ", "t"), KEY).unwrap_err(), WriteError::EmptyBodyError);
}

#[test]
fn hex_encoded_whitespace_rejected() {
    // "0020" decodes to a single space, "00200009" to a space and a tab:
    // empty after the opportunistic hex-decode, so the write is refused.
    assert_eq!(prepare_write(msg("a", "0020", "t"), KEY).unwrap_err(), WriteError::EmptyBodyError);
    assert_eq!(
        prepare_write(msg("a", "00200009", "t"), KEY).unwrap_err(),
        WriteError::EmptyBodyError
    );
}

#[test]
fn hex_body_normalized_before_encrypting() {
    // "00480069" is "Hi" in hex-UTF-16.
    let p = prepare_write(msg("a", "00480069", "t"), KEY).unwrap();
    assert_eq!(p.notify_sms, "Hi");
    assert_eq!(normalize_read(p.stored_sms, KEY), "Hi");
}

#[test]
fn hex_sender_normalized() {
    let p = prepare_write(msg("00480069", "hello there", "t"), KEY).unwrap();
    assert_eq!(p.sender, "Hi");
}

#[test]
fn doubly_hex_encoded_body_unwrapped_twice() {
    // "0030003000340038" is "0048" in hex-UTF-16, which is "H" in turn:
    // the opportunistic pass and the shape-gated pass each decode once.
    let p = prepare_write(msg("a", "0030003000340038", "t"), KEY).unwrap();
    assert_eq!(p.notify_sms, "H");
}

#[test]
fn undecodable_hex_body_kept_raw() {
    // All hex digits, but three bytes cannot make whole UTF-16 units; the
    // failed decodes keep the raw text, which is then encrypted as is.
    let p = prepare_write(msg("a", "123456", "t"), KEY).unwrap();
    assert_eq!(p.notify_sms, "123456");
    assert_eq!(normalize_read(p.stored_sms, KEY), "123456");
}

#[test]
fn legacy_hex_row_read() {
    assert_eq!(normalize_read("00480065006c006c006f".to_string(), KEY), "Hello");
}

#[test]
fn plain_row_read_unchanged() {
    assert_eq!(normalize_read("short text".to_string(), KEY), "short text");
    assert_eq!(normalize_read("".to_string(), KEY), "");
}

#[test]
fn wrong_key_read_keeps_stored_text() {
    let p = prepare_write(msg("Bank", "Secret", "t"), KEY).unwrap();
    let stored = p.stored_sms.clone();
    assert_eq!(normalize_read(p.stored_sms, OTHER_KEY), stored);
}

#[test]
fn corrupt_envelope_read_keeps_stored_text() {
    // A long base64-looking string that decodes to garbage blocks: the
    // read path must degrade to the stored text, never fail.
    let s = "ZZZZZZZZZZZZZZZZZZZZZZZZZZZZZZZZZZZZZZZZZZZZ";
    assert_eq!(normalize_read(s.to_string(), KEY), s);
}

#[test]
fn short_hex_body_kept_by_opportunistic_pass() {
    // "20" is hex but decodes to one lone byte; the failed first pass keeps
    // it, and it is too short for the shape-gated pass.
    let p = prepare_write(msg("a", "20", "t"), KEY).unwrap();
    assert_eq!(p.notify_sms, "20");
}
