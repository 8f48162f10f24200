//! Tests for the format classifier and the legacy hex-UTF-16 codec.

use smsvault::classify::{classify, StoredFormat};
use smsvault::hexcodec::{decode_utf16_hex, HexDecodeError};

#[test]
fn classifier_priority_all_hex_long() {
    // 25 hex digits satisfy both checks; the envelope check wins.
    let s = "0123456789abcdef012345678";
    assert_eq!(s.len(), 25);
    assert_eq!(classify(s), StoredFormat::Envelope);
}

#[test]
fn classifier_hex_shapes() {
    assert_eq!(classify("0048"), StoredFormat::HexUtf16);
    assert_eq!(classify("ABCD"), StoredFormat::HexUtf16);
    // 20 hex digits: at the envelope floor, not over it.
    assert_eq!(classify("0123456789abcdef0123"), StoredFormat::HexUtf16);
}

#[test]
fn classifier_plain_shapes() {
    assert_eq!(classify("Hello, world!"), StoredFormat::Plain);
    // alphanumeric but not past the envelope floor, and not all hex
    assert_eq!(classify("xyz123"), StoredFormat::Plain);
    // hex digits but too short and odd
    assert_eq!(classify("abc"), StoredFormat::Plain);
    assert_eq!(classify(""), StoredFormat::Plain);
}

#[test]
fn classifier_envelope_shapes() {
    assert_eq!(classify("SGVsbG8gd29ybGQhIQ+/abc0="), StoredFormat::Envelope);
    // 21 alphanumeric characters, one past the floor
    assert_eq!(classify("a23456789012345678901"), StoredFormat::Envelope);
}

#[test]
fn hex_decodes_ascii_text() {
    assert_eq!(decode_utf16_hex("00480065006c006c006f").unwrap(), "Hello");
}

#[test]
fn hex_decodes_uppercase_digits() {
    assert_eq!(decode_utf16_hex("004800490021").unwrap(), "HI!");
}

#[test]
fn hex_round_trip_surrogate_pair() {
    // U+1F600 is the surrogate pair D83D DE00 in UTF-16.
    assert_eq!(decode_utf16_hex("d83dde00").unwrap(), "\u{1f600}");
}

#[test]
fn hex_trims_before_decoding() {
    assert_eq!(decode_utf16_hex("  0048\n").unwrap(), "H");
}

#[test]
fn hex_empty_is_empty() {
    assert_eq!(decode_utf16_hex("").unwrap(), "");
    assert_eq!(decode_utf16_hex("   ").unwrap(), "");
}

#[test]
fn hex_rejects_odd_length() {
    assert_eq!(decode_utf16_hex("abc").unwrap_err(), HexDecodeError::OddHexLength);
}

#[test]
fn hex_rejects_bad_digit() {
    assert_eq!(decode_utf16_hex("zz").unwrap_err(), HexDecodeError::InvalidHexDigit);
    assert_eq!(decode_utf16_hex("00+8").unwrap_err(), HexDecodeError::InvalidHexDigit);
}

#[test]
fn hex_rejects_odd_byte_count() {
    assert_eq!(decode_utf16_hex("aabbcc").unwrap_err(), HexDecodeError::OddByteCount);
}

#[test]
fn hex_rejects_lone_surrogate() {
    assert_eq!(decode_utf16_hex("d800").unwrap_err(), HexDecodeError::InvalidUtf16);
}
