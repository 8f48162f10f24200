//! The normalization pipeline: the classifier and the codecs applied in a
//! fixed order on the read path and the write path, with decode failures
//! tolerated by keeping the text they were handed.

use vstd::prelude::*;
use crate::cipher::{
    base64_std_char, decrypt_message, decrypt_model, encrypt_message, DecryptError, EncryptError,
};
use crate::classify::{byte_len, hex_shape, is_base64, looks_envelope, looks_hex_utf16,
    str_all_hex_digits, ENVELOPE_MIN_LEN};
use crate::hexcodec::{decode_utf16_hex, hex_decode_model};
use crate::text::{all_hex_digits, trim_spec, trim_text};

verus! {

use vstd::utf8::encode_utf8;

/// The core entity: a forwarded text message. The body may be plaintext,
/// legacy hex-UTF-16, or an encrypted envelope, depending on write history.
#[derive(Clone, Debug)]
pub struct Message {
    /// Absent before persistence; assigned by the store; carried as text.
    pub id: Option<String>,
    /// Free text; may itself arrive hex-encoded.
    pub sender: String,
    /// The body: the field the pipeline protects and normalizes.
    pub sms: String,
    /// Opaque caller-supplied text, never validated or parsed here.
    pub ts: String,
}

/// What the read path shows for a stored body: if it wears the envelope
/// shape, try to decrypt, keeping the original on any failure; then,
/// independently, if the result wears the hex-UTF-16 shape, try to
/// hex-decode, keeping the prior text on failure.
pub open spec fn read_model(t: Seq<char>, key: Seq<u8>) -> Seq<char> {
    let t1 = if looks_envelope(t) {
        match decrypt_model(t, key) {
            Ok(p) => p,
            Err(_) => t,
        }
    } else {
        t
    };
    if looks_hex_utf16(t1) {
        match hex_decode_model(t1) {
            Ok(d) => d,
            Err(_) => t1,
        }
    } else {
        t1
    }
}

/// Normalize one stored text for a reader. A decode failure never fails the
/// read: it degrades to showing the undecoded string.
pub fn normalize_read(text: String, encryption_key: &str) -> (r: String)
    requires
        encode_utf8(encryption_key@).len() == 32,
    ensures
        r@ == read_model(text@, encode_utf8(encryption_key@)),
{
    let mut cur = text;
    if is_base64(cur.as_str()) && byte_len(cur.as_str()) > ENVELOPE_MIN_LEN {
        match decrypt_message(cur.as_str(), encryption_key) {
            Ok(p) => {
                cur = p;
            },
            Err(_) => {},
        }
    }
    if hex_shape(cur.as_str()) {
        match decode_utf16_hex(cur.as_str()) {
            Ok(d) => {
                cur = d;
            },
            Err(_) => {},
        }
    }
    cur
}

/// Normalize a whole message for a reader: the body is normalized, the
/// other fields pass through untouched.
pub fn normalize_message_read(m: Message, encryption_key: &str) -> (r: Message)
    requires
        encode_utf8(encryption_key@).len() == 32,
    ensures
        r.sms@ == read_model(m.sms@, encode_utf8(encryption_key@)),
        r.id == m.id,
        r.sender == m.sender,
        r.ts == m.ts,
{
    let sms = normalize_read(m.sms, encryption_key);
    Message { id: m.id, sender: m.sender, sms, ts: m.ts }
}

/// Why a write was refused.
#[derive(Clone, Copy, PartialEq, Eq, Structural, Debug)]
pub enum WriteError {
    /// The body is empty or whitespace-only, checked after the opportunistic
    /// hex-decode of the raw input.
    EmptyBodyError,
    /// No secure randomness was available for the IV.
    RandomSourceError,
    /// The cipher refused the padded buffer.
    EncryptionError,
}

/// The opportunistic first pass over a raw incoming body: any nonempty run
/// of hex digits is tried as hex-UTF-16, failure keeping the raw text.
pub open spec fn write_pre_model(sms: Seq<char>) -> Seq<char> {
    if encode_utf8(sms).len() > 0 && all_hex_digits(sms) {
        match hex_decode_model(sms) {
            Ok(d) => d,
            Err(_) => sms,
        }
    } else {
        sms
    }
}

/// A write is rejected when the body is empty or whitespace-only after the
/// opportunistic hex-decode, so a hex-encoded empty string is rejected too.
pub open spec fn write_rejected(sms: Seq<char>) -> bool {
    trim_spec(write_pre_model(sms)).len() == 0
}

/// The fully-normalized plaintext body a write persists and notifies with:
/// after the opportunistic pass, a body that still wears the hex-UTF-16
/// shape is decoded once more, failure keeping the text.
pub open spec fn write_body_model(sms: Seq<char>) -> Seq<char> {
    let s0 = write_pre_model(sms);
    if looks_hex_utf16(s0) {
        match hex_decode_model(s0) {
            Ok(d) => d,
            Err(_) => s0,
        }
    } else {
        s0
    }
}

/// The normalized sender: decoded once when it wears the hex-UTF-16 shape,
/// failure keeping the text.
pub open spec fn write_sender_model(sender: Seq<char>) -> Seq<char> {
    if looks_hex_utf16(sender) {
        match hex_decode_model(sender) {
            Ok(d) => d,
            Err(_) => sender,
        }
    } else {
        sender
    }
}

/// A message ready to persist: the body encrypted, and the pre-encryption
/// plaintext retained for the notifier.
#[derive(Clone, Debug)]
pub struct PreparedMessage {
    /// Unchanged from the request.
    pub id: Option<String>,
    /// The normalized sender, persisted as is.
    pub sender: String,
    /// The envelope: the only form of the body that is persisted.
    pub stored_sms: String,
    /// The fully-normalized plaintext body, for the notifier only.
    pub notify_sms: String,
    /// Unchanged from the request.
    pub ts: String,
}

/// The write path up to persistence: opportunistic hex-decode, the empty
/// check, the shape-gated decodes of body and sender, and encryption.
/// Rejects with `EmptyBodyError` exactly when the body is empty or
/// whitespace-only after the opportunistic decode; the stored body always
/// wears the envelope shape and decrypts back to the normalized plaintext.
pub fn prepare_write(m: Message, encryption_key: &str) -> (r: Result<PreparedMessage, WriteError>)
    requires
        encode_utf8(encryption_key@).len() == 32,
    ensures
        match r {
            Ok(p) => {
                &&& !write_rejected(m.sms@)
                &&& p.id == m.id
                &&& p.ts == m.ts
                &&& p.sender@ == write_sender_model(m.sender@)
                &&& p.notify_sms@ == write_body_model(m.sms@)
                &&& decrypt_model(p.stored_sms@, encode_utf8(encryption_key@)) == Ok::<
                    Seq<char>,
                    DecryptError,
                >(write_body_model(m.sms@))
                &&& looks_envelope(p.stored_sms@)
                &&& forall|i: int|
                    0 <= i < p.stored_sms@.len() ==> base64_std_char(#[trigger] p.stored_sms@[i])
                &&& p.stored_sms@.len() >= 44
                &&& p.stored_sms@.len() % 4 == 0
            },
            Err(e) => {
                &&& (e == WriteError::EmptyBodyError <==> write_rejected(m.sms@))
                &&& e != WriteError::EncryptionError
            },
        },
{
    let mut sms = m.sms;
    if byte_len(sms.as_str()) > 0 && str_all_hex_digits(sms.as_str()) {
        match decode_utf16_hex(sms.as_str()) {
            Ok(d) => {
                sms = d;
            },
            Err(_) => {},
        }
    }
    let trimmed_empty = trim_text(sms.as_str()).is_empty();
    if trimmed_empty {
        return Err(WriteError::EmptyBodyError);
    }
    if hex_shape(sms.as_str()) {
        match decode_utf16_hex(sms.as_str()) {
            Ok(d) => {
                sms = d;
            },
            Err(_) => {},
        }
    }
    let mut sender = m.sender;
    if hex_shape(sender.as_str()) {
        match decode_utf16_hex(sender.as_str()) {
            Ok(d) => {
                sender = d;
            },
            Err(_) => {},
        }
    }
    let stored = match encrypt_message(sms.as_str(), encryption_key) {
        Ok(env) => env,
        Err(EncryptError::RandomSourceError) => {
            return Err(WriteError::RandomSourceError);
        },
        Err(EncryptError::EncryptionError) => {
            return Err(WriteError::EncryptionError);
        },
    };
    Ok(PreparedMessage { id: m.id, sender, stored_sms: stored, notify_sms: sms, ts: m.ts })
}

/// Law: a stored value that fails both classifier checks is returned
/// unchanged by the read path, with no error.
pub proof fn lemma_plain_passthrough(t: Seq<char>, key: Seq<u8>)
    requires
        !looks_envelope(t),
        !looks_hex_utf16(t),
    ensures
        read_model(t, key) == t,
{
}

/// Law: a stored envelope reads back to the plaintext it was made from, as
/// long as that plaintext does not itself wear the hex-UTF-16 shape with a
/// decodable payload, in which case the layered legacy pass would decode it
/// once more.
pub proof fn lemma_write_read_round_trip(stored: Seq<char>, plain: Seq<char>, key: Seq<u8>)
    requires
        looks_envelope(stored),
        decrypt_model(stored, key) == Ok::<Seq<char>, DecryptError>(plain),
        !(looks_hex_utf16(plain) && hex_decode_model(plain) is Ok),
    ensures
        read_model(stored, key) == plain,
{
}

} // verus!
