//! The format classifier: decides by heuristic, with no stored flag, whether
//! a string is an encrypted envelope, a legacy hex-UTF-16 payload, or plain
//! text. The two checks overlap; the envelope check wins by priority.

use vstd::prelude::*;
use crate::text::{
    all_hex_digits, ascii_alnum, char_is_alphanumeric, is_hex_digit, spec_is_hex_digit,
    unicode_alnum,
};

verus! {

use vstd::string::StrSliceExecFns;
use vstd::utf8::encode_utf8;

/// Strings whose byte length exceeds this floor may be taken for envelopes.
/// An empirically chosen threshold, inherited behavior: short alphanumeric
/// plaintext would otherwise false-positive.
pub const ENVELOPE_MIN_LEN: usize = 20;

/// The least byte length at which a string may be taken for hex-UTF-16:
/// one code unit is four hex digits.
pub const HEX_MIN_LEN: usize = 4;

/// A character a base64 envelope may contain: alphanumeric in the Unicode
/// sense, or one of the three symbols of padded standard base64.
pub open spec fn base64ish_char(c: char) -> bool {
    unicode_alnum(c) || c == '+' || c == '/' || c == '='
}

/// Every character of the sequence could come from a base64 envelope.
pub open spec fn spec_is_base64(s: Seq<char>) -> bool {
    forall|i: int| 0 <= i < s.len() ==> base64ish_char(#[trigger] s[i])
}

/// The byte length of a string, the measure both classifier thresholds are
/// stated over.
pub fn byte_len(s: &str) -> (r: usize)
    ensures
        r == encode_utf8(s@).len(),
{
    proof {
        broadcast use vstd::slice::axiom_spec_len;

    }
    s.as_bytes().len()
}

/// Every character is alphanumeric or one of `+ / =`.
pub fn is_base64(s: &str) -> (r: bool)
    ensures
        r == spec_is_base64(s@),
{
    let n = s.unicode_len();
    let mut i: usize = 0;
    while i < n
        invariant
            n == s@.len(),
            0 <= i <= n,
            forall|j: int| 0 <= j < i ==> base64ish_char(#[trigger] s@[j]),
        decreases n - i,
    {
        let c = s.get_char(i);
        if !(char_is_alphanumeric(c) || c == '+' || c == '/' || c == '=') {
            proof {
                assert(!base64ish_char(s@[i as int]));
            }
            return false;
        }
        i = i + 1;
    }
    true
}

/// Every character of the string is an ASCII hex digit.
pub fn str_all_hex_digits(s: &str) -> (r: bool)
    ensures
        r == all_hex_digits(s@),
{
    let n = s.unicode_len();
    let mut i: usize = 0;
    while i < n
        invariant
            n == s@.len(),
            0 <= i <= n,
            forall|j: int| 0 <= j < i ==> spec_is_hex_digit(#[trigger] s@[j]),
        decreases n - i,
    {
        if !is_hex_digit(s.get_char(i)) {
            proof {
                assert(!spec_is_hex_digit(s@[i as int]));
            }
            return false;
        }
        i = i + 1;
    }
    true
}

/// The first classifier check: all characters fit base64, and the byte
/// length exceeds the envelope floor.
pub open spec fn looks_envelope(s: Seq<char>) -> bool {
    spec_is_base64(s) && encode_utf8(s).len() > ENVELOPE_MIN_LEN as int
}

/// The second classifier check: the byte length is at least four and even,
/// and every character is an ASCII hex digit.
pub open spec fn looks_hex_utf16(s: Seq<char>) -> bool {
    &&& encode_utf8(s).len() >= HEX_MIN_LEN as int
    &&& encode_utf8(s).len() % 2 == 0
    &&& all_hex_digits(s)
}

/// Executable counterpart of [`looks_hex_utf16`].
pub fn hex_shape(s: &str) -> (r: bool)
    ensures
        r == looks_hex_utf16(s@),
{
    let len = byte_len(s);
    len >= HEX_MIN_LEN && len % 2 == 0 && str_all_hex_digits(s)
}

/// The three readings a stored string may have.
#[derive(Clone, Copy, PartialEq, Eq, Structural, Debug)]
pub enum StoredFormat {
    /// Base64 of IV-prefixed ciphertext: try to decrypt.
    Envelope,
    /// Legacy big-endian hex of UTF-16 code units: try to hex-decode.
    HexUtf16,
    /// Neither shape: pass through unchanged.
    Plain,
}

/// What the classifier decides: the checks in priority order, the earlier
/// match winning.
pub open spec fn classify_spec(s: Seq<char>) -> StoredFormat {
    if looks_envelope(s) {
        StoredFormat::Envelope
    } else if looks_hex_utf16(s) {
        StoredFormat::HexUtf16
    } else {
        StoredFormat::Plain
    }
}

/// Classify a stored or incoming string, the envelope check first.
pub fn classify(s: &str) -> (r: StoredFormat)
    ensures
        r == classify_spec(s@),
{
    let len = byte_len(s);
    if is_base64(s) && len > ENVELOPE_MIN_LEN {
        StoredFormat::Envelope
    } else if len >= HEX_MIN_LEN && len % 2 == 0 && str_all_hex_digits(s) {
        StoredFormat::HexUtf16
    } else {
        StoredFormat::Plain
    }
}

/// Law: the priority order is load-bearing. A string of hex digits long
/// enough for the envelope floor satisfies both checks and is classified as
/// an envelope, not as hex-UTF-16.
pub proof fn lemma_envelope_priority(s: Seq<char>)
    requires
        all_hex_digits(s),
        encode_utf8(s).len() > ENVELOPE_MIN_LEN as int,
    ensures
        looks_hex_utf16(s) ==> classify_spec(s) == StoredFormat::Envelope,
        classify_spec(s) != StoredFormat::HexUtf16,
{
    assert forall|i: int| 0 <= i < s.len() implies base64ish_char(#[trigger] s[i]) by {
        assert(spec_is_hex_digit(s[i]));
        assert(ascii_alnum(s[i]));
        assert((s[i] as u32) < 128);
    }
    assert(looks_envelope(s));
}

} // verus!
