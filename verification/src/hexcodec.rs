//! The legacy hex-UTF-16 codec: a message stored as the big-endian hex pairs
//! of its UTF-16 code units, and the decoder that recovers the text.

use vstd::prelude::*;
use crate::text::{
    all_hex_digits, is_hex_digit, spec_is_hex_digit, trim_end_spec, trim_spec, trim_start_spec,
    trim_text, unicode_white,
};
use crate::utf16::{lemma_utf16_decode_encode, utf16_decode, utf16_encode, utf16_to_string};

verus! {

use vstd::string::StrSliceExecFns;

/// The value of one ASCII hex digit.
pub open spec fn hex_char_val(c: char) -> int {
    if '0' <= c && c <= '9' {
        (c as u32) - ('0' as u32)
    } else if 'a' <= c && c <= 'f' {
        (c as u32) - ('a' as u32) + 10
    } else {
        (c as u32) - ('A' as u32) + 10
    }
}

/// Executable counterpart of [`hex_char_val`].
pub fn hex_digit_val(c: char) -> (r: u8)
    requires
        spec_is_hex_digit(c),
    ensures
        r == hex_char_val(c),
        r < 16,
{
    if '0' <= c && c <= '9' {
        (c as u32 as u8) - ('0' as u32 as u8)
    } else if 'a' <= c && c <= 'f' {
        (c as u32 as u8) - ('a' as u32 as u8) + 10
    } else {
        (c as u32 as u8) - ('A' as u32 as u8) + 10
    }
}

/// The bytes an even-length run of hex digits spells, two digits per byte.
pub open spec fn hex_bytes(s: Seq<char>) -> Seq<u8> {
    Seq::new((s.len() / 2) as nat, |i: int| (16 * hex_char_val(s[2 * i]) + hex_char_val(s[2 * i + 1])) as u8)
}

/// Big-endian pairing of bytes into UTF-16 code units.
pub open spec fn be_units(b: Seq<u8>) -> Seq<u16> {
    Seq::new((b.len() / 2) as nat, |i: int| (256 * b[2 * i] + b[2 * i + 1]) as u16)
}

/// Why a hex-UTF-16 decode was refused.
#[derive(Clone, Copy, PartialEq, Eq, Structural, Debug)]
pub enum HexDecodeError {
    /// The trimmed input has odd length, so it cannot spell whole bytes.
    OddHexLength,
    /// A character is not an ASCII hex digit.
    InvalidHexDigit,
    /// The bytes cannot be paired into whole UTF-16 code units.
    OddByteCount,
    /// The code units leave a surrogate standing alone.
    InvalidUtf16,
}

/// What [`decode_utf16_hex`] returns: trim, pair hex digits into bytes,
/// pair bytes big-endian into UTF-16 code units, decode.
pub open spec fn hex_decode_model(s: Seq<char>) -> Result<Seq<char>, HexDecodeError> {
    let t = trim_spec(s);
    if t.len() % 2 != 0 {
        Err(HexDecodeError::OddHexLength)
    } else if !all_hex_digits(t) {
        Err(HexDecodeError::InvalidHexDigit)
    } else {
        let bytes = hex_bytes(t);
        if bytes.len() % 2 != 0 {
            Err(HexDecodeError::OddByteCount)
        } else {
            match utf16_decode(be_units(bytes)) {
                Some(cs) => Ok(cs),
                None => Err(HexDecodeError::InvalidUtf16),
            }
        }
    }
}

/// Decode a legacy hex-UTF-16 payload back to its text: the input is
/// trimmed, read as hex pairs into bytes, the bytes paired big-endian into
/// UTF-16 code units, and the units decoded.
pub fn decode_utf16_hex(hex_str: &str) -> (r: Result<String, HexDecodeError>)
    ensures
        match r {
            Ok(s) => hex_decode_model(hex_str@) == Ok::<Seq<char>, HexDecodeError>(s@),
            Err(e) => hex_decode_model(hex_str@) == Err::<Seq<char>, HexDecodeError>(e),
        },
{
    let t = trim_text(hex_str);
    let n = t.unicode_len();
    if n % 2 != 0 {
        return Err(HexDecodeError::OddHexLength);
    }
    let mut bytes: Vec<u8> = Vec::new();
    let mut i: usize = 0;
    while i < n
        invariant
            t@ == trim_spec(hex_str@),
            n == t@.len(),
            n % 2 == 0,
            i % 2 == 0,
            0 <= i <= n,
            forall|j: int| 0 <= j < i ==> spec_is_hex_digit(#[trigger] t@[j]),
            bytes@.len() == i / 2,
            forall|j: int|
                0 <= j < i / 2 ==> bytes@[j] == (16 * hex_char_val(t@[2 * j]) + hex_char_val(
                    t@[2 * j + 1],
                )) as u8,
        decreases n - i,
    {
        let c0 = t.get_char(i);
        let c1 = t.get_char(i + 1);
        if !is_hex_digit(c0) || !is_hex_digit(c1) {
            proof {
                assert(i + 1 < n);
                assert(!spec_is_hex_digit(t@[i as int]) || !spec_is_hex_digit(
                    t@[i as int + 1],
                ));
                assert(!all_hex_digits(t@));
            }
            return Err(HexDecodeError::InvalidHexDigit);
        }
        let b: u8 = 16 * hex_digit_val(c0) + hex_digit_val(c1);
        bytes.push(b);
        i = i + 2;
    }
    proof {
        assert(bytes@ =~= hex_bytes(t@));
    }
    if bytes.len() % 2 != 0 {
        return Err(HexDecodeError::OddByteCount);
    }
    let mut units: Vec<u16> = Vec::new();
    let mut j: usize = 0;
    while j < bytes.len()
        invariant
            bytes@.len() % 2 == 0,
            j % 2 == 0,
            0 <= j <= bytes@.len(),
            units@.len() == j / 2,
            forall|k: int|
                0 <= k < j / 2 ==> units@[k] == (256 * bytes@[2 * k] + bytes@[2 * k + 1]) as u16,
        decreases bytes@.len() - j,
    {
        let u: u16 = 256 * (bytes[j] as u16) + (bytes[j + 1] as u16);
        units.push(u);
        j = j + 2;
    }
    proof {
        assert(units@ =~= be_units(bytes@));
    }
    match utf16_to_string(&units) {
        Some(s) => Ok(s),
        None => Err(HexDecodeError::InvalidUtf16),
    }
}

/// The lowercase hex digit of a value below sixteen.
pub open spec fn hex_digit_char(v: int) -> char {
    if v < 10 {
        ((0x30 + v) as u32) as char
    } else {
        ((0x57 + v) as u32) as char
    }
}

/// The hex spelling of a byte sequence, two lowercase digits per byte.
pub open spec fn hex_of_bytes(b: Seq<u8>) -> Seq<char> {
    Seq::new(
        b.len() * 2,
        |i: int| if i % 2 == 0 {
            hex_digit_char(b[i / 2] as int / 16)
        } else {
            hex_digit_char(b[i / 2] as int % 16)
        },
    )
}

/// The big-endian byte pairs of a sequence of UTF-16 code units.
pub open spec fn be_bytes(u: Seq<u16>) -> Seq<u8> {
    Seq::new(
        u.len() * 2,
        |i: int| if i % 2 == 0 {
            (u[i / 2] / 256) as u8
        } else {
            (u[i / 2] % 256) as u8
        },
    )
}

/// The legacy at-rest form of a text: the big-endian hex spelling of its
/// UTF-16 code units.
pub open spec fn hex_utf16_of(t: Seq<char>) -> Seq<char> {
    hex_of_bytes(be_bytes(utf16_encode(t)))
}

proof fn lemma_hex_digit_char_props(v: int)
    requires
        0 <= v < 16,
    ensures
        spec_is_hex_digit(hex_digit_char(v)),
        hex_char_val(hex_digit_char(v)) == v,
        !unicode_white(hex_digit_char(v)),
{
}

proof fn lemma_hex_of_bytes_shape(b: Seq<u8>)
    ensures
        hex_of_bytes(b).len() == 2 * b.len(),
        all_hex_digits(hex_of_bytes(b)),
        forall|i: int|
            0 <= i < hex_of_bytes(b).len() ==> !unicode_white(#[trigger] hex_of_bytes(b)[i]),
{
    let h = hex_of_bytes(b);
    assert forall|i: int| 0 <= i < h.len() implies spec_is_hex_digit(#[trigger] h[i])
        && !unicode_white(h[i]) by {
        let v = if i % 2 == 0 {
            b[i / 2] as int / 16
        } else {
            b[i / 2] as int % 16
        };
        assert(0 <= v < 16);
        lemma_hex_digit_char_props(v);
        assert(h[i] == hex_digit_char(v));
    }
}

proof fn lemma_hex_bytes_inverts(b: Seq<u8>)
    ensures
        hex_bytes(hex_of_bytes(b)) =~= b,
{
    let h = hex_of_bytes(b);
    assert forall|i: int| 0 <= i < b.len() implies hex_bytes(h)[i] == b[i] by {
        assert(h[2 * i] == hex_digit_char(b[i] as int / 16));
        assert(h[2 * i + 1] == hex_digit_char(b[i] as int % 16));
        lemma_hex_digit_char_props(b[i] as int / 16);
        lemma_hex_digit_char_props(b[i] as int % 16);
        vstd::arithmetic::div_mod::lemma_fundamental_div_mod(b[i] as int, 16);
    }
}

proof fn lemma_be_units_inverts(u: Seq<u16>)
    ensures
        be_bytes(u).len() == 2 * u.len(),
        be_units(be_bytes(u)) =~= u,
{
    let b = be_bytes(u);
    assert forall|i: int| 0 <= i < u.len() implies be_units(b)[i] == u[i] by {
        assert(b[2 * i] == (u[i] / 256) as u8);
        assert(b[2 * i + 1] == (u[i] % 256) as u8);
        vstd::arithmetic::div_mod::lemma_fundamental_div_mod(u[i] as int, 256);
    }
}

/// Law: writing a text in the legacy hex-UTF-16 form and decoding it gives
/// the text back.
pub proof fn lemma_hex_utf16_round_trip(t: Seq<char>)
    ensures
        hex_decode_model(hex_utf16_of(t)) == Ok::<Seq<char>, HexDecodeError>(t),
{
    let units = utf16_encode(t);
    let b = be_bytes(units);
    let h = hex_of_bytes(b);
    lemma_hex_of_bytes_shape(b);
    assert(trim_start_spec(h) == h);
    assert(trim_end_spec(h) == h);
    assert(trim_spec(h) == h);
    lemma_hex_bytes_inverts(b);
    lemma_be_units_inverts(units);
    lemma_utf16_decode_encode(t);
}

} // verus!
