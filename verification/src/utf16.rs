//! A model of UTF-16: the encoding the legacy hex format stores, two bytes
//! per code unit, big-endian.

use vstd::prelude::*;

verus! {

/// A UTF-16 high (leading) surrogate code unit.
pub open spec fn is_high_surrogate(u: u16) -> bool {
    0xD800 <= u && u < 0xDC00
}

/// A UTF-16 low (trailing) surrogate code unit.
pub open spec fn is_low_surrogate(u: u16) -> bool {
    0xDC00 <= u && u < 0xE000
}

/// The scalar value a surrogate pair stands for.
pub open spec fn combine_surrogates(hi: u16, lo: u16) -> char {
    ((0x10000 + (hi - 0xD800) * 0x400 + (lo - 0xDC00)) as u32) as char
}

/// The UTF-16 code units of one character: itself if it lies in the basic
/// plane, else a surrogate pair.
pub open spec fn utf16_encode_char(c: char) -> Seq<u16> {
    let v = c as u32;
    if v < 0x10000 {
        seq![v as u16]
    } else {
        seq![
            (0xD800 + ((v - 0x10000) / 0x400)) as u16,
            (0xDC00 + ((v - 0x10000) % 0x400)) as u16,
        ]
    }
}

/// The UTF-16 code units of a text, character by character.
pub open spec fn utf16_encode(s: Seq<char>) -> Seq<u16>
    decreases s.len(),
{
    if s.len() == 0 {
        Seq::empty()
    } else {
        utf16_encode_char(s[0]) + utf16_encode(s.drop_first())
    }
}

/// The text a sequence of UTF-16 code units stands for, or nothing when a
/// surrogate stands alone.
pub open spec fn utf16_decode(units: Seq<u16>) -> Option<Seq<char>>
    decreases units.len(),
{
    if units.len() == 0 {
        Some(Seq::empty())
    } else if is_high_surrogate(units[0]) {
        if units.len() >= 2 && is_low_surrogate(units[1]) {
            match utf16_decode(units.skip(2)) {
                Some(rest) => Some(seq![combine_surrogates(units[0], units[1])] + rest),
                None => None,
            }
        } else {
            None
        }
    } else if is_low_surrogate(units[0]) {
        None
    } else {
        match utf16_decode(units.skip(1)) {
            Some(rest) => Some(seq![(units[0] as u32) as char] + rest),
            None => None,
        }
    }
}

/// Law: decoding the UTF-16 encoding of any text gives the text back.
pub proof fn lemma_utf16_decode_encode(s: Seq<char>)
    ensures
        utf16_decode(utf16_encode(s)) == Some(s),
    decreases s.len(),
{
    if s.len() == 0 {
        assert(utf16_encode(s) =~= Seq::<u16>::empty());
    } else {
        let c = s[0];
        let v = c as u32;
        vstd::utf8::char_is_scalar(c);
        lemma_utf16_decode_encode(s.drop_first());
        let u = utf16_encode(s);
        if v < 0x10000 {
            let u0 = v as u16;
            assert(!is_high_surrogate(u0) && !is_low_surrogate(u0));
            assert(u[0] == u0);
            assert(u.skip(1) =~= utf16_encode(s.drop_first()));
            vstd::utf8::char_u32_cast(c, v);
            assert((u0 as u32) == v);
            assert(utf16_decode(u) == Some(seq![c] + s.drop_first()));
            assert(seq![c] + s.drop_first() =~= s);
        } else {
            let w = v - 0x10000;
            assert(0 <= w < 0x100000);
            vstd::arithmetic::div_mod::lemma_fundamental_div_mod(w, 0x400);
            vstd::arithmetic::div_mod::lemma_mod_division_less_than_divisor(w, 0x400);
            assert(0 <= w / 0x400 < 0x400) by (nonlinear_arith)
                requires
                    0 <= w < 0x100000,
            ;
            let hi = (0xD800 + w / 0x400) as u16;
            let lo = (0xDC00 + w % 0x400) as u16;
            assert(is_high_surrogate(hi) && is_low_surrogate(lo));
            assert(u[0] == hi && u[1] == lo);
            assert(0x10000 + (hi - 0xD800) * 0x400 + (lo - 0xDC00) == v);
            vstd::utf8::char_u32_cast(c, v);
            assert(combine_surrogates(hi, lo) == c);
            assert(u.skip(2) =~= utf16_encode(s.drop_first()));
            assert(utf16_decode(u) == Some(seq![c] + s.drop_first()));
            assert(seq![c] + s.drop_first() =~= s);
        }
    }
}

/// Relies on `String::from_utf16`: it decodes UTF-16 code units, combining
/// surrogate pairs, and fails exactly when a surrogate stands alone.
#[verifier::external_body]
pub(crate) fn utf16_to_string(units: &Vec<u16>) -> (r: Option<String>)
    ensures
        r matches Some(s) ==> utf16_decode(units@) == Some(s@),
        r is None ==> utf16_decode(units@) is None,
{
    match String::from_utf16(units.as_slice()) {
        Ok(s) => Some(s),
        Err(_) => None,
    }
}

} // verus!
