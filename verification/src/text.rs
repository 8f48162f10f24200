//! Character classes and trimming, the textual ground the classifier and the
//! legacy hex-UTF-16 codec stand on.

use vstd::prelude::*;

verus! {

use vstd::string::StrSliceExecFns;

/// True for the ASCII hexadecimal digits, the character class the legacy
/// hex-UTF-16 format is built from.
pub open spec fn spec_is_hex_digit(c: char) -> bool {
    ('0' <= c && c <= '9') || ('a' <= c && c <= 'f') || ('A' <= c && c <= 'F')
}

/// Executable ASCII hex-digit test.
pub fn is_hex_digit(c: char) -> (r: bool)
    ensures
        r == spec_is_hex_digit(c),
{
    ('0' <= c && c <= '9') || ('a' <= c && c <= 'f') || ('A' <= c && c <= 'F')
}

/// Every character of the sequence is an ASCII hex digit.
pub open spec fn all_hex_digits(s: Seq<char>) -> bool {
    forall|i: int| 0 <= i < s.len() ==> spec_is_hex_digit(#[trigger] s[i])
}

/// The ASCII characters that are alphanumeric in the Unicode sense.
pub open spec fn ascii_alnum(c: char) -> bool {
    ('0' <= c && c <= '9') || ('a' <= c && c <= 'z') || ('A' <= c && c <= 'Z')
}

/// The ASCII characters that carry the Unicode `White_Space` property:
/// tab, line feed, vertical tab, form feed, carriage return and space.
pub open spec fn ascii_white(c: char) -> bool {
    c == ' ' || c == '\t' || c == '\n' || c == '\u{b}' || c == '\u{c}' || c == '\r'
}

/// Whether a character beyond ASCII counts as alphanumeric. Unicode decides;
/// the classification depends on the character alone, so it only gets a name.
pub uninterp spec fn unicode_alnum_nonascii(c: char) -> bool;

/// What `char::is_alphanumeric` returns: on ASCII the documented ranges, and
/// beyond ASCII the Unicode classification under its name.
pub open spec fn unicode_alnum(c: char) -> bool {
    if (c as u32) < 128 {
        ascii_alnum(c)
    } else {
        unicode_alnum_nonascii(c)
    }
}

/// Whether a character beyond ASCII carries the Unicode `White_Space`
/// property. Unicode decides; it only gets a name.
pub uninterp spec fn unicode_white_nonascii(c: char) -> bool;

/// What `char::is_whitespace` returns: on ASCII the six documented
/// characters, and beyond ASCII the Unicode property under its name.
pub open spec fn unicode_white(c: char) -> bool {
    if (c as u32) < 128 {
        ascii_white(c)
    } else {
        unicode_white_nonascii(c)
    }
}

/// Relies on `char::is_alphanumeric`: true exactly for Unicode alphanumeric
/// characters, which on ASCII are the digits and letters.
#[verifier::external_body]
pub(crate) fn char_is_alphanumeric(c: char) -> (r: bool)
    ensures
        r == unicode_alnum(c),
        (c as u32) >= 128 ==> r == unicode_alnum_nonascii(c),
{
    c.is_alphanumeric()
}

/// Relies on `char::is_whitespace`: true exactly for characters with the
/// Unicode `White_Space` property, which on ASCII are tab, line feed,
/// vertical tab, form feed, carriage return and space.
#[verifier::external_body]
pub(crate) fn char_is_whitespace(c: char) -> (r: bool)
    ensures
        r == unicode_white(c),
        (c as u32) >= 128 ==> r == unicode_white_nonascii(c),
{
    c.is_whitespace()
}

/// The sequence with its leading whitespace removed.
pub open spec fn trim_start_spec(s: Seq<char>) -> Seq<char>
    decreases s.len(),
{
    if s.len() > 0 && unicode_white(s[0]) {
        trim_start_spec(s.drop_first())
    } else {
        s
    }
}

/// The sequence with its trailing whitespace removed.
pub open spec fn trim_end_spec(s: Seq<char>) -> Seq<char>
    decreases s.len(),
{
    if s.len() > 0 && unicode_white(s.last()) {
        trim_end_spec(s.drop_last())
    } else {
        s
    }
}

/// What `str::trim` leaves: the sequence with leading and trailing
/// whitespace removed.
pub open spec fn trim_spec(s: Seq<char>) -> Seq<char> {
    trim_end_spec(trim_start_spec(s))
}

proof fn lemma_trim_start_at(s: Seq<char>, k: int)
    requires
        0 <= k <= s.len(),
        forall|i: int| 0 <= i < k ==> unicode_white(#[trigger] s[i]),
        k < s.len() ==> !unicode_white(s[k]),
    ensures
        trim_start_spec(s) == s.subrange(k, s.len() as int),
    decreases k,
{
    if k == 0 {
        assert(s.subrange(0, s.len() as int) =~= s);
    } else {
        let t = s.drop_first();
        assert(forall|i: int| 0 <= i < k - 1 ==> unicode_white(#[trigger] t[i]));
        lemma_trim_start_at(t, k - 1);
        assert(t.subrange(k - 1, t.len() as int) =~= s.subrange(k, s.len() as int));
    }
}

proof fn lemma_trim_end_at(s: Seq<char>, k: int)
    requires
        0 <= k <= s.len(),
        forall|i: int| k <= i < s.len() ==> unicode_white(#[trigger] s[i]),
        k > 0 ==> !unicode_white(s[k - 1]),
    ensures
        trim_end_spec(s) == s.subrange(0, k),
    decreases s.len(),
{
    if k == s.len() {
        if s.len() > 0 && unicode_white(s.last()) {
            assert(false);
        }
        assert(s.subrange(0, k) =~= s);
    } else {
        let t = s.drop_last();
        assert(forall|i: int| k <= i < t.len() ==> unicode_white(#[trigger] t[i]));
        lemma_trim_end_at(t, k);
        assert(t.subrange(0, k) =~= s.subrange(0, k));
    }
}

/// Executable counterpart of [`trim_spec`]: a borrowed slice of `s` with
/// leading and trailing whitespace removed.
pub fn trim_text<'a>(s: &'a str) -> (r: &'a str)
    ensures
        r@ == trim_spec(s@),
{
    let n = s.unicode_len();
    let mut lo: usize = 0;
    while lo < n && char_is_whitespace(s.get_char(lo))
        invariant
            n == s@.len(),
            0 <= lo <= n,
            forall|i: int| 0 <= i < lo ==> unicode_white(#[trigger] s@[i]),
        decreases n - lo,
    {
        lo = lo + 1;
    }
    let mut hi: usize = n;
    while hi > lo && char_is_whitespace(s.get_char(hi - 1))
        invariant
            n == s@.len(),
            0 <= lo <= hi <= n,
            forall|i: int| hi <= i < n ==> unicode_white(#[trigger] s@[i]),
        decreases hi,
    {
        hi = hi - 1;
    }
    proof {
        lemma_trim_start_at(s@, lo as int);
        let t = s@.subrange(lo as int, n as int);
        assert(forall|i: int| hi - lo <= i < t.len() ==> unicode_white(#[trigger] t[i]));
        lemma_trim_end_at(t, hi - lo);
        assert(t.subrange(0, hi - lo) =~= s@.subrange(lo as int, hi as int));
    }
    s.substring_char(lo, hi)
}

} // verus!
