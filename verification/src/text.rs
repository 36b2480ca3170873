//! The text operations that recognising a window title rests on.

use vstd::prelude::*;
use vstd::utf8::{decode_utf8, valid_utf8};

verus! {

/// The characters with the Unicode property `White_Space`.
pub open spec fn is_white_space(c: char) -> bool {
    ||| 0x09 <= c as u32 <= 0x0D
    ||| c as u32 == 0x20
    ||| c as u32 == 0x85
    ||| c as u32 == 0xA0
    ||| c as u32 == 0x1680
    ||| 0x2000 <= c as u32 <= 0x200A
    ||| 0x2028 <= c as u32 <= 0x2029
    ||| c as u32 == 0x202F
    ||| c as u32 == 0x205F
    ||| c as u32 == 0x3000
}

/// A text without the white space at its start and at its end.
pub open spec fn trimmed(s: Seq<char>) -> Seq<char>
    decreases s.len(),
{
    if s.len() > 0 && is_white_space(s.first()) {
        trimmed(s.drop_first())
    } else if s.len() > 0 && is_white_space(s.last()) {
        trimmed(s.drop_last())
    } else {
        s
    }
}

/// A character with `A` to `Z` replaced by `a` to `z`.
pub open spec fn ascii_lower(c: char) -> char {
    if 'A' <= c <= 'Z' {
        (c as u32 + 32) as char
    } else {
        c
    }
}

/// Two texts that differ at most in the case of ASCII letters.
pub open spec fn same_ignoring_ascii_case(a: Seq<char>, b: Seq<char>) -> bool {
    a.map_values(|c: char| ascii_lower(c)) == b.map_values(|c: char| ascii_lower(c))
}

/// `str::trim` removes leading and trailing characters with the property `White_Space`.
pub assume_specification[ str::trim ](s: &str) -> (r: &str)
    ensures
        r@ == trimmed(s@),
;

/// `str::eq_ignore_ascii_case` compares two texts after lowering the ASCII letters of both.
pub assume_specification[ str::eq_ignore_ascii_case ](s: &str, other: &str) -> (r: bool)
    ensures
        r == same_ignoring_ascii_case(s@, other@),
;

/// `String::push` appends one character.
pub assume_specification[ String::push ](s: &mut String, c: char)
    ensures
        final(s)@ == old(s)@.push(c),
;

/// `char::from_u32` gives the character of a Unicode scalar value, and nothing for any other
/// number.
pub assume_specification[ char::from_u32 ](i: u32) -> (r: Option<char>)
    ensures
        r is Some <==> i < 0xD800 || 0xE000 <= i <= 0x10FFFF,
        r matches Some(c) ==> c == i as char,
;

/// The error of `String::from_utf8`, of which only the fact that it occurred is used.
#[verifier::external_type_specification]
#[verifier::external_body]
pub struct ExFromUtf8Error(std::string::FromUtf8Error);

/// `String::from_utf8` decodes bytes that are valid UTF-8 and refuses all others.
pub assume_specification[ String::from_utf8 ](vec: Vec<u8>) -> (r: Result<
    String,
    std::string::FromUtf8Error,
>)
    ensures
        r is Ok <==> valid_utf8(vec@),
        r matches Ok(s) ==> s@ == decode_utf8(vec@),
;

/// `str::starts_with`, for a text as the pattern, tells whether that text is a prefix.
#[verifier::external_body]
pub(crate) fn starts_with(s: &str, prefix: &str) -> (r: bool)
    ensures
        r == prefix@.is_prefix_of(s@),
{
    s.starts_with(prefix)
}

/// `==` between two `str` values compares their characters.
#[verifier::external_body]
pub(crate) fn same_text(a: &str, b: &str) -> (r: bool)
    ensures
        r == (a@ == b@),
{
    a == b
}

/// The UTF-16 units that come first in a pair.
pub open spec fn is_high_surrogate(unit: u16) -> bool {
    0xD800 <= unit <= 0xDBFF
}

/// The UTF-16 units that come second in a pair.
pub open spec fn is_low_surrogate(unit: u16) -> bool {
    0xDC00 <= unit <= 0xDFFF
}

/// The character that a surrogate pair stands for.
pub open spec fn surrogate_pair(high: u16, low: u16) -> char {
    (0x10000 + (high - 0xD800) * 0x400 + (low - 0xDC00)) as char
}

/// UTF-16 read as text, with U+FFFD in place of every surrogate outside a pair.
pub open spec fn decode_utf16(units: Seq<u16>) -> Seq<char>
    decreases units.len(),
{
    if units.len() == 0 {
        seq![]
    } else if !is_high_surrogate(units[0]) && !is_low_surrogate(units[0]) {
        seq![units[0] as char] + decode_utf16(units.skip(1))
    } else if is_high_surrogate(units[0]) && units.len() > 1 && is_low_surrogate(units[1]) {
        seq![surrogate_pair(units[0], units[1])] + decode_utf16(units.skip(2))
    } else {
        seq!['\u{FFFD}'] + decode_utf16(units.skip(1))
    }
}

/// Reads UTF-16 as text; a surrogate outside a pair becomes U+FFFD.
pub fn utf16_text(units: &[u16]) -> (text: String)
    ensures
        text@ == decode_utf16(units@),
{
    let mut text = String::new();
    let mut i: usize = 0;
    assert(units@.skip(0) =~= units@);
    while i < units.len()
        invariant
            i <= units@.len(),
            text@ + decode_utf16(units@.skip(i as int)) == decode_utf16(units@),
        decreases units@.len() - i,
    {
        let ghost rest = units@.skip(i as int);
        let ghost before = text@;
        let first: u16 = units[i];
        assert(rest[0] == first);
        let mut taken: usize = 1;
        let mut scalar: u32 = first as u32;
        if 0xD800 <= first && first <= 0xDFFF {
            scalar = 0xFFFD;
            if first <= 0xDBFF && units.len() - i > 1 {
                let second: u16 = units[i + 1];
                assert(rest[1] == second);
                if 0xDC00 <= second && second <= 0xDFFF {
                    scalar = 0x10000 + (first as u32 - 0xD800) * 0x400 + (second as u32 - 0xDC00);
                    taken = 2;
                }
            }
        }
        let decoded = char::from_u32(scalar);
        if let Some(c) = decoded {
            text.push(c);
            assert(rest.skip(taken as int) =~= units@.skip(i + taken));
            assert(decode_utf16(rest) == seq![c] + decode_utf16(rest.skip(taken as int)));
            assert(before + (seq![c] + decode_utf16(rest.skip(taken as int))) =~= text@
                + decode_utf16(rest.skip(taken as int)));
        }
        i = i + taken;
    }
    assert(units@.skip(i as int) =~= Seq::<u16>::empty());
    assert(text@ + decode_utf16(units@.skip(i as int)) =~= text@);
    text
}

/// Bytes read as Latin-1: every byte is the character of that number.
pub open spec fn decode_latin1(bytes: Seq<u8>) -> Seq<char> {
    bytes.map_values(|b: u8| b as char)
}

/// Reads bytes as Latin-1.
pub fn latin1_text(bytes: &[u8]) -> (text: String)
    ensures
        text@ == decode_latin1(bytes@),
{
    let mut text = String::new();
    let mut i: usize = 0;
    while i < bytes.len()
        invariant
            i <= bytes@.len(),
            text@ == decode_latin1(bytes@.take(i as int)),
        decreases bytes@.len() - i,
    {
        text.push(bytes[i] as char);
        i = i + 1;
        assert(text@ =~= decode_latin1(bytes@.take(i as int)));
    }
    assert(bytes@.take(i as int) =~= bytes@);
    text
}

} // verus!
