//! What holds of all text that is read from a window.

use vstd::prelude::*;

#[allow(unused_imports)]
use crate::text::{
    decode_latin1, decode_utf16, is_high_surrogate, is_low_surrogate, is_white_space, latin1_text,
    surrogate_pair, trimmed, utf16_text,
};
#[allow(unused_imports)]
use crate::title_laws::{blank, law_trimming_is_done_once};

verus! {

/// The UTF-16 units that a character is written with.
pub open spec fn units_of(c: char) -> Seq<u16> {
    if (c as u32) < 0x10000 {
        seq![c as u16]
    } else {
        seq![
            (0xD800 + (c as u32 - 0x10000) / 0x400) as u16,
            (0xDC00 + (c as u32 - 0x10000) % 0x400) as u16,
        ]
    }
}

/// A text written in UTF-16.
pub open spec fn encode_utf16(text: Seq<char>) -> Seq<u16>
    decreases text.len(),
{
    if text.len() == 0 {
        seq![]
    } else {
        units_of(text.first()) + encode_utf16(text.drop_first())
    }
}

/// A character is written with one unit that is no surrogate, or with a pair that stands for it.
proof fn lemma_units_of(c: char)
    ensures
        ({
            let units = units_of(c);
            ||| {
                &&& units.len() == 1
                &&& !is_high_surrogate(units[0])
                &&& !is_low_surrogate(units[0])
                &&& units[0] as char == c
            }
            ||| {
                &&& units.len() == 2
                &&& is_high_surrogate(units[0])
                &&& is_low_surrogate(units[1])
                &&& surrogate_pair(units[0], units[1]) == c
            }
        }),
{
    if c as u32 >= 0x10000 {
        let offset: int = c as u32 - 0x10000;
        assert(offset < 0x100000);
        assert(offset == (offset / 0x400) * 0x400 + offset % 0x400);
    }
}

/// Any text that is written in UTF-16 is read back as it was.
pub proof fn law_utf16_is_read_back(text: Seq<char>)
    ensures
        decode_utf16(encode_utf16(text)) == text,
    decreases text.len(),
{
    if text.len() > 0 {
        let c = text.first();
        let rest = encode_utf16(text.drop_first());
        let units = units_of(c) + rest;
        law_utf16_is_read_back(text.drop_first());
        lemma_units_of(c);
        assert(units.skip(units_of(c).len() as int) =~= rest);
        assert(text =~= seq![c] + text.drop_first());
    }
}

/// Units read in two parts are read as a whole, unless a pair is torn apart.
pub proof fn law_utf16_is_read_in_parts(a: Seq<u16>, b: Seq<u16>)
    requires
        !(a.len() > 0 && b.len() > 0 && is_high_surrogate(a.last()) && is_low_surrogate(b.first())),
    ensures
        decode_utf16(a + b) == decode_utf16(a) + decode_utf16(b),
    decreases a.len(),
{
    let whole = a + b;
    if a.len() == 0 {
        assert(whole =~= b);
        assert(decode_utf16(a) + decode_utf16(b) =~= decode_utf16(b));
    } else {
        assert(whole[0] == a[0]);
        let paired = is_high_surrogate(a[0]) && a.len() > 1 && is_low_surrogate(a[1]);
        let taken: int = if paired {
            2
        } else {
            1
        };
        if a.len() > 1 {
            assert(whole[1] == a[1]);
        } else if b.len() > 0 {
            assert(whole[1] == b[0]);
        }
        assert(whole.skip(taken) =~= a.skip(taken) + b);
        if a.skip(taken).len() > 0 {
            assert(a.skip(taken).last() == a.last());
        }
        law_utf16_is_read_in_parts(a.skip(taken), b);
        assert(decode_utf16(a) + decode_utf16(b) =~= seq![decode_utf16(a)[0]] + (decode_utf16(
            a.skip(taken),
        ) + decode_utf16(b)));
    }
}

/// One unit that is no surrogate is the character of that number, and one that is becomes U+FFFD.
pub proof fn law_one_unit_is_one_character(unit: u16)
    ensures
        decode_utf16(seq![unit]).len() == 1,
        0xD800 <= unit <= 0xDFFF ==> decode_utf16(seq![unit])[0] as u32 == 0xFFFD,
        !(0xD800 <= unit <= 0xDFFF) ==> decode_utf16(seq![unit])[0] as u32 == unit as u32,
{
    assert(seq![unit].skip(1) =~= seq![]);
    assert(decode_utf16(seq![unit].skip(1)) =~= seq![]);
}

/// Two units that are a pair are the one character that is written with them.
pub proof fn law_a_pair_is_one_character(high: u16, low: u16)
    requires
        0xD800 <= high <= 0xDBFF,
        0xDC00 <= low <= 0xDFFF,
    ensures
        decode_utf16(seq![high, low]).len() == 1,
        units_of(decode_utf16(seq![high, low])[0]) == seq![high, low],
{
    assert(seq![high, low].skip(2) =~= seq![]);
    assert(decode_utf16(seq![high, low].skip(2)) =~= seq![]);
    let scalar: int = 0x10000 + (high - 0xD800) * 0x400 + (low - 0xDC00);
    let c = decode_utf16(seq![high, low])[0];
    assert(c as u32 == scalar);
    assert((scalar - 0x10000) / 0x400 == high - 0xD800);
    assert((scalar - 0x10000) % 0x400 == low - 0xDC00);
    assert(units_of(c) =~= seq![high, low]);
}

/// Reading units in two parts gives what reading them as a whole does, one after the other, unless a
/// pair is torn apart.
pub proof fn law_reading_in_parts_is_reading_the_whole(
    whole: &[u16],
    left: &[u16],
    right: &[u16],
    text: String,
    before: String,
    after: String,
)
    requires
        whole@ == left@ + right@,
        !(left@.len() > 0 && right@.len() > 0 && is_high_surrogate(left@.last())
            && is_low_surrogate(right@.first())),
        call_ensures(utf16_text, (whole,), text),
        call_ensures(utf16_text, (left,), before),
        call_ensures(utf16_text, (right,), after),
    ensures
        text@ == before@ + after@,
{
    law_utf16_is_read_in_parts(left@, right@);
}

/// Reading one unit gives one character: that of the same number, or U+FFFD for a surrogate. Reading
/// a pair gives the one character that is written with it, and reading nothing gives nothing.
pub proof fn law_reading_gives_characters_for_units(units: &[u16], text: String)
    requires
        call_ensures(utf16_text, (units,), text),
    ensures
        units@.len() == 0 ==> text@.len() == 0,
        units@.len() == 1 ==> text@.len() == 1,
        units@.len() == 1 && 0xD800 <= units@[0] <= 0xDFFF ==> text@[0] as u32 == 0xFFFD,
        units@.len() == 1 && !(0xD800 <= units@[0] <= 0xDFFF) ==> text@[0] as u32
            == units@[0] as u32,
        units@.len() == 2 && is_high_surrogate(units@[0]) && is_low_surrogate(units@[1])
            ==> text@.len() == 1 && units_of(text@[0]) == units@,
{
    if units@.len() == 1 {
        assert(units@ =~= seq![units@[0]]);
        law_one_unit_is_one_character(units@[0]);
    } else if units@.len() == 2 && is_high_surrogate(units@[0]) && is_low_surrogate(units@[1]) {
        assert(units@ =~= seq![units@[0], units@[1]]);
        law_a_pair_is_one_character(units@[0], units@[1]);
    }
}

/// Reading a window's units gives back the text that they were written from.
pub proof fn law_reading_utf16_gives_back_the_text(units: &[u16], written: Seq<char>, text: String)
    requires
        call_ensures(utf16_text, (units,), text),
        units@ == encode_utf16(written),
    ensures
        text@ == written,
{
    law_utf16_is_read_back(written);
}

/// Reading units that a lone surrogate parts gives U+FFFD between what either part gives.
pub proof fn law_a_lone_surrogate_is_replaced(
    units: &[u16],
    before: Seq<char>,
    lone: u16,
    after: Seq<char>,
    text: String,
)
    requires
        call_ensures(utf16_text, (units,), text),
        0xD800 <= lone <= 0xDFFF,
        units@ == encode_utf16(before) + seq![lone] + encode_utf16(after),
    ensures
        text@ == before + seq!['\u{FFFD}'] + after,
{
    let left = encode_utf16(before);
    let right = encode_utf16(after);
    lemma_written_units_are_whole(before);
    lemma_written_units_are_whole(after);
    law_one_unit_is_one_character(lone);
    assert(decode_utf16(seq![lone]) =~= seq!['\u{FFFD}']);
    law_utf16_is_read_in_parts(left, seq![lone]);
    assert((left + seq![lone]).last() == lone);
    law_utf16_is_read_in_parts(left + seq![lone], right);
    law_utf16_is_read_back(before);
    law_utf16_is_read_back(after);
}

/// What a text is written with neither ends in the middle of a pair nor begins there.
proof fn lemma_written_units_are_whole(text: Seq<char>)
    ensures
        encode_utf16(text).len() > 0 ==> !is_high_surrogate(encode_utf16(text).last())
            && !is_low_surrogate(encode_utf16(text).first()),
    decreases text.len(),
{
    if text.len() > 0 {
        let own = units_of(text.first());
        let rest = encode_utf16(text.drop_first());
        lemma_written_units_are_whole(text.drop_first());
        lemma_units_of(text.first());
        assert(!is_low_surrogate(own.first()) && !is_high_surrogate(own.last()));
        assert((own + rest).first() == own.first());
        if rest.len() > 0 {
            assert((own + rest).last() == rest.last());
        } else {
            assert(own + rest =~= own);
        }
    }
}

/// Reading Latin-1 gives a character for every byte, of the same number.
pub proof fn law_latin1_keeps_every_number(bytes: &[u8], text: String)
    requires
        call_ensures(latin1_text, (bytes,), text),
    ensures
        text@.len() == bytes@.len(),
        forall|i: int|
            0 <= i < bytes@.len() ==> (#[trigger] text@[i]) as u32 == bytes@[i] as u32,
{
}

/// A title is what is left of it, between white space.
pub proof fn law_trimming_takes_away_white_space_alone(title: Seq<char>) -> (parts: (
    Seq<char>,
    Seq<char>,
))
    ensures
        blank(parts.0),
        blank(parts.1),
        title == parts.0 + trimmed(title) + parts.1,
    decreases title.len(),
{
    if title.len() > 0 && is_white_space(title.first()) {
        let rest = title.drop_first();
        let parts = law_trimming_takes_away_white_space_alone(rest);
        let before = seq![title.first()] + parts.0;
        assert(trimmed(title) == trimmed(rest));
        assert(title =~= seq![title.first()] + rest);
        assert(seq![title.first()] + (parts.0 + trimmed(rest) + parts.1) =~= before + trimmed(rest)
            + parts.1);
        assert(blank(before)) by {
            assert forall|i: int| 0 <= i < before.len() implies is_white_space(
                #[trigger] before[i],
            ) by {
                if i > 0 {
                    assert(before[i] == parts.0[i - 1]);
                }
            }
        }
        (before, parts.1)
    } else if title.len() > 0 && is_white_space(title.last()) {
        let rest = title.drop_last();
        let parts = law_trimming_takes_away_white_space_alone(rest);
        let after = parts.1.push(title.last());
        assert(trimmed(title) == trimmed(rest));
        assert(title =~= rest.push(title.last()));
        assert((parts.0 + trimmed(rest) + parts.1).push(title.last()) =~= parts.0 + trimmed(rest)
            + after);
        (parts.0, after)
    } else {
        let none = Seq::<char>::empty();
        assert(none + title + none =~= title);
        (none, none)
    }
}

} // verus!
