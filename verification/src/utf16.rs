//! UTF-16, the encoding in which the accessibility interface counts offsets.
use vstd::prelude::*;
use vstd::utf8::is_scalar;
use crate::text::chars_of;

verus! {

/// `char::from_u32` gives the character with the number `i`, and nothing for
/// a number that is no Unicode scalar value.
pub assume_specification[ char::from_u32 ](i: u32) -> (c: Option<char>)
    ensures
        c is Some <==> is_scalar(i),
        c matches Some(found) ==> found as u32 == i,
;

/// What stands in for an unpaired surrogate.
pub open spec fn replacement() -> char {
    '\u{fffd}'
}

pub open spec fn is_high_surrogate(unit: u16) -> bool {
    0xd800 <= unit <= 0xdbff
}

pub open spec fn is_low_surrogate(unit: u16) -> bool {
    0xdc00 <= unit <= 0xdfff
}

/// The code units of one character.
pub open spec fn utf16_units(c: char) -> Seq<u16> {
    let v = c as int;
    if v < 0x10000 {
        seq![v as u16]
    } else {
        seq![(0xd800 + (v - 0x10000) / 0x400) as u16, (0xdc00 + (v - 0x10000) % 0x400) as u16]
    }
}

/// The code units of a text.
pub open spec fn utf16_of(text: Seq<char>) -> Seq<u16>
    decreases text.len(),
{
    if text.len() == 0 {
        seq![]
    } else {
        utf16_of(text.drop_last()) + utf16_units(text.last())
    }
}

/// The character that a pair of surrogates stands for.
pub open spec fn paired(high: u16, low: u16) -> char {
    (0x10000 + (high - 0xd800) * 0x400 + (low - 0xdc00)) as char
}

/// The text that code units stand for, with every unpaired surrogate replaced.
pub open spec fn utf16_lossy(units: Seq<u16>) -> Seq<char>
    decreases units.len(),
{
    if units.len() == 0 {
        seq![]
    } else if units.len() > 1 && is_high_surrogate(units[0]) && is_low_surrogate(units[1]) {
        seq![paired(units[0], units[1])] + utf16_lossy(units.skip(2))
    } else if is_high_surrogate(units[0]) || is_low_surrogate(units[0]) {
        seq![replacement()] + utf16_lossy(units.skip(1))
    } else {
        seq![units[0] as char] + utf16_lossy(units.skip(1))
    }
}

/// A character is a Unicode scalar value.
pub(crate) proof fn lemma_char_range(c: char)
    ensures
        0 <= c as int <= 0xd7ff || 0xe000 <= c as int <= 0x10ffff,
        c as u32 == c as int,
{
}

/// The code units of `text`.
pub fn encode_utf16(text: &str) -> (units: Vec<u16>)
    ensures
        units@ == utf16_of(text@),
{
    let chars = chars_of(text);
    let mut units: Vec<u16> = Vec::new();
    let mut i: usize = 0;
    assert(text@.take(0) == Seq::<char>::empty());
    while i < chars.len()
        invariant
            i <= chars@.len(),
            chars@ == text@,
            units@ == utf16_of(text@.take(i as int)),
        decreases chars.len() - i,
    {
        let c: char = chars[i];
        proof {
            lemma_char_range(c);
        }
        let v: u32 = c as u32;
        if v < 0x10000 {
            units.push(v as u16);
        } else {
            let rest: u32 = v - 0x10000;
            units.push((0xd800 + rest / 0x400) as u16);
            units.push((0xdc00 + rest % 0x400) as u16);
        }
        assert(text@.take(i + 1).drop_last() == text@.take(i as int));
        assert(text@.take(i + 1).last() == c);
        i += 1;
        assert(units@ == utf16_of(text@.take(i as int)));
    }
    assert(text@.take(i as int) == text@);
    units
}

/// The character with the number `v`.
fn scalar_char(v: u32) -> (c: char)
    requires
        is_scalar(v),
    ensures
        c as u32 == v,
{
    match char::from_u32(v) {
        Some(c) => c,
        None => '\u{fffd}',
    }
}

/// Decodes `units[start..end]`, with `U+FFFD` for every unpaired surrogate.
pub fn decode_utf16_lossy(units: &[u16], start: usize, end: usize) -> (text: String)
    requires
        start <= end <= units@.len(),
    ensures
        text@ == utf16_lossy(units@.subrange(start as int, end as int)),
{
    let ghost all = units@.subrange(start as int, end as int);
    let mut text = String::new();
    let mut i: usize = start;
    assert(all.skip(0) == all);
    while i < end
        invariant
            start <= i <= end <= units@.len(),
            all == units@.subrange(start as int, end as int),
            text@ + utf16_lossy(all.skip(i - start)) == utf16_lossy(all),
        decreases end - i,
    {
        let ghost rest = all.skip(i - start);
        let ghost so_far = text@;
        let unit: u16 = units[i];
        assert(rest[0] == unit);
        if 0xd800 <= unit && unit <= 0xdbff && end - i > 1 && 0xdc00 <= units[i + 1] && units[i + 1]
            <= 0xdfff {
            let low: u16 = units[i + 1];
            assert(rest[1] == low);
            let c = scalar_char(
                0x10000 + (unit as u32 - 0xd800) * 0x400 + (low as u32 - 0xdc00),
            );
            assert(c == paired(unit, low));
            text.push(c);
            i += 2;
            assert(rest.skip(2) == all.skip(i - start));
            assert(text@ + utf16_lossy(all.skip(i - start)) == so_far + utf16_lossy(rest));
        } else {
            let c = if 0xd800 <= unit && unit <= 0xdfff {
                '\u{fffd}'
            } else {
                scalar_char(unit as u32)
            };
            text.push(c);
            i += 1;
            assert(rest.skip(1) == all.skip(i - start));
            assert(text@ + utf16_lossy(all.skip(i - start)) == so_far + utf16_lossy(rest));
        }
    }
    assert(all.skip(i - start) == Seq::<u16>::empty());
    assert(text@ == utf16_lossy(all));
    text
}

/// The code units of two texts in a row are those of the first and then those
/// of the second.
pub proof fn law_utf16_of_concatenation(a: Seq<char>, b: Seq<char>)
    ensures
        utf16_of(a + b) == utf16_of(a) + utf16_of(b),
    decreases b.len(),
{
    if b.len() == 0 {
        assert(a + b == a);
    } else {
        law_utf16_of_concatenation(a, b.drop_last());
        assert((a + b).drop_last() == a + b.drop_last());
    }
}

pub(crate) proof fn lemma_utf16_first(text: Seq<char>)
    requires
        text.len() > 0,
    ensures
        utf16_of(text) == utf16_units(text[0]) + utf16_of(text.drop_first()),
{
    let one = seq![text[0]];
    assert(one + text.drop_first() == text);
    law_utf16_of_concatenation(one, text.drop_first());
    assert(one.drop_last() == Seq::<char>::empty());
    assert(utf16_of(one) == utf16_of(one.drop_last()) + utf16_units(one.last()));
    assert(utf16_of(one.drop_last()) == Seq::<u16>::empty());
    assert(utf16_of(one) == utf16_units(text[0]));
}

/// Decoding the code units of a text gives the text back.
pub proof fn law_utf16_round_trip(text: Seq<char>)
    ensures
        utf16_lossy(utf16_of(text)) == text,
    decreases text.len(),
{
    if text.len() > 0 {
        let c = text[0];
        let rest = text.drop_first();
        let units = utf16_of(text);
        lemma_utf16_first(text);
        law_utf16_round_trip(rest);
        lemma_char_range(c);
        if (c as int) < 0x10000 {
            assert(units.skip(1) == utf16_of(rest));
            assert(!is_high_surrogate(units[0]) && !is_low_surrogate(units[0]));
        } else {
            assert(units.skip(2) == utf16_of(rest));
            assert(paired(units[0], units[1]) == c);
        }
        assert(seq![c] + rest == text);
    }
}

/// A character is one code unit, or two outside the basic plane.
pub proof fn law_utf16_length(text: Seq<char>)
    ensures
        text.len() <= utf16_of(text).len() <= 2 * text.len(),
    decreases text.len(),
{
    if text.len() > 0 {
        law_utf16_length(text.drop_last());
    }
}

/// Decoding never gives more characters than there are code units.
pub proof fn law_decoding_does_not_grow(units: Seq<u16>)
    ensures
        utf16_lossy(units).len() <= units.len(),
    decreases units.len(),
{
    if units.len() > 0 {
        law_decoding_does_not_grow(units.skip(1));
        if units.len() > 1 {
            law_decoding_does_not_grow(units.skip(2));
        }
    }
}

} // verus!
