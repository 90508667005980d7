//! UTF-16, native strings and base64.
use vstd::prelude::*;
use vstd::utf8::{decode_utf8, valid_utf8};
use crate::base64::base64_encode;
use crate::native_string::{cfstring_to_string, cstring_capacity};
use crate::screenshot::{capture_rect, encode_png, Shot};
use crate::text_range::slice_full_value;
use crate::utf16::{decode_utf16_lossy, encode_utf16};

verus! {

/// A character below U+10000 is one code unit, its own number; any other is two,
/// a high surrogate for the upper ten bits of its distance from U+10000 and a
/// low one for the lower ten.
pub proof fn law_code_units_of_a_character(text: &str, units: Vec<u16>, c: char)
    requires
        call_ensures(encode_utf16, (text,), units),
        text@ == seq![c],
    ensures
        (c as u32) < 65536 ==> units@.len() == 1 && units@[0] == c as u32,
        (c as u32) >= 65536 ==> {
            &&& units@.len() == 2
            &&& 55296 <= units@[0] < 56320
            &&& 56320 <= units@[1] < 57344
            &&& (units@[0] - 55296) * 1024 + (units@[1] - 56320) == (c as u32) - 65536
        },
{
    let one = seq![c];
    crate::utf16::lemma_utf16_first(one);
    crate::utf16::lemma_char_range(c);
    assert(one.drop_first() == Seq::<char>::empty());
    assert(crate::utf16::utf16_of(one.drop_first()) == Seq::<u16>::empty());
    assert(units@ == crate::utf16::utf16_units(c));
}

/// The code units of two texts in a row are those of the first and then those
/// of the second.
pub proof fn law_code_units_in_a_row(
    a: &str,
    b: &str,
    both: &str,
    a_units: Vec<u16>,
    b_units: Vec<u16>,
    both_units: Vec<u16>,
)
    requires
        call_ensures(encode_utf16, (a,), a_units),
        call_ensures(encode_utf16, (b,), b_units),
        call_ensures(encode_utf16, (both,), both_units),
        both@ == a@ + b@,
    ensures
        both_units@ == a_units@ + b_units@,
{
    crate::utf16::law_utf16_of_concatenation(a@, b@);
}

/// A text of characters below U+10000 has as many code units as characters,
/// each the number of its character.
pub proof fn law_code_units_of_basic_text(text: &str, units: Vec<u16>)
    requires
        call_ensures(encode_utf16, (text,), units),
        forall|i: int| 0 <= i < text@.len() ==> (#[trigger] text@[i] as u32) < 65536,
    ensures
        units@.len() == text@.len(),
        forall|i: int| 0 <= i < text@.len() ==> #[trigger] units@[i] == text@[i] as u32,
{
    lemma_basic_units(text@);
}

pub(crate) proof fn lemma_basic_units(text: Seq<char>)
    requires
        forall|i: int| 0 <= i < text.len() ==> (#[trigger] text[i] as u32) < 65536,
    ensures
        crate::utf16::utf16_of(text).len() == text.len(),
        forall|i: int|
            0 <= i < text.len() ==> #[trigger] crate::utf16::utf16_of(text)[i] == text[i] as u32,
    decreases text.len(),
{
    if text.len() > 0 {
        let shorter = text.drop_last();
        assert forall|i: int| 0 <= i < shorter.len() implies (#[trigger] shorter[i] as u32)
            < 65536 by {
            assert(shorter[i] == text[i]);
        }
        lemma_basic_units(shorter);
        crate::utf16::lemma_char_range(text.last());
        assert((text[text.len() - 1] as u32) < 65536);
        assert forall|i: int| 0 <= i < text.len() implies #[trigger] crate::utf16::utf16_of(text)[i]
            == text[i] as u32 by {
            if i < shorter.len() {
                assert(crate::utf16::utf16_of(text)[i] == crate::utf16::utf16_of(shorter)[i]);
                assert(shorter[i] == text[i]);
            }
        }
    }
}

/// Decoding reads one character at a time. A unit that is no surrogate is the
/// character of its number. A high surrogate and a low one behind it are the
/// character that far from U+10000. Any other surrogate becomes U+FFFD, alone.
/// What follows is decoded on its own.
pub proof fn law_decoding_by_the_first_unit(
    units: &[u16],
    start: usize,
    end: usize,
    text: String,
    rest_from: usize,
    rest: String,
)
    requires
        start < end <= units@.len(),
        call_ensures(decode_utf16_lossy, (units, start, end), text),
        call_ensures(decode_utf16_lossy, (units, rest_from, end), rest),
        rest_from == if start + 1 < end && 55296 <= units@[start as int] < 56320 && 56320
            <= units@[start + 1] < 57344 {
            start + 2
        } else {
            start + 1
        },
    ensures
        text@.len() == rest@.len() + 1,
        text@.skip(1) == rest@,
        rest_from == start + 2 ==> text@[0] as u32 == 65536 + (units@[start as int] - 55296) * 1024
            + (units@[start + 1] - 56320),
        rest_from == start + 1 && 55296 <= units@[start as int] < 57344 ==> text@[0] as u32
            == 65533,
        !(55296 <= units@[start as int] < 57344) ==> text@[0] as u32 == units@[start as int],
{
    let all = units@.subrange(start as int, end as int);
    assert(all[0] == units@[start as int]);
    if start + 1 < end {
        assert(all[1] == units@[start + 1]);
    }
    assert(all.skip(rest_from - start) == units@.subrange(rest_from as int, end as int));
    if rest_from == start + 2 {
        let n = 65536 + (all[0] - 55296) * 1024 + (all[1] - 56320);
        assert(65536 <= n <= 1114111);
        assert(n as char as u32 == n);
    }
}

/// Nothing decodes to nothing.
pub proof fn law_decoding_nothing(units: &[u16], at: usize, text: String)
    requires
        at <= units@.len(),
        call_ensures(decode_utf16_lossy, (units, at, at), text),
    ensures
        text@.len() == 0,
{
}

/// Decoding the code units of a text gives the text back.
pub proof fn law_decoding_undoes_encoding(
    text: &str,
    units: Vec<u16>,
    slice: &[u16],
    end: usize,
    back: String,
)
    requires
        call_ensures(encode_utf16, (text,), units),
        slice@ == units@,
        end == units@.len(),
        call_ensures(decode_utf16_lossy, (slice, 0, end), back),
    ensures
        back@ == text@,
{
    assert(slice@.subrange(0, end as int) == units@);
    crate::utf16::law_utf16_round_trip(text@);
}

/// In a text of characters below U+10000 an offset counts characters: cut behind
/// its first `caret` characters, the text gives the last 200 of these and the
/// first 200 of the others. A negative offset is the start of the text, and one
/// past its end is its end.
pub proof fn law_cut_of_basic_text(full: &str, caret: isize, sides: (String, String))
    requires
        call_ensures(slice_full_value, (full, caret), sides),
        forall|i: int| 0 <= i < full@.len() ==> (#[trigger] full@[i] as u32) < 65536,
    ensures
        ({
            let n = full@.len() as int;
            let at = if caret < 0 {
                0
            } else if caret > n {
                n
            } else {
                caret as int
            };
            &&& sides.0@ == full@.subrange(
                if at > 200 {
                    at - 200
                } else {
                    0
                },
                at,
            )
            &&& sides.1@ == full@.subrange(
                at,
                if at + 200 < n {
                    at + 200
                } else {
                    n
                },
            )
        }),
{
    let n = full@.len() as int;
    let at = if caret < 0 {
        0
    } else if caret > n {
        n
    } else {
        caret as int
    };
    let from = if at > 200 {
        at - 200
    } else {
        0
    };
    let to = if at + 200 < n {
        at + 200
    } else {
        n
    };
    lemma_basic_units(full@);
    lemma_basic_stretch(full@, from, at);
    lemma_basic_stretch(full@, at, to);
}

/// A stretch of the code units of a basic text decodes to that stretch of it.
proof fn lemma_basic_stretch(text: Seq<char>, from: int, to: int)
    requires
        0 <= from <= to <= text.len(),
        forall|i: int| 0 <= i < text.len() ==> (#[trigger] text[i] as u32) < 65536,
    ensures
        crate::utf16::utf16_of(text).len() == text.len(),
        crate::utf16::utf16_lossy(crate::utf16::utf16_of(text).subrange(from, to))
            == text.subrange(from, to),
{
    let part = text.subrange(from, to);
    assert forall|i: int| 0 <= i < part.len() implies (#[trigger] part[i] as u32) < 65536 by {
        assert(part[i] == text[from + i]);
    }
    lemma_basic_units(text);
    lemma_basic_units(part);
    assert forall|i: int| 0 <= i < part.len() implies crate::utf16::utf16_of(text).subrange(
        from,
        to,
    )[i] == crate::utf16::utf16_of(part)[i] by {
        assert(part[i] == text[from + i]);
        assert(crate::utf16::utf16_of(text)[from + i] == text[from + i] as u32);
    }
    assert(crate::utf16::utf16_of(text).subrange(from, to) == crate::utf16::utf16_of(part));
    crate::utf16::law_utf16_round_trip(part);
}

/// The two sides of any text are the 200 code units before the offset and the
/// 200 after it, decoded, or as many as there are.
pub proof fn law_cut_is_made_in_code_units(
    full: &str,
    caret: isize,
    sides: (String, String),
    units: Vec<u16>,
    slice: &[u16],
    from: usize,
    at: usize,
    to: usize,
    before: String,
    after: String,
)
    requires
        call_ensures(slice_full_value, (full, caret), sides),
        call_ensures(encode_utf16, (full,), units),
        slice@ == units@,
        at == if caret < 0 {
            0
        } else if caret > units@.len() {
            units@.len() as int
        } else {
            caret as int
        },
        from == if at > 200 {
            at - 200
        } else {
            0
        },
        to == if at + 200 < units@.len() {
            at + 200
        } else {
            units@.len() as int
        },
        call_ensures(decode_utf16_lossy, (slice, from, at), before),
        call_ensures(decode_utf16_lossy, (slice, at, to), after),
    ensures
        sides.0@ == before@,
        sides.1@ == after@,
{
}

/// Cut between characters, a text gives the characters themselves: where
/// nothing is further than 200 code units from the cut, the two sides put
/// together are the text.
pub proof fn law_cut_between_characters(
    a: &str,
    b: &str,
    both: &str,
    a_units: Vec<u16>,
    b_units: Vec<u16>,
    caret: isize,
    sides: (String, String),
)
    requires
        both@ == a@ + b@,
        call_ensures(encode_utf16, (a,), a_units),
        call_ensures(encode_utf16, (b,), b_units),
        a_units@.len() <= 200,
        b_units@.len() <= 200,
        caret == a_units@.len(),
        call_ensures(slice_full_value, (both, caret), sides),
    ensures
        sides.0@ == a@,
        sides.1@ == b@,
{
    let none = Seq::<char>::empty();
    assert(none + a@ + none + b@ + none == both@);
    assert(none + a@ == a@);
    assert(crate::utf16::utf16_of(none).len() == 0);
    crate::text_range::law_cut_between_characters_is_exact(none, a@, none, b@, none);
}

/// Three bytes are four digits of the standard alphabet, six bits each, from the
/// top bit of the first byte to the lowest of the last.
pub proof fn law_base64_of_three_bytes(bytes: &[u8], text: String)
    requires
        call_ensures(base64_encode, (bytes,), text),
        bytes@.len() == 3,
    ensures
        ({
            let digits = "ABCDEFGHIJKLMNOPQRSTUVWXYZabcdefghijklmnopqrstuvwxyz0123456789+/"@;
            let b0 = bytes@[0] as int;
            let b1 = bytes@[1] as int;
            let b2 = bytes@[2] as int;
            &&& text@.len() == 4
            &&& text@[0] == digits[b0 / 4]
            &&& text@[1] == digits[b0 % 4 * 16 + b1 / 16]
            &&& text@[2] == digits[b1 % 16 * 4 + b2 / 64]
            &&& text@[3] == digits[b2 % 64]
        }),
{
    let b0 = bytes@[0] as int;
    let b1 = bytes@[1] as int;
    let b2 = bytes@[2] as int;
    lemma_first_group(bytes@);
    lemma_alphabet(b0 / 4);
    lemma_alphabet(b0 % 4 * 16 + b1 / 16);
    lemma_alphabet(b1 % 16 * 4 + b2 / 64);
    lemma_alphabet(b2 % 64);
}

/// Two bytes are three digits and one padding character, the missing bits zero.
pub proof fn law_base64_of_two_bytes(bytes: &[u8], text: String)
    requires
        call_ensures(base64_encode, (bytes,), text),
        bytes@.len() == 2,
    ensures
        ({
            let digits = "ABCDEFGHIJKLMNOPQRSTUVWXYZabcdefghijklmnopqrstuvwxyz0123456789+/"@;
            let b0 = bytes@[0] as int;
            let b1 = bytes@[1] as int;
            &&& text@.len() == 4
            &&& text@[0] == digits[b0 / 4]
            &&& text@[1] == digits[b0 % 4 * 16 + b1 / 16]
            &&& text@[2] == digits[b1 % 16 * 4]
            &&& text@[3] == '='
        }),
{
    let b0 = bytes@[0] as int;
    let b1 = bytes@[1] as int;
    lemma_first_group(bytes@);
    lemma_alphabet(b0 / 4);
    lemma_alphabet(b0 % 4 * 16 + b1 / 16);
    lemma_alphabet(b1 % 16 * 4);
}

/// One byte is two digits and two padding characters, the missing bits zero.
pub proof fn law_base64_of_one_byte(bytes: &[u8], text: String)
    requires
        call_ensures(base64_encode, (bytes,), text),
        bytes@.len() == 1,
    ensures
        ({
            let digits = "ABCDEFGHIJKLMNOPQRSTUVWXYZabcdefghijklmnopqrstuvwxyz0123456789+/"@;
            let b0 = bytes@[0] as int;
            &&& text@.len() == 4
            &&& text@[0] == digits[b0 / 4]
            &&& text@[1] == digits[b0 % 4 * 16]
            &&& text@[2] == '='
            &&& text@[3] == '='
        }),
{
    let b0 = bytes@[0] as int;
    lemma_first_group(bytes@);
    lemma_alphabet(b0 / 4);
    lemma_alphabet(b0 % 4 * 16);
}

/// Groups of three bytes are encoded one after another: the encoding of bytes in
/// a row is the encodings in a row, where the first of them leave no group
/// begun.
pub proof fn law_base64_in_a_row(
    a: &[u8],
    b: &[u8],
    both: &[u8],
    a_text: String,
    b_text: String,
    both_text: String,
)
    requires
        call_ensures(base64_encode, (a,), a_text),
        call_ensures(base64_encode, (b,), b_text),
        call_ensures(base64_encode, (both,), both_text),
        both@ == a@ + b@,
        a@.len() % 3 == 0,
    ensures
        both_text@ == a_text@ + b_text@,
{
    let n = a@.len() as int;
    let groups = n / 3;
    assert(n == 3 * groups);
    assert(a_text@.len() == 4 * groups);
    assert(both_text@.len() == a_text@.len() + b_text@.len());
    assert forall|i: int| 0 <= i < both_text@.len() implies both_text@[i] == (a_text@
        + b_text@)[i] by {
        if i < 4 * groups {
            let g = i / 4;
            assert(3 * g + 2 < n);
            assert(crate::base64::group_value(both@, g) == crate::base64::group_value(a@, g));
        } else {
            let j = i - 4 * groups;
            assert(i / 4 == j / 4 + groups && i % 4 == j % 4);
            assert(crate::base64::group_value(both@, i / 4) == crate::base64::group_value(
                b@,
                j / 4,
            ));
        }
    }
}

/// No bytes are no text.
pub proof fn law_base64_of_nothing(bytes: &[u8], text: String)
    requires
        call_ensures(base64_encode, (bytes,), text),
        bytes@.len() == 0,
    ensures
        text@.len() == 0,
{
}

proof fn lemma_alphabet(value: int)
    requires
        0 <= value < 64,
    ensures
        "ABCDEFGHIJKLMNOPQRSTUVWXYZabcdefghijklmnopqrstuvwxyz0123456789+/"@[value]
            == crate::base64::digit(value),
{
    reveal_strlit("ABCDEFGHIJKLMNOPQRSTUVWXYZabcdefghijklmnopqrstuvwxyz0123456789+/");
}

proof fn lemma_first_group(bytes: Seq<u8>)
    requires
        0 < bytes.len() <= 3,
    ensures
        ({
            let text = crate::base64::base64_of(bytes);
            let b0 = bytes[0] as int;
            let b1 = if bytes.len() > 1 {
                bytes[1] as int
            } else {
                0
            };
            let b2 = if bytes.len() > 2 {
                bytes[2] as int
            } else {
                0
            };
            &&& text.len() == 4
            &&& text[0] == crate::base64::digit(b0 / 4)
            &&& text[1] == crate::base64::digit(b0 % 4 * 16 + b1 / 16)
            &&& text[2] == if bytes.len() > 1 {
                crate::base64::digit(b1 % 16 * 4 + b2 / 64)
            } else {
                '='
            }
            &&& text[3] == if bytes.len() > 2 {
                crate::base64::digit(b2 % 64)
            } else {
                '='
            }
        }),
{
    let b1 = if bytes.len() > 1 {
        bytes[1]
    } else {
        0
    };
    let b2 = if bytes.len() > 2 {
        bytes[2]
    } else {
        0
    };
    lemma_six_bits_each(bytes[0], b1, b2);
    let text = crate::base64::base64_of(bytes);
    assert(crate::base64::group_value(bytes, 0) == bytes[0] * 65536 + b1 * 256 + b2);
    assert(text[0] == crate::base64::encoded_char(bytes, 0));
    assert(text[1] == crate::base64::encoded_char(bytes, 1));
    assert(text[2] == crate::base64::encoded_char(bytes, 2));
    assert(text[3] == crate::base64::encoded_char(bytes, 3));
}

proof fn lemma_six_bits_each(b0: u8, b1: u8, b2: u8)
    ensures
        ({
            let value = b0 * 65536 + b1 * 256 + b2;
            &&& value / 262144 == b0 as int / 4
            &&& value / 4096 % 64 == b0 as int % 4 * 16 + b1 as int / 16
            &&& value / 64 % 64 == b1 as int % 16 * 4 + b2 as int / 64
            &&& value % 64 == b2 as int % 64
        }),
{
    let d0 = b0 as int / 4;
    let d1 = b0 as int % 4 * 16 + b1 as int / 16;
    let d2 = b1 as int % 16 * 4 + b2 as int / 64;
    let d3 = b2 as int % 64;
    assert(b0 == d0 * 4 + b0 as int % 4);
    assert(b1 == b1 as int / 16 * 16 + b1 as int % 16);
    assert(b2 == b2 as int / 64 * 64 + d3);
    lemma_digits_of(d0, d1, d2, d3);
}

proof fn lemma_digits_of(d0: int, d1: int, d2: int, d3: int)
    requires
        0 <= d0 < 64,
        0 <= d1 < 64,
        0 <= d2 < 64,
        0 <= d3 < 64,
    ensures
        ({
            let value = d0 * 262144 + d1 * 4096 + d2 * 64 + d3;
            &&& value / 262144 == d0
            &&& value / 4096 % 64 == d1
            &&& value / 64 % 64 == d2
            &&& value % 64 == d3
        }),
{
    let value = d0 * 262144 + d1 * 4096 + d2 * 64 + d3;
    assert(value / 4096 == d0 * 64 + d1);
    assert(value / 64 == d0 * 4096 + d1 * 64 + d2);
}

/// Every image with any bytes in it has a text, the base64 form of all of them,
/// which decodes to them; one without bytes has none.
pub proof fn law_png_text_is_there(png: &[u8], text: Option<String>)
    requires
        call_ensures(encode_png, (png,), text),
    ensures
        text is Some <==> png@.len() > 0,
        text matches Some(t) ==> {
            &&& crate::base64::base64_decoded(t@) == png@
            &&& t@.len() == (png@.len() + 2) / 3 * 4
            &&& forall|same: String| #[trigger] call_ensures(base64_encode, (png,), same)
                ==> same@ == t@
        },
{
    crate::base64::law_base64_round_trip(png@);
}

/// A shot gives a text exactly when it is an image with any bytes in it, and
/// then the image's text.
pub proof fn law_shot_text_is_that_of_its_image(shot: Shot, text: Option<String>)
    requires
        call_ensures(capture_rect, (shot,), text),
    ensures
        text is Some <==> shot is Png && shot->Png_0@.len() > 0,
        text matches Some(t) ==> {
            &&& crate::base64::base64_decoded(t@) == shot->Png_0@
            &&& forall|png: &[u8], same: String|
                png@ == shot->Png_0@ && #[trigger] call_ensures(base64_encode, (png,), same)
                    ==> same@ == t@
        },
{
    if let Shot::Png(png) = shot {
        crate::base64::law_base64_round_trip(png@);
    }
}

/// A native string is read up to its terminator, or to the end of a buffer
/// without one: it is the text that the bytes before stand for, where they are
/// valid UTF-8, and nothing otherwise. What follows the terminator does not
/// matter.
pub proof fn law_native_string_ends_at_the_first_nul(
    buffer: Vec<u8>,
    bytes: Seq<u8>,
    rest: Seq<u8>,
    text: Option<String>,
)
    requires
        call_ensures(cfstring_to_string, (Some(buffer),), text),
        forall|i: int| 0 <= i < bytes.len() ==> bytes[i] != 0,
        buffer@ == bytes || buffer@ == bytes + seq![0u8] + rest,
    ensures
        text is Some <==> valid_utf8(bytes),
        text matches Some(t) ==> t@ == decode_utf8(bytes),
{
    if buffer@ == bytes {
        lemma_without_nul(bytes);
    } else {
        crate::native_string::lemma_up_to_nul(bytes, rest);
    }
}

proof fn lemma_without_nul(bytes: Seq<u8>)
    requires
        forall|i: int| 0 <= i < bytes.len() ==> bytes[i] != 0,
    ensures
        crate::native_string::up_to_nul(bytes) == bytes,
    decreases bytes.len(),
{
    if bytes.len() > 0 {
        lemma_without_nul(bytes.skip(1));
        assert(seq![bytes[0]] + bytes.skip(1) == bytes);
    }
}

/// A string that could not be had is none.
pub proof fn law_no_native_string(text: Option<String>)
    requires
        call_ensures(cfstring_to_string, (None::<Vec<u8>>,), text),
    ensures
        text is None,
{
}

/// Three bytes are set aside for each code unit and one for the terminator; a
/// negative length counts as none.
pub proof fn law_room_for_a_native_string(length: isize, capacity: usize)
    requires
        call_ensures(cstring_capacity, (length,), capacity),
    ensures
        length >= 0 ==> capacity == length + length + length + 1,
        length < 0 ==> capacity == 1,
{
}

} // verus!
