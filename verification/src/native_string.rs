//! Strings handed over by the operating system as NUL-terminated UTF-8.
use vstd::prelude::*;
use vstd::utf8::{
    decode_utf8,
    encode_scalar,
    encode_utf8,
    encode_utf8_decode_utf8,
    encode_utf8_valid_utf8,
    valid_utf8,
};
use crate::utf16::{lemma_utf16_first, lemma_char_range, utf16_of, utf16_units};

verus! {

/// The bytes before the first NUL, or all of them when there is none.
pub open spec fn up_to_nul(buffer: Seq<u8>) -> Seq<u8>
    decreases buffer.len(),
{
    if buffer.len() == 0 || buffer[0] == 0 {
        seq![]
    } else {
        seq![buffer[0]] + up_to_nul(buffer.skip(1))
    }
}

/// The text in a buffer that the system filled, if it is text at all.
pub open spec fn native_text(buffer: Seq<u8>) -> Option<Seq<char>> {
    if valid_utf8(up_to_nul(buffer)) {
        Some(decode_utf8(up_to_nul(buffer)))
    } else {
        None
    }
}

/// Room for a string of `length` UTF-16 code units and the terminator.
pub open spec fn capacity_for(length: int) -> int {
    if length * 3 + 1 >= 1 {
        length * 3 + 1
    } else {
        1
    }
}

/// `String::from_utf8` gives the string that the bytes encode, and an error
/// if and only if they are not valid UTF-8.
#[verifier::external_body]
fn string_from_utf8(bytes: Vec<u8>) -> (text: Option<String>)
    ensures
        text is Some <==> valid_utf8(bytes@),
        text matches Some(t) ==> t@ == decode_utf8(bytes@),
{
    String::from_utf8(bytes).ok()
}

/// How many bytes to set aside for a string of `length` UTF-16 code units.
/// Worst case UTF-8 is 3 bytes per unit (surrogate pairs cost 4 bytes across
/// 2 units), plus the terminator.
pub fn cstring_capacity(length: isize) -> (capacity: usize)
    requires
        isize::MIN <= length * 3,
        length * 3 + 1 <= isize::MAX,
    ensures
        capacity == capacity_for(length as int),
{
    let wanted: isize = length * 3 + 1;
    if wanted < 1 {
        1
    } else {
        wanted as usize
    }
}

/// The string in a buffer that the system was asked to fill: the bytes before
/// the first NUL, where they are UTF-8. `None` stands for a buffer that could
/// not be filled.
pub fn cfstring_to_string(buffer: Option<Vec<u8>>) -> (text: Option<String>)
    ensures
        buffer is None ==> text is None,
        buffer matches Some(b) ==> (text is Some <==> native_text(b@) is Some),
        buffer matches Some(b) ==> (text matches Some(t) ==> Some(t@) == native_text(b@)),
{
    let buffer = match buffer {
        Some(buffer) => buffer,
        None => {
            return None;
        },
    };
    let mut bytes: Vec<u8> = Vec::new();
    let mut i: usize = 0;
    assert(buffer@.skip(0) == buffer@);
    while i < buffer.len() && buffer[i] != 0
        invariant
            i <= buffer@.len(),
            bytes@ + up_to_nul(buffer@.skip(i as int)) == up_to_nul(buffer@),
        decreases buffer.len() - i,
    {
        let ghost rest = buffer@.skip(i as int);
        let ghost so_far = bytes@;
        bytes.push(buffer[i]);
        assert(rest.skip(1) == buffer@.skip(i + 1));
        assert(bytes@ + up_to_nul(rest.skip(1)) == so_far + up_to_nul(rest));
        i += 1;
    }
    assert(up_to_nul(buffer@.skip(i as int)) == Seq::<u8>::empty());
    assert(bytes@ == up_to_nul(buffer@));
    string_from_utf8(bytes)
}

/// The buffer is never too small: the UTF-8 form of a string and its
/// terminator fit into the room set aside for the string's UTF-16 length.
pub proof fn law_capacity_suffices(text: Seq<char>)
    ensures
        encode_utf8(text).len() + 1 <= capacity_for(utf16_of(text).len() as int),
    decreases text.len(),
{
    if text.len() > 0 {
        law_capacity_suffices(text.drop_first());
        lemma_utf16_first(text);
        lemma_char_range(text[0]);
        assert(encode_scalar(text[0] as u32).len() <= 3 * utf16_units(text[0]).len());
    }
}

proof fn lemma_scalar_bytes_are_not_nul(scalar: u32)
    requires
        scalar != 0,
        scalar <= 0x10ffff,
    ensures
        forall|i: int| 0 <= i < encode_scalar(scalar).len() ==> encode_scalar(scalar)[i] != 0,
{
    assert(scalar <= 0x7f && scalar != 0 ==> (scalar & 0x7f) as u8 != 0) by (bit_vector);
    assert(0xc0 | ((scalar >> 6) & 0x1f) as u8 != 0) by (bit_vector);
    assert(0xe0 | ((scalar >> 12) & 0x0f) as u8 != 0) by (bit_vector);
    assert(0xf0 | ((scalar >> 18) & 0x7) as u8 != 0) by (bit_vector);
    assert(0x80 | (scalar & 0x3f) as u8 != 0) by (bit_vector);
    assert(0x80 | ((scalar >> 6) & 0x3f) as u8 != 0) by (bit_vector);
    assert(0x80 | ((scalar >> 12) & 0x3f) as u8 != 0) by (bit_vector);
}

proof fn lemma_text_without_nul(text: Seq<char>)
    requires
        !text.contains('\0'),
    ensures
        forall|i: int| 0 <= i < encode_utf8(text).len() ==> encode_utf8(text)[i] != 0,
    decreases text.len(),
{
    if text.len() > 0 {
        assert forall|i: int| 0 <= i < text.drop_first().len() implies text.drop_first()[i]
            != '\0' by {
            assert(text[i + 1] == text.drop_first()[i]);
        }
        lemma_text_without_nul(text.drop_first());
        assert(text[0] != '\0');
        lemma_char_range(text[0]);
        lemma_scalar_bytes_are_not_nul(text[0] as u32);
        let first = encode_scalar(text[0] as u32);
        let rest = encode_utf8(text.drop_first());
        assert forall|i: int| 0 <= i < encode_utf8(text).len() implies encode_utf8(text)[i]
            != 0 by {
            if i < first.len() {
                assert(encode_utf8(text)[i] == first[i]);
            } else {
                assert(encode_utf8(text)[i] == rest[i - first.len()]);
            }
        }
    }
}

pub(crate) proof fn lemma_up_to_nul(bytes: Seq<u8>, rest: Seq<u8>)
    requires
        forall|i: int| 0 <= i < bytes.len() ==> bytes[i] != 0,
    ensures
        up_to_nul(bytes + seq![0u8] + rest) == bytes,
    decreases bytes.len(),
{
    let buffer = bytes + seq![0u8] + rest;
    if bytes.len() > 0 {
        lemma_up_to_nul(bytes.skip(1), rest);
        assert(buffer.skip(1) == bytes.skip(1) + seq![0u8] + rest);
        assert(seq![bytes[0]] + bytes.skip(1) == bytes);
    }
}

/// A text without NUL is read back whole from the buffer that holds it, its
/// terminator and whatever follows.
pub proof fn law_text_is_read_back(text: Seq<char>, rest: Seq<u8>)
    requires
        !text.contains('\0'),
    ensures
        native_text(encode_utf8(text) + seq![0u8] + rest) == Some(text),
{
    lemma_text_without_nul(text);
    lemma_up_to_nul(encode_utf8(text), rest);
    encode_utf8_valid_utf8(text);
    encode_utf8_decode_utf8(text);
}

} // verus!
