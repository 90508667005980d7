//! Ranges of text around the caret, counted in UTF-16 code units as the
//! accessibility interface counts them.
use vstd::prelude::*;
use crate::text::TEXT_WINDOW;
use crate::utf16::{decode_utf16_lossy, encode_utf16};

verus! {

/// A range of code units of the focused element's text.
#[derive(Debug, Clone, Copy, PartialEq, Eq, Structural)]
pub struct TextRange {
    pub location: isize,
    pub length: isize,
}

/// Where the text before the caret ends and the text after it begins. The two
/// differ when text is selected: the selection start is the caret, and the
/// trailing context skips over the selection.
#[derive(Debug, Clone, Copy, PartialEq, Eq, Structural)]
pub struct Caret {
    pub before: isize,
    pub after: isize,
}

/// A number, or zero in place of a negative one.
pub open spec fn at_least_zero(n: int) -> int {
    if n < 0 {
        0
    } else {
        n
    }
}

impl TextRange {
    /// Where the caret is.
    pub open spec fn start(self) -> int {
        at_least_zero(self.location as int)
    }

    /// Where the selection ends.
    pub open spec fn end(self) -> int {
        self.start() + at_least_zero(self.length as int)
    }

    /// The caret that a selection stands for.
    pub open spec fn caret(self) -> Caret {
        Caret { before: self.start() as isize, after: self.end() as isize }
    }
}

impl Caret {
    /// The code units before the caret that are of interest.
    pub open spec fn range_before(self) -> TextRange {
        let start = at_least_zero(self.before - TEXT_WINDOW);
        TextRange { location: start as isize, length: (self.before - start) as isize }
    }

    /// The code units after the caret that are of interest.
    pub open spec fn range_after(self) -> TextRange {
        TextRange { location: self.after, length: TEXT_WINDOW as isize }
    }
}

/// Where a caret is in a text of `len` code units.
pub open spec fn clamped(caret: int, len: int) -> int {
    if at_least_zero(caret) < len {
        at_least_zero(caret)
    } else {
        len
    }
}

/// The code units of a text just before the caret.
pub open spec fn units_before(units: Seq<u16>, caret: int) -> Seq<u16> {
    let at = clamped(caret, units.len() as int);
    units.subrange(at_least_zero(at - TEXT_WINDOW), at)
}

/// The code units of a text just after the caret.
pub open spec fn units_after(units: Seq<u16>, caret: int) -> Seq<u16> {
    let at = clamped(caret, units.len() as int);
    let end = if at + TEXT_WINDOW < units.len() {
        at + TEXT_WINDOW
    } else {
        units.len() as int
    };
    units.subrange(at, end)
}

/// The text on both sides of the caret in the full text of an element.
pub open spec fn around(full: Seq<char>, caret: int) -> (Seq<char>, Seq<char>) {
    let units = crate::utf16::utf16_of(full);
    (
        crate::utf16::utf16_lossy(units_before(units, caret)),
        crate::utf16::utf16_lossy(units_after(units, caret)),
    )
}

/// The caret position that a selection starts at.
pub fn caret_position(range: TextRange) -> (at: isize)
    ensures
        at == range.start(),
{
    if range.location < 0 {
        0
    } else {
        range.location
    }
}

/// The caret that a selection stands for.
pub fn selected_caret(range: TextRange) -> (caret: Caret)
    requires
        range.end() <= isize::MAX,
    ensures
        caret == range.caret(),
{
    let before: isize = caret_position(range);
    let skipped: isize = if range.length < 0 {
        0
    } else {
        range.length
    };
    Caret { before, after: before + skipped }
}

/// The range to read for the text before the caret.
pub fn range_before(caret: Caret) -> (range: TextRange)
    ensures
        range == caret.range_before(),
{
    let start: isize = if caret.before < TEXT_WINDOW as isize {
        0
    } else {
        caret.before - TEXT_WINDOW as isize
    };
    TextRange { location: start, length: caret.before - start }
}

/// The range to read for the text after the caret.
pub fn range_after(caret: Caret) -> (range: TextRange)
    ensures
        range == caret.range_after(),
{
    TextRange { location: caret.after, length: TEXT_WINDOW as isize }
}

/// The range to ask the element for: none when there is nothing to read.
pub fn string_for_range(location: isize, length: isize) -> (range: Option<TextRange>)
    ensures
        range == if length <= 0 {
            None
        } else {
            Some(TextRange { location, length })
        },
{
    if length <= 0 {
        return None;
    }
    Some(TextRange { location, length })
}

/// The text on both sides of the caret, for elements that only report their
/// full text. Offsets are UTF-16 units, so it is cut in UTF-16 to stay correct
/// for emoji and other astral characters.
pub fn slice_full_value(full: &str, caret: isize) -> (sides: (String, String))
    ensures
        (sides.0@, sides.1@) == around(full@, caret as int),
{
    let units = encode_utf16(full);
    let len: usize = units.len();
    let at: usize = if caret < 0 {
        0
    } else {
        caret as usize
    };
    let at: usize = if at < len {
        at
    } else {
        len
    };
    let start: usize = if at < TEXT_WINDOW {
        0
    } else {
        at - TEXT_WINDOW
    };
    let end: usize = if len - at > TEXT_WINDOW {
        at + TEXT_WINDOW
    } else {
        len
    };
    (decode_utf16_lossy(units.as_slice(), start, at), decode_utf16_lossy(units.as_slice(), at, end))
}

/// The ranges read around a caret meet it: the one before it ends where the
/// caret is and starts no earlier than the text, the one after it begins where
/// the selection ends, and neither is longer than [`TEXT_WINDOW`].
pub proof fn law_ranges_meet_the_caret(range: TextRange)
    requires
        range.end() <= isize::MAX,
    ensures
        ({
            let before = range.caret().range_before();
            let after = range.caret().range_after();
            &&& before.location >= 0
            &&& before.location + before.length == range.start()
            &&& 0 <= before.length <= TEXT_WINDOW
            &&& before.length == TEXT_WINDOW || before.location == 0
            &&& after.location == range.end()
            &&& after.length == TEXT_WINDOW
        }),
{
}

/// Cutting in UTF-16 is correct for every character: where the ends of the
/// selection and of the window fall between characters, the two sides are
/// exactly the characters between them, and the selection is in neither. With
/// nothing selected both cuts are at the caret.
pub proof fn law_cut_between_characters_is_exact(
    far_before: Seq<char>,
    before: Seq<char>,
    selected: Seq<char>,
    after: Seq<char>,
    far_after: Seq<char>,
)
    requires
        crate::utf16::utf16_of(before).len() == TEXT_WINDOW || (crate::utf16::utf16_of(before).len()
            < TEXT_WINDOW && far_before.len() == 0),
        crate::utf16::utf16_of(after).len() == TEXT_WINDOW || (crate::utf16::utf16_of(after).len()
            < TEXT_WINDOW && far_after.len() == 0),
    ensures
        ({
            let full = far_before + before + selected + after + far_after;
            let start = crate::utf16::utf16_of(far_before + before).len() as int;
            let end = start + crate::utf16::utf16_of(selected).len();
            around(full, start).0 == before && around(full, end).1 == after
        }),
{
    let full = far_before + before + selected + after + far_after;
    let u0 = crate::utf16::utf16_of(far_before);
    let u1 = crate::utf16::utf16_of(before);
    let u2 = crate::utf16::utf16_of(selected);
    let u3 = crate::utf16::utf16_of(after);
    let u4 = crate::utf16::utf16_of(far_after);
    crate::utf16::law_utf16_of_concatenation(far_before, before);
    crate::utf16::law_utf16_of_concatenation(far_before + before, selected);
    crate::utf16::law_utf16_of_concatenation(far_before + before + selected, after);
    crate::utf16::law_utf16_of_concatenation(far_before + before + selected + after, far_after);
    let units = crate::utf16::utf16_of(full);
    assert(units == u0 + u1 + u2 + u3 + u4);
    let start = (u0 + u1).len() as int;
    let end = start + u2.len();
    if far_before.len() == 0 {
        assert(u0.len() == 0);
    }
    if far_after.len() == 0 {
        assert(u4.len() == 0);
    }
    assert(units_before(units, start) == u1);
    assert(units_after(units, end) == u3);
    crate::utf16::law_utf16_round_trip(before);
    crate::utf16::law_utf16_round_trip(after);
}

/// Neither side of a cut is longer than [`TEXT_WINDOW`] characters.
pub proof fn law_cut_is_bounded(full: Seq<char>, caret: int)
    ensures
        around(full, caret).0.len() <= TEXT_WINDOW,
        around(full, caret).1.len() <= TEXT_WINDOW,
{
    let units = crate::utf16::utf16_of(full);
    crate::utf16::law_decoding_does_not_grow(units_before(units, caret));
    crate::utf16::law_decoding_does_not_grow(units_after(units, caret));
}

} // verus!
