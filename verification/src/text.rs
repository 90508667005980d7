//! Character-wise truncation and blankness of captured text.
use vstd::prelude::*;

verus! {

/// Characters captured on each side of the caret. Enough for the model to see
/// the sentence in progress without turning the prompt into a document dump.
pub const TEXT_WINDOW: usize = 200;

/// `String::push` appends one character to the end of the string and leaves
/// what was there before.
pub assume_specification[ String::push ](s: &mut String, c: char)
    ensures
        final(s)@ == old(s)@.push(c),
;

/// The trailing `max` characters of `text`, or all of it when it is shorter.
pub open spec fn tail_of(text: Seq<char>, max: nat) -> Seq<char> {
    if text.len() <= max {
        text
    } else {
        text.skip(text.len() - max)
    }
}

/// The leading `max` characters of `text`, or all of it when it is shorter.
pub open spec fn head_of(text: Seq<char>, max: nat) -> Seq<char> {
    if text.len() <= max {
        text
    } else {
        text.take(max as int)
    }
}

/// The characters with the Unicode property White_Space.
pub open spec fn white_space(c: char) -> bool {
    ||| '\u{9}' <= c <= '\u{d}'
    ||| c == ' '
    ||| c == '\u{85}'
    ||| c == '\u{a0}'
    ||| c == '\u{1680}'
    ||| '\u{2000}' <= c <= '\u{200a}'
    ||| c == '\u{2028}'
    ||| c == '\u{2029}'
    ||| c == '\u{202f}'
    ||| c == '\u{205f}'
    ||| c == '\u{3000}'
}

/// Nothing but white space: what trimming would leave is empty.
pub open spec fn blank(text: Seq<char>) -> bool {
    forall|i: int| 0 <= i < text.len() ==> white_space(#[trigger] text[i])
}

/// The characters of `text`, in order.
pub(crate) fn chars_of(text: &str) -> (chars: Vec<char>)
    ensures
        chars@ == text@,
{
    let mut chars: Vec<char> = Vec::new();
    for c in it: text.chars()
        invariant
            it.seq() == text@,
            chars@ == text@.take(it.index() as int),
    {
        chars.push(c);
    }
    assert(text@.take(text@.len() as int) == text@);
    chars
}

/// The string made of `chars[start..end]`.
pub(crate) fn string_of(chars: &[char], start: usize, end: usize) -> (text: String)
    requires
        start <= end <= chars@.len(),
    ensures
        text@ == chars@.subrange(start as int, end as int),
{
    let mut text = String::new();
    let mut i: usize = start;
    while i < end
        invariant
            start <= i <= end <= chars@.len(),
            text@ == chars@.subrange(start as int, i as int),
        decreases end - i,
    {
        text.push(chars[i]);
        i += 1;
    }
    text
}

/// Keep the trailing `max` characters of `text`: the part nearest the caret
/// when `text` stands before it.
pub fn tail(text: &str, max: usize) -> (kept: String)
    ensures
        kept@ == tail_of(text@, max as nat),
{
    let chars = chars_of(text);
    if chars.len() <= max {
        return text.to_string();
    }
    string_of(chars.as_slice(), chars.len() - max, chars.len())
}

/// Keep the leading `max` characters of `text`: the part nearest the caret
/// when `text` stands after it.
pub fn head(text: &str, max: usize) -> (kept: String)
    ensures
        kept@ == head_of(text@, max as nat),
{
    let chars = chars_of(text);
    if chars.len() <= max {
        return text.to_string();
    }
    string_of(chars.as_slice(), 0, max)
}

/// Whether `c` has the Unicode property White_Space.
pub fn is_white_space(c: char) -> (b: bool)
    ensures
        b == white_space(c),
{
    ('\u{9}' <= c && c <= '\u{d}') || c == ' ' || c == '\u{85}' || c == '\u{a0}' || c == '\u{1680}'
        || ('\u{2000}' <= c && c <= '\u{200a}') || c == '\u{2028}' || c == '\u{2029}' || c
        == '\u{202f}' || c == '\u{205f}' || c == '\u{3000}'
}

/// Whether `text` holds nothing but white space.
pub fn is_blank(text: &str) -> (b: bool)
    ensures
        b == blank(text@),
{
    let chars = chars_of(text);
    let mut i: usize = 0;
    while i < chars.len()
        invariant
            i <= chars@.len(),
            chars@ == text@,
            forall|j: int| 0 <= j < i ==> white_space(#[trigger] text@[j]),
        decreases chars.len() - i,
    {
        if !is_white_space(chars[i]) {
            return false;
        }
        i += 1;
    }
    true
}

/// Truncation keeps an end of the text and never more than `max` characters:
/// the tail is a suffix and the head a prefix, each as long as it may be.
pub proof fn law_truncation_keeps_the_near_end(text: Seq<char>, max: nat)
    ensures
        tail_of(text, max).len() == if text.len() <= max { text.len() } else { max },
        head_of(text, max).len() == if text.len() <= max { text.len() } else { max },
        tail_of(text, max).is_suffix_of(text),
        head_of(text, max).is_prefix_of(text),
{
    let n = text.len() as int;
    assert(text.subrange(0, n) == text);
}

/// Cutting a text in two anywhere loses nothing: the head and the tail of the
/// rest put together are the text.
pub proof fn law_head_and_tail_partition(text: Seq<char>, at: nat)
    requires
        at <= text.len(),
    ensures
        head_of(text, at) + tail_of(text, (text.len() - at) as nat) == text,
{
}

/// Truncating a second time to the same length changes nothing.
pub proof fn law_truncation_is_idempotent(text: Seq<char>, max: nat)
    ensures
        tail_of(tail_of(text, max), max) == tail_of(text, max),
        head_of(head_of(text, max), max) == head_of(text, max),
{
}

/// A truncated text is blank wherever the text itself was.
pub proof fn law_truncation_keeps_blankness(text: Seq<char>, max: nat)
    requires
        blank(text),
    ensures
        blank(tail_of(text, max)),
        blank(head_of(text, max)),
{
}

} // verus!
