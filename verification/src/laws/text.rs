//! Truncation, white space, and when a context counts as empty.
use vstd::prelude::*;
use crate::context_capture::CaretContext;
use crate::text::{head, is_blank, is_white_space, tail};

verus! {

/// `tail` cuts off the front and nothing else: what it keeps ends the text, and
/// is `max` characters long unless the text is shorter.
pub proof fn law_tail_cuts_off_the_front(text: &str, max: usize, kept: String)
    requires
        call_ensures(tail, (text, max), kept),
    ensures
        kept@.len() <= max,
        kept@.len() < max ==> kept@ == text@,
        kept@.len() <= text@.len(),
        forall|i: int|
            0 <= i < kept@.len() ==> #[trigger] kept@[i] == text@[text@.len() - kept@.len() + i],
        text@.len() <= max ==> kept@ == text@,
{
}

/// `head` cuts off the end and nothing else: what it keeps begins the text, and
/// is `max` characters long unless the text is shorter.
pub proof fn law_head_cuts_off_the_end(text: &str, max: usize, kept: String)
    requires
        call_ensures(head, (text, max), kept),
    ensures
        kept@.len() <= max,
        kept@.len() < max ==> kept@ == text@,
        kept@.len() <= text@.len(),
        forall|i: int| 0 <= i < kept@.len() ==> #[trigger] kept@[i] == text@[i],
        text@.len() <= max ==> kept@ == text@,
{
}

/// The head and the tail of a text that share its characters out between them
/// are the text.
pub proof fn law_head_and_tail_share_the_text_out(
    text: &str,
    first: usize,
    second: usize,
    front: String,
    back: String,
)
    requires
        call_ensures(head, (text, first), front),
        call_ensures(tail, (text, second), back),
        first + second == text@.len(),
    ensures
        front@ + back@ == text@,
{
}

/// White space is tab to carriage return, space, next line, no-break space and
/// the spaces and separators of the Ogham, punctuation and CJK blocks, and
/// nothing else; the numbers are those of Unicode's White_Space property.
pub proof fn law_white_space_by_number(c: char, b: bool)
    requires
        call_ensures(is_white_space, (c,), b),
    ensures
        b <==> {
            let n = c as u32;
            ||| n == 9 || n == 10 || n == 11 || n == 12 || n == 13
            ||| n == 32 || n == 133 || n == 160 || n == 5760
            ||| n == 8192 || n == 8193 || n == 8194 || n == 8195 || n == 8196 || n == 8197
            ||| n == 8198 || n == 8199 || n == 8200 || n == 8201 || n == 8202
            ||| n == 8232 || n == 8233 || n == 8239 || n == 8287 || n == 12288
        },
{
}

/// A text is blank exactly when each of its characters is white space: one that
/// is not makes the text not blank, wherever it stands.
pub proof fn law_blank_text_is_all_white_space(text: &str, b: bool)
    requires
        call_ensures(is_blank, (text,), b),
    ensures
        forall|i: int, w: bool|
            0 <= i < text@.len() && #[trigger] call_ensures(is_white_space, (text@[i],), w) && b
                ==> w,
        (forall|i: int| 0 <= i < text@.len() ==> is_white_space_number(#[trigger] text@[i] as int))
            ==> b,
        forall|i: int|
            0 <= i < text@.len() && !is_white_space_number(#[trigger] text@[i] as int) ==> !b,
{
}

/// The numbers of the characters with the White_Space property.
pub open spec fn is_white_space_number(n: int) -> bool {
    ||| 9 <= n <= 13
    ||| n == 32 || n == 133 || n == 160 || n == 5760
    ||| 8192 <= n <= 8202
    ||| n == 8232 || n == 8233 || n == 8239 || n == 8287 || n == 12288
}

/// Two texts in a row are blank exactly when both are.
pub proof fn law_blank_texts_in_a_row(
    a: &str,
    b: &str,
    both: &str,
    a_blank: bool,
    b_blank: bool,
    both_blank: bool,
)
    requires
        call_ensures(is_blank, (a,), a_blank),
        call_ensures(is_blank, (b,), b_blank),
        call_ensures(is_blank, (both,), both_blank),
        both@ == a@ + b@,
    ensures
        both_blank == (a_blank && b_blank),
{
    assert forall|i: int| 0 <= i < a@.len() implies a@[i] == both@[i] by {}
    assert forall|i: int| 0 <= i < b@.len() implies b@[i] == both@[a@.len() + i] by {}
    if both_blank {
        assert(forall|i: int|
            0 <= i < a@.len() ==> crate::text::white_space(#[trigger] a@[i]));
        assert(forall|i: int|
            0 <= i < b@.len() ==> crate::text::white_space(#[trigger] b@[i]));
    }
}

/// A context has text exactly when one of its sides is not blank, and is empty
/// exactly when it has neither text nor a screenshot. The application's name
/// does not count.
pub proof fn law_context_has_what_its_sides_have(
    context: CaretContext,
    before: &str,
    after: &str,
    before_blank: bool,
    after_blank: bool,
    text: bool,
    empty: bool,
)
    requires
        before@ == context.before@,
        after@ == context.after@,
        call_ensures(is_blank, (before,), before_blank),
        call_ensures(is_blank, (after,), after_blank),
        call_ensures(CaretContext::has_text, (&context,), text),
        call_ensures(CaretContext::is_empty, (&context,), empty),
    ensures
        text == (!before_blank || !after_blank),
        empty == (before_blank && after_blank && context.screenshot_png_base64 is None),
{
}

/// Any character on either side of the caret that is not white space is text,
/// and a context with text is not empty.
pub proof fn law_any_visible_character_is_text(
    context: CaretContext,
    text: bool,
    empty: bool,
    i: int,
)
    requires
        call_ensures(CaretContext::has_text, (&context,), text),
        call_ensures(CaretContext::is_empty, (&context,), empty),
        ({
            ||| 0 <= i < context.before@.len() && !is_white_space_number(
                context.before@[i] as int,
            )
            ||| 0 <= i < context.after@.len() && !is_white_space_number(context.after@[i] as int)
        }),
    ensures
        text,
        !empty,
{
}

/// A context with white space alone on both sides has no text.
pub proof fn law_white_space_is_no_text(context: CaretContext, text: bool, empty: bool)
    requires
        call_ensures(CaretContext::has_text, (&context,), text),
        call_ensures(CaretContext::is_empty, (&context,), empty),
        forall|i: int|
            0 <= i < context.before@.len() ==> is_white_space_number(
                #[trigger] context.before@[i] as int,
            ),
        forall|i: int|
            0 <= i < context.after@.len() ==> is_white_space_number(
                #[trigger] context.after@[i] as int,
            ),
    ensures
        !text,
        empty == (context.screenshot_png_base64 is None),
{
}

/// A fresh context holds nothing, and a clone holds what the context holds.
pub proof fn law_fresh_context_and_clone(
    fresh: CaretContext,
    context: CaretContext,
    copy: CaretContext,
)
    requires
        call_ensures(<CaretContext as Default>::default, (), fresh),
        call_ensures(<CaretContext as Clone>::clone, (&context,), copy),
    ensures
        fresh.before@.len() == 0,
        fresh.after@.len() == 0,
        fresh.app_name is None,
        fresh.screenshot_png_base64 is None,
        copy.before@ == context.before@,
        copy.after@ == context.after@,
        copy.app_name is Some <==> context.app_name is Some,
        copy.app_name is Some ==> copy.app_name->0@ == context.app_name->0@,
        copy.screenshot_png_base64 is Some <==> context.screenshot_png_base64 is Some,
        copy.screenshot_png_base64 is Some ==> copy.screenshot_png_base64->0@
            == context.screenshot_png_base64->0@,
{
    assert(copy@ == context@);
    assert(fresh@ == crate::context_capture::ContextView::blank());
}

} // verus!
