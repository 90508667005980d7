//! Which calls are allowed: all of them, but for slices past the end and numbers
//! that do not fit.
use vstd::prelude::*;
use crate::accessibility::{capture, Answer, Capture};
use crate::base64::base64_encode;
use crate::context_capture::{
    capture_for_dictation,
    clear,
    take,
    CaretContext,
    Pending,
    PlatformCapture,
    SecureInputCheck,
};
use crate::geometry::{element_bounds, is_finite, Point, Rect, Size, SCREENSHOT_SIDE};
use crate::laws::capture::selection_end;
use crate::native_string::{cfstring_to_string, cstring_capacity};
use crate::screen_permission::{
    invalidate_cache,
    is_granted,
    PreflightCache,
    Prompt,
    PromptEvent,
    Request,
    RequestEvent,
    PREFLIGHT_MIN_INTERVAL,
};
use crate::screenshot::{
    capture_rect,
    capture_square,
    encode_png,
    Shot,
    Square,
    SquareEvent,
    CAPTURE_TIMEOUT_SECONDS,
};
use crate::text::{head, is_blank, is_white_space, tail, TEXT_WINDOW};
use crate::text_range::{
    caret_position,
    range_after,
    range_before,
    selected_caret,
    slice_full_value,
    string_for_range,
    Caret,
    TextRange,
};
use crate::utf16::{decode_utf16_lossy, encode_utf16};

verus! {

/// Any text may be truncated, tested for blankness, encoded and cut, and any
/// bytes encoded or read as a native string.
pub proof fn law_any_text_is_taken()
    ensures
        forall|text: &str, max: usize| #[trigger] call_requires(tail, (text, max)),
        forall|text: &str, max: usize| #[trigger] call_requires(head, (text, max)),
        forall|text: &str| #[trigger] call_requires(is_blank, (text,)),
        forall|c: char| #[trigger] call_requires(is_white_space, (c,)),
        forall|text: &str| #[trigger] call_requires(encode_utf16, (text,)),
        forall|full: &str, caret: isize| #[trigger] call_requires(slice_full_value, (full, caret)),
        forall|bytes: &[u8]| #[trigger] call_requires(base64_encode, (bytes,)),
        forall|png: &[u8]| #[trigger] call_requires(encode_png, (png,)),
        forall|shot: Shot| #[trigger] call_requires(capture_rect, (shot,)),
        forall|buffer: Option<Vec<u8>>| #[trigger] call_requires(cfstring_to_string, (buffer,)),
        forall|context: &CaretContext| #[trigger] call_requires(CaretContext::is_empty, (context,)),
        forall|context: &CaretContext| #[trigger] call_requires(CaretContext::has_text, (context,)),
{
}

/// Any code units that are there may be decoded, and a native string may have any
/// length whose room can be counted.
pub proof fn law_any_stretch_that_is_there_is_taken()
    ensures
        forall|units: &[u16], start: usize, end: usize|
            start <= end <= units@.len() ==> #[trigger] call_requires(
                decode_utf16_lossy,
                (units, start, end),
            ),
        forall|length: isize|
            isize::MIN <= length * 3 && length * 3 < isize::MAX ==> #[trigger] call_requires(
                cstring_capacity,
                (length,),
            ),
{
}

/// A selection may be anywhere as long as its end can be counted.
pub proof fn law_any_selection_is_taken()
    ensures
        forall|range: TextRange| #[trigger] call_requires(caret_position, (range,)),
        forall|range: TextRange|
            selection_end(range) <= isize::MAX ==> #[trigger] call_requires(
                selected_caret,
                (range,),
            ),
        forall|caret: Caret| #[trigger] call_requires(range_before, (caret,)),
        forall|caret: Caret| #[trigger] call_requires(range_after, (caret,)),
        forall|location: isize, length: isize| #[trigger]
            call_requires(string_for_range, (location, length)),
        forall|bits: u64| #[trigger] call_requires(is_finite, (bits,)),
        forall|rect: &Rect| #[trigger] call_requires(Rect::is_bounded, (rect,)),
        forall|origin: Option<Point>, size: Option<Size>| #[trigger]
            call_requires(element_bounds, (origin, size)),
{
}

/// A capture takes any answer at any time, but for a selection whose end cannot
/// be counted.
pub proof fn law_any_answer_is_taken()
    ensures
        forall|want_text: bool, want_screenshot: bool| #[trigger]
            call_requires(capture, (want_text, want_screenshot)),
        forall|running: &Capture| #[trigger] call_requires(Capture::query, (running,)),
        forall|running: Capture, answer: Answer|
            (answer matches Answer::Range(Some(range)) ==> selection_end(range) <= isize::MAX)
                ==> #[trigger] call_requires(Capture::resume, (running, answer)),
        forall|running: Capture| #[trigger] call_requires(Capture::into_context, (running,)),
        forall|anchor: Rect| #[trigger] call_requires(capture_square, (anchor,)),
        forall|step: Square, event: SquareEvent| #[trigger]
            call_requires(Square::resume, (step, event)),
{
}

/// A dictation may end, and its context be taken or dropped, at any time.
pub proof fn law_any_slot_is_taken()
    ensures
        forall|pending: &mut Pending, want_text: bool, want_screenshot: bool| #[trigger]
            call_requires(capture_for_dictation, (pending, want_text, want_screenshot)),
        forall|check: SecureInputCheck, pending: &mut Pending, active: bool| #[trigger]
            call_requires(SecureInputCheck::resume, (check, pending, active)),
        forall|waiting: PlatformCapture, pending: &mut Pending, captured: Option<CaretContext>|
            #[trigger] call_requires(PlatformCapture::resume, (waiting, pending, captured)),
        forall|pending: &mut Pending| #[trigger] call_requires(take, (pending,)),
        forall|pending: &mut Pending| #[trigger] call_requires(clear, (pending,)),
{
}

/// The permission may be checked, recorded, dropped and requested at any time.
pub proof fn law_any_check_is_taken()
    ensures
        forall|cache: &PreflightCache, now: u64| #[trigger]
            call_requires(is_granted, (cache, now)),
        forall|cache: &mut PreflightCache, at: u64, granted: bool| #[trigger]
            call_requires(PreflightCache::record, (cache, at, granted)),
        forall|cache: &mut PreflightCache| #[trigger] call_requires(invalidate_cache, (cache,)),
        forall|step: Prompt, event: PromptEvent, cache: &mut PreflightCache| #[trigger]
            call_requires(Prompt::resume, (step, event, cache)),
        forall|step: Request, event: RequestEvent| #[trigger]
            call_requires(Request::resume, (step, event)),
{
}

/// The limits: 200 characters on each side of the caret, a square of 300 points,
/// two seconds for a capture, and three quarters of a second between live checks.
pub proof fn law_limits()
    ensures
        TEXT_WINDOW == 200,
        SCREENSHOT_SIDE == 300,
        CAPTURE_TIMEOUT_SECONDS == 2,
        PREFLIGHT_MIN_INTERVAL == 3 * 250_000_000,
{
}

} // verus!
