//! Reading the caret context out of the focused element: what is asked, in which
//! order, and what becomes of the answers.
use vstd::prelude::*;
use crate::accessibility::{capture, Answer, Capture, Query, Stage};
use crate::context_capture::CaretContext;
use crate::geometry::{Point, Rect, Size};
use crate::laws::{same_context, same_optional_context, same_text};
use crate::text_range::{
    caret_position,
    range_after,
    range_before,
    selected_caret,
    slice_full_value,
    string_for_range,
    Caret,
    TextRange,
};

verus! {

/// The capture asks this next; `None` stands for nothing more.
pub open spec fn asks(capture: Capture, query: Option<Query>) -> bool {
    forall|asked: Option<Query>| #[trigger]
        call_ensures(Capture::query, (&capture,), asked) ==> asked == query
}

/// The capture comes to nothing.
pub open spec fn finds_nothing(capture: Capture) -> bool {
    forall|found: Option<CaretContext>| #[trigger]
        call_ensures(Capture::into_context, (capture,), found) ==> found is None
}

/// Both captures want the same and have found the same.
pub open spec fn same_findings(a: Capture, b: Capture) -> bool {
    &&& a.want_text == b.want_text
    &&& a.want_screenshot == b.want_screenshot
    &&& same_context(a.context, b.context)
}

/// Where the caret is: the start of the selection, or of the text where that is
/// negative.
pub open spec fn selection_start(range: TextRange) -> int {
    if range.location < 0 {
        0
    } else {
        range.location as int
    }
}

/// Where the selection ends: at the caret, where its length is not positive.
pub open spec fn selection_end(range: TextRange) -> int {
    if range.length < 0 {
        selection_start(range)
    } else {
        selection_start(range) + range.length
    }
}

/// The text is settled on. Where it is wanted and there is no text, the
/// screenshot is sought next, beginning with `query`; otherwise the capture is
/// over.
pub open spec fn goes_on_to_the_screenshot(capture: Capture, query: Query) -> bool {
    forall|text: bool| #[trigger]
        call_ensures(CaretContext::has_text, (&capture.context,), text) ==> {
            &&& capture.want_screenshot && !text ==> asks(capture, Some(query))
            &&& !capture.want_screenshot || text ==> asks(capture, None) && capture.stage
                == Stage::Finished
        }
}

/// The ranges around a caret: the one before ends where the selection starts and
/// is 200 code units long, or reaches the start of the text; the one after begins
/// where the selection ends and is 200 code units long.
pub proof fn law_ranges_around_a_selection(
    selection: TextRange,
    at: isize,
    caret: Caret,
    before: TextRange,
    after: TextRange,
)
    requires
        selection_end(selection) <= isize::MAX,
        call_ensures(caret_position, (selection,), at),
        call_ensures(selected_caret, (selection,), caret),
        call_ensures(range_before, (caret,), before),
        call_ensures(range_after, (caret,), after),
    ensures
        at == selection_start(selection),
        caret.before == at,
        caret.after == selection_end(selection),
        before.location >= 0,
        before.location + before.length == selection_start(selection),
        before.length <= 200,
        before.length < 200 ==> before.location == 0,
        after.location == selection_end(selection),
        after.length == 200,
{
}

/// A range is asked for as it is, unless there is nothing in it.
pub proof fn law_range_with_anything_in_it_is_asked_for(
    location: isize,
    length: isize,
    range: Option<TextRange>,
)
    requires
        call_ensures(string_for_range, (location, length), range),
    ensures
        length <= 0 ==> range is None,
        length > 0 ==> range is Some && range->0.location == location && range->0.length == length,
{
}

/// A capture begins with the permission to use the interface, and has found
/// nothing yet.
pub proof fn law_capture_begins_with_nothing(want_text: bool, want_screenshot: bool, begun: Capture)
    requires
        call_ensures(capture, (want_text, want_screenshot), begun),
    ensures
        begun.want_text == want_text,
        begun.want_screenshot == want_screenshot,
        begun.read_before is None,
        begun.context.before@.len() == 0,
        begun.context.after@.len() == 0,
        begun.context.app_name is None,
        begun.context.screenshot_png_base64 is None,
        asks(begun, Some(Query::ProcessTrusted)),
{
    assert(begun@ == crate::accessibility::CaptureView::start(want_text, want_screenshot));
}

/// The permission, the system-wide element and the focused element are asked for
/// in turn, and then the element's subrole. Where one is missing, nothing more is
/// asked and nothing is found.
pub proof fn law_nothing_without_permission_or_focus(
    before: Capture,
    query: Query,
    found: bool,
    after: Capture,
)
    requires
        call_ensures(Capture::query, (&before,), Some(query)),
        call_ensures(Capture::resume, (before, Answer::Flag(found)), after),
        query == Query::ProcessTrusted || query == Query::SystemWideElement || query
            == Query::FocusedElement,
    ensures
        same_findings(before, after),
        same_text(before.read_before, after.read_before),
        !found ==> asks(after, None) && finds_nothing(after),
        found && query == Query::ProcessTrusted ==> asks(after, Some(Query::SystemWideElement)),
        found && query == Query::SystemWideElement ==> asks(after, Some(Query::FocusedElement)),
        found && query == Query::FocusedElement ==> asks(after, Some(Query::Subrole)),
{
    lemma_same(before, after);
    lemma_finds_nothing(after);
}

/// An element that says it is a secure text field is not asked anything more, and
/// nothing is found. Any other is read on.
pub proof fn law_secure_element_is_not_asked(
    before: Capture,
    subrole: Option<String>,
    after: Capture,
)
    requires
        call_ensures(Capture::query, (&before,), Some(Query::Subrole)),
        call_ensures(Capture::resume, (before, Answer::Text(subrole)), after),
    ensures
        same_findings(before, after),
        same_text(before.read_before, after.read_before),
        subrole is Some && subrole->0@ == "AXSecureTextField"@ ==> asks(after, None)
            && finds_nothing(after),
        !(subrole is Some && subrole->0@ == "AXSecureTextField"@) ==> asks(
            after,
            Some(Query::FocusedApplication),
        ),
{
    lemma_same(before, after);
    lemma_finds_nothing(after);
}

/// The title of the focused application, where there is one, is the name in the
/// context. The selection is asked for next, in any case.
pub proof fn law_application_gives_the_name(
    before: Capture,
    focused: bool,
    after: Capture,
    title: Option<String>,
    named: Capture,
)
    requires
        call_ensures(Capture::query, (&before,), Some(Query::FocusedApplication)),
        call_ensures(Capture::resume, (before, Answer::Flag(focused)), after),
        focused ==> call_ensures(Capture::resume, (after, Answer::Text(title)), named),
    ensures
        same_findings(before, after),
        same_text(before.read_before, after.read_before),
        !focused ==> asks(after, Some(Query::SelectedRange)),
        focused ==> {
            &&& asks(after, Some(Query::ApplicationTitle))
            &&& asks(named, Some(Query::SelectedRange))
            &&& same_text(named.context.app_name, title)
            &&& named.context.before@ == before.context.before@
            &&& named.context.after@ == before.context.after@
            &&& same_text(
                named.context.screenshot_png_base64,
                before.context.screenshot_png_base64,
            )
            &&& named.want_text == before.want_text
            &&& named.want_screenshot == before.want_screenshot
            &&& same_text(named.read_before, before.read_before)
        },
{
    lemma_same(before, after);
}

/// Without a selection, or where no text is wanted, no text is read. The
/// screenshot is then centred on the caret, or on the element where there is
/// none.
pub proof fn law_no_text_without_a_caret_or_a_wish(
    before: Capture,
    selection: Option<TextRange>,
    after: Capture,
)
    requires
        call_ensures(Capture::query, (&before,), Some(Query::SelectedRange)),
        call_ensures(Capture::resume, (before, Answer::Range(selection)), after),
        selection is None || !before.want_text,
    ensures
        same_findings(before, after),
        selection is None ==> goes_on_to_the_screenshot(after, Query::Position),
        selection matches Some(range) ==> goes_on_to_the_screenshot(
            after,
            Query::BoundsForRange(
                TextRange { location: selection_start(range) as isize, length: 1 },
            ),
        ),
{
    lemma_same(before, after);
}

/// The text that the element gives for the ranges around the selection is the
/// text in the context, character for character: the last 200 characters of the
/// one before and the first 200 of the one after, and an empty side where only
/// the other is given. The range before is asked for exactly where there is
/// anything before the caret.
pub proof fn law_text_is_what_the_element_gives(
    begun: Capture,
    selection: TextRange,
    placed: Capture,
    before: Option<String>,
    half: Capture,
    after: Option<String>,
    done: Capture,
)
    requires
        call_ensures(Capture::query, (&begun,), Some(Query::SelectedRange)),
        begun.want_text,
        begun.read_before is None,
        selection_end(selection) <= isize::MAX,
        call_ensures(Capture::resume, (begun, Answer::Range(Some(selection))), placed),
        if selection_start(selection) > 0 {
            call_ensures(Capture::resume, (placed, Answer::Text(before)), half)
        } else {
            half == placed && before is None
        },
        call_ensures(Capture::resume, (half, Answer::Text(after)), done),
        before is Some || after is Some,
    ensures
        selection_start(selection) > 200 ==> asks(
            placed,
            Some(
                Query::StringForRange(
                    TextRange {
                        location: (selection_start(selection) - 200) as isize,
                        length: 200,
                    },
                ),
            ),
        ),
        0 < selection_start(selection) <= 200 ==> asks(
            placed,
            Some(
                Query::StringForRange(
                    TextRange { location: 0, length: selection_start(selection) as isize },
                ),
            ),
        ),
        asks(
            half,
            Some(
                Query::StringForRange(
                    TextRange { location: selection_end(selection) as isize, length: 200 },
                ),
            ),
        ),
        before is None ==> done.context.before@.len() == 0,
        before matches Some(t) ==> {
            &&& t@.len() <= 200 ==> done.context.before@ == t@
            &&& t@.len() > 200 ==> done.context.before@ == t@.skip(t@.len() - 200)
        },
        after is None ==> done.context.after@.len() == 0,
        after matches Some(t) ==> {
            &&& t@.len() <= 200 ==> done.context.after@ == t@
            &&& t@.len() > 200 ==> done.context.after@ == t@.take(200)
        },
        same_text(done.context.app_name, begun.context.app_name),
        same_text(done.context.screenshot_png_base64, begun.context.screenshot_png_base64),
        done.want_text == begun.want_text,
        done.want_screenshot == begun.want_screenshot,
        goes_on_to_the_screenshot(
            done,
            Query::BoundsForRange(
                TextRange { location: selection_start(selection) as isize, length: 1 },
            ),
        ),
{
    assert(done@.context.app_name == begun@.context.app_name);
    assert(done@.context.screenshot_png_base64 == begun@.context.screenshot_png_base64);
}

/// Where the element gives text for neither range, its full text is asked for and
/// cut at both ends of the selection.
pub proof fn law_full_text_is_cut_at_the_selection(
    begun: Capture,
    selection: TextRange,
    placed: Capture,
    half: Capture,
    neither: Capture,
    value: Option<String>,
    done: Capture,
    full: &str,
    at_start: (String, String),
    at_end: (String, String),
)
    requires
        call_ensures(Capture::query, (&begun,), Some(Query::SelectedRange)),
        begun.want_text,
        begun.read_before is None,
        selection_end(selection) <= isize::MAX,
        call_ensures(Capture::resume, (begun, Answer::Range(Some(selection))), placed),
        if selection_start(selection) > 0 {
            call_ensures(Capture::resume, (placed, Answer::Text(None)), half)
        } else {
            half == placed
        },
        call_ensures(Capture::resume, (half, Answer::Text(None)), neither),
        call_ensures(Capture::resume, (neither, Answer::Text(value)), done),
        value matches Some(v) ==> full@ == v@,
        call_ensures(
            slice_full_value,
            (full, selection_start(selection) as isize),
            at_start,
        ),
        call_ensures(slice_full_value, (full, selection_end(selection) as isize), at_end),
    ensures
        asks(neither, Some(Query::FullValue)),
        value is Some ==> done.context.before@ == at_start.0@,
        value is Some ==> done.context.after@ == at_end.1@,
        value is None ==> done.context.before@ == begun.context.before@,
        value is None ==> done.context.after@ == begun.context.after@,
        same_text(done.context.app_name, begun.context.app_name),
        same_text(done.context.screenshot_png_base64, begun.context.screenshot_png_base64),
        done.want_text == begun.want_text,
        done.want_screenshot == begun.want_screenshot,
        goes_on_to_the_screenshot(
            done,
            Query::BoundsForRange(
                TextRange { location: selection_start(selection) as isize, length: 1 },
            ),
        ),
{
    crate::text_range::law_cut_is_bounded(full@, selection_start(selection));
    crate::text_range::law_cut_is_bounded(full@, selection_end(selection));
    assert(done@.context.app_name == begun@.context.app_name);
    assert(done@.context.screenshot_png_base64 == begun@.context.screenshot_png_base64);
}

/// Both sides of the rectangle are finite.
pub open spec fn is_finite_rect(rect: Rect) -> bool {
    &&& rect.size.width % 0x8000_0000_0000_0000 < 0x7ff0_0000_0000_0000
    &&& rect.size.height % 0x8000_0000_0000_0000 < 0x7ff0_0000_0000_0000
}

/// The screenshot is centred on the caret where its rectangle is finite, and on
/// the element otherwise.
pub proof fn law_screenshot_is_centred_on_the_caret(
    before: Capture,
    range: TextRange,
    bounds: Option<Rect>,
    after: Capture,
)
    requires
        call_ensures(Capture::query, (&before,), Some(Query::BoundsForRange(range))),
        call_ensures(Capture::resume, (before, Answer::Bounds(bounds)), after),
    ensures
        same_findings(before, after),
        bounds is Some && is_finite_rect(bounds->0) ==> asks(
            after,
            Some(Query::Screenshot(bounds->0)),
        ),
        !(bounds is Some && is_finite_rect(bounds->0)) ==> asks(after, Some(Query::Position)),
{
    lemma_same(before, after);
    if let Some(rect) = bounds {
        let w = rect.size.width;
        let h = rect.size.height;
        assert((w / 0x10_0000_0000_0000 % 2048 != 2047) == (w % 0x8000_0000_0000_0000
            < 0x7ff0_0000_0000_0000)) by (bit_vector);
        assert((h / 0x10_0000_0000_0000 % 2048 != 2047) == (h % 0x8000_0000_0000_0000
            < 0x7ff0_0000_0000_0000)) by (bit_vector);
    }
}

/// The element is where it says it is and as large as it says. Where it does not
/// say, there is no screenshot and the capture is over.
pub proof fn law_screenshot_is_centred_on_the_element(
    before: Capture,
    position: Option<Point>,
    placed: Capture,
    size: Option<Size>,
    sized: Capture,
)
    requires
        call_ensures(Capture::query, (&before,), Some(Query::Position)),
        call_ensures(Capture::resume, (before, Answer::Position(position)), placed),
        position is Some ==> call_ensures(Capture::resume, (placed, Answer::Size(size)), sized),
    ensures
        same_findings(before, placed),
        position is None ==> asks(placed, None) && placed.stage == Stage::Finished,
        position matches Some(origin) ==> {
            &&& asks(placed, Some(Query::ElementSize))
            &&& same_findings(before, sized)
            &&& size is None ==> asks(sized, None) && sized.stage == Stage::Finished
            &&& size matches Some(extent) ==> asks(
                sized,
                Some(Query::Screenshot(Rect { origin, size: extent })),
            )
        },
{
    lemma_same(before, placed);
    if position is Some {
        lemma_same(before, sized);
    }
}

/// The screenshot, where there is one, goes into the context as it is, and the
/// capture is over.
pub proof fn law_screenshot_goes_into_the_context(
    before: Capture,
    anchor: Rect,
    screenshot: Option<String>,
    after: Capture,
)
    requires
        call_ensures(Capture::query, (&before,), Some(Query::Screenshot(anchor))),
        call_ensures(Capture::resume, (before, Answer::Text(screenshot)), after),
    ensures
        asks(after, None),
        after.stage == Stage::Finished,
        same_text(after.context.screenshot_png_base64, screenshot),
        after.context.before@ == before.context.before@,
        after.context.after@ == before.context.after@,
        same_text(after.context.app_name, before.context.app_name),
{
    assert(after@.context.app_name == before@.context.app_name);
}

/// A capture that is over hands out the context that it has found, whole, unless
/// that is empty. One that is not over, or was given up, hands out nothing.
pub proof fn law_found_context_is_handed_out(
    over: Capture,
    found: Option<CaretContext>,
    empty: bool,
)
    requires
        call_ensures(Capture::into_context, (over,), found),
        call_ensures(CaretContext::is_empty, (&over.context,), empty),
    ensures
        over.stage != Stage::Finished ==> found is None,
        over.stage == Stage::Finished && empty ==> found is None,
        over.stage == Stage::Finished && !empty ==> same_optional_context(
            found,
            Some(over.context),
        ),
{
    if let Some(context) = found {
        assert(context@ == over.context@);
    }
}

/// The answer is of the kind that the query asks for.
pub open spec fn is_answer_to(answer: Answer, query: Query) -> bool {
    match query {
        Query::ProcessTrusted => answer is Flag,
        Query::SystemWideElement => answer is Flag,
        Query::FocusedElement => answer is Flag,
        Query::Subrole => answer is Text,
        Query::FocusedApplication => answer is Flag,
        Query::ApplicationTitle => answer is Text,
        Query::SelectedRange => answer is Range,
        Query::StringForRange(_) => answer is Text,
        Query::FullValue => answer is Text,
        Query::BoundsForRange(_) => answer is Bounds,
        Query::Position => answer is Position,
        Query::ElementSize => answer is Size,
        Query::Screenshot(_) => answer is Text,
    }
}

/// An answer to another query changes nothing, and nothing changes a capture that
/// is over.
pub proof fn law_other_answers_are_ignored(
    before: Capture,
    query: Option<Query>,
    answer: Answer,
    after: Capture,
)
    requires
        call_ensures(Capture::query, (&before,), query),
        call_ensures(Capture::resume, (before, answer), after),
        query is None || !is_answer_to(answer, query->0),
    ensures
        after.stage == before.stage,
        same_findings(before, after),
        same_text(before.read_before, after.read_before),
{
    assert(after@ == before@);
    lemma_same(before, after);
}

proof fn lemma_same(a: Capture, b: Capture)
    ensures
        a@.context == b@.context && a@.want_text == b@.want_text && a@.want_screenshot
            == b@.want_screenshot ==> same_findings(a, b),
        a@.read_before == b@.read_before ==> same_text(a.read_before, b.read_before),
{
}

proof fn lemma_finds_nothing(capture: Capture)
    ensures
        capture.stage == Stage::Abandoned ==> finds_nothing(capture),
{
}

} // verus!
