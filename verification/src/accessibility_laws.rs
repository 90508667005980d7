//! What a capture amounts to, whatever the accessibility interface answers.
use vstd::prelude::*;
use crate::accessibility::{Query, Stage};
use crate::geometry::{Point, Rect, Size};
use crate::text::TEXT_WINDOW;
use crate::text_range::TextRange;

verus! {

/// The desktop as the accessibility interface shows it at one moment: the
/// answer to every query.
pub struct Desktop {
    pub trusted: bool,
    pub system_wide: bool,
    pub focused: bool,
    pub subrole: Option<Seq<char>>,
    pub application: bool,
    pub title: Option<Seq<char>>,
    pub range: Option<TextRange>,
    pub strings: Map<TextRange, Seq<char>>,
    pub value: Option<Seq<char>>,
    pub bounds: Map<TextRange, Rect>,
    pub position: Option<Point>,
    pub size: Option<Size>,
    pub screenshots: Map<Rect, Seq<char>>,
}

/// The entry for a key, if there is one.
pub open spec fn lookup<K, V>(map: Map<K, V>, key: K) -> Option<V> {
    if map.contains_key(key) {
        Some(map[key])
    } else {
        None
    }
}

impl Desktop {
    /// The answer to a query.
    pub open spec fn answer(self, query: Query) -> crate::accessibility::AnswerView {
        match query {
            Query::ProcessTrusted => crate::accessibility::AnswerView::Flag(self.trusted),
            Query::SystemWideElement => crate::accessibility::AnswerView::Flag(self.system_wide),
            Query::FocusedElement => crate::accessibility::AnswerView::Flag(self.focused),
            Query::Subrole => crate::accessibility::AnswerView::Text(self.subrole),
            Query::FocusedApplication => crate::accessibility::AnswerView::Flag(self.application),
            Query::ApplicationTitle => crate::accessibility::AnswerView::Text(self.title),
            Query::SelectedRange => crate::accessibility::AnswerView::Range(self.range),
            Query::StringForRange(range) => crate::accessibility::AnswerView::Text(
                lookup(self.strings, range),
            ),
            Query::FullValue => crate::accessibility::AnswerView::Text(self.value),
            Query::BoundsForRange(range) => crate::accessibility::AnswerView::Bounds(
                lookup(self.bounds, range),
            ),
            Query::Position => crate::accessibility::AnswerView::Position(self.position),
            Query::ElementSize => crate::accessibility::AnswerView::Size(self.size),
            Query::Screenshot(anchor) => crate::accessibility::AnswerView::Text(
                lookup(self.screenshots, anchor),
            ),
        }
    }

    /// There is a focused element that may be read.
    pub open spec fn readable(self) -> bool {
        &&& self.trusted
        &&& self.system_wide
        &&& self.focused
        &&& self.subrole != Some(crate::accessibility::secure_subrole())
    }

    /// The name of the focused application.
    pub open spec fn app_name(self) -> Option<Seq<char>> {
        if self.application {
            self.title
        } else {
            None
        }
    }

    /// The text on both sides of a selection: what the element says of the two
    /// ranges around it, or its full text cut at both ends of the selection
    /// when it says nothing of either.
    pub open spec fn text_around(self, range: TextRange) -> (Seq<char>, Seq<char>) {
        let caret = range.caret();
        let before = if range.start() > 0 {
            lookup(self.strings, caret.range_before())
        } else {
            None
        };
        let after = lookup(self.strings, caret.range_after());
        if before is Some || after is Some {
            (crate::accessibility::or_empty(before), crate::accessibility::or_empty(after))
        } else {
            match self.value {
                Some(full) => (
                    crate::text_range::around(full, caret.before as int).0,
                    crate::text_range::around(full, caret.after as int).1,
                ),
                None => (seq![], seq![]),
            }
        }
    }

    /// The context before any screenshot.
    pub open spec fn text_context(self, want_text: bool) -> crate::context_capture::ContextView {
        let sides = match self.range {
            Some(range) => if want_text {
                self.text_around(range)
            } else {
                (seq![], seq![])
            },
            None => (seq![], seq![]),
        };
        crate::context_capture::ContextView {
            before: crate::text::tail_of(sides.0, TEXT_WINDOW as nat),
            after: crate::text::head_of(sides.1, TEXT_WINDOW as nat),
            app_name: self.app_name(),
            screenshot_png_base64: None,
        }
    }

    /// Where the caret is on the screen.
    pub open spec fn caret_bounds(self) -> Option<Rect> {
        match self.range {
            Some(range) => lookup(
                self.bounds,
                crate::accessibility::caret_range(range.start() as isize),
            ),
            None => None,
        }
    }

    /// What a screenshot is centred on: the caret where both sides of its
    /// rectangle are finite, the element otherwise.
    pub open spec fn anchor(self) -> Option<Rect> {
        match self.caret_bounds() {
            Some(rect) if rect.bounded() => Some(rect),
            _ => match (self.position, self.size) {
                (Some(origin), Some(size)) => Some(Rect { origin, size }),
                (_, _) => None,
            },
        }
    }

    /// The screenshot around the anchor.
    pub open spec fn screenshot(self) -> Option<Seq<char>> {
        match self.anchor() {
            Some(anchor) => lookup(self.screenshots, anchor),
            None => None,
        }
    }

    /// The context with the screenshot that stands in for missing text.
    pub open spec fn full_context(
        self,
        want_text: bool,
        want_screenshot: bool,
    ) -> crate::context_capture::ContextView {
        let context = self.text_context(want_text);
        if want_screenshot && !context.has_text() {
            crate::context_capture::ContextView {
                screenshot_png_base64: self.screenshot(),
                ..context
            }
        } else {
            context
        }
    }

    /// The context that there is to capture.
    pub open spec fn captured(self, want_text: bool, want_screenshot: bool) -> Option<
        crate::context_capture::ContextView,
    > {
        let context = self.full_context(want_text, want_screenshot);
        if !self.readable() || context.is_empty() {
            None
        } else {
            Some(context)
        }
    }

    /// The capture once this desktop has answered everything it asks.
    pub open spec fn run(
        self,
        capture: crate::accessibility::CaptureView,
    ) -> crate::accessibility::CaptureView
        decreases rank(capture.stage),
    {
        match capture.stage.query() {
            Some(query) => self.run(capture.next(self.answer(query))),
            None => capture,
        }
    }
}

/// How many queries may still follow.
pub open spec fn rank(stage: Stage) -> nat {
    match stage {
        Stage::Trust => 14,
        Stage::SystemWide => 13,
        Stage::Focus => 12,
        Stage::Subrole => 11,
        Stage::Application => 10,
        Stage::Title => 9,
        Stage::Range => 8,
        Stage::Before(_) => 7,
        Stage::After(_) => 6,
        Stage::Value(_) => 5,
        Stage::CaretBounds(_) => 4,
        Stage::Position => 3,
        Stage::Size(_) => 2,
        Stage::Screenshot(_) => 1,
        Stage::Abandoned => 0,
        Stage::Finished => 0,
    }
}

/// The stage reads the focused element's text or pixels.
pub open spec fn reads_content(stage: Stage) -> bool {
    reads_text(stage) || stage is Screenshot
}

/// The stage reads the focused element's text.
pub open spec fn reads_text(stage: Stage) -> bool {
    stage is Before || stage is After || stage is Value
}

/// The stage is on the way to a screenshot.
pub open spec fn seeks_screenshot(stage: Stage) -> bool {
    stage is CaretBounds || stage is Position || stage is Size || stage is Screenshot
}

/// The capture after a run of answers.
pub open spec fn after(
    capture: crate::accessibility::CaptureView,
    answers: Seq<crate::accessibility::AnswerView>,
) -> crate::accessibility::CaptureView
    decreases answers.len(),
{
    if answers.len() == 0 {
        capture
    } else {
        after(capture, answers.drop_last()).next(answers.last())
    }
}

proof fn lemma_from_bounds(desktop: Desktop, capture: crate::accessibility::CaptureView)
    requires
        desktop.readable(),
        match capture.stage {
            Stage::CaretBounds(at) => desktop.range matches Some(range) && at == range.start(),
            Stage::Position => !(desktop.caret_bounds() matches Some(rect) && rect.bounded()),
            _ => false,
        },
    ensures
        desktop.run(capture) == (crate::accessibility::CaptureView {
            stage: Stage::Finished,
            context: crate::context_capture::ContextView {
                screenshot_png_base64: if desktop.anchor() is Some {
                    desktop.screenshot()
                } else {
                    capture.context.screenshot_png_base64
                },
                ..capture.context
            },
            ..capture
        }),
{
    reveal_with_fuel(Desktop::run, 5);
}

/// From the moment the text is settled on.
proof fn lemma_from_fall_back(
    desktop: Desktop,
    capture: crate::accessibility::CaptureView,
    want_text: bool,
    caret: Option<isize>,
)
    requires
        desktop.readable(),
        capture.context == desktop.text_context(want_text),
        caret == match desktop.range {
            Some(range) => Some(range.start() as isize),
            None => None,
        },
    ensures
        desktop.run(capture.fall_back(caret)).stage is Finished,
        desktop.run(capture.fall_back(caret)).context == desktop.full_context(
            want_text,
            capture.want_screenshot,
        ),
{
    let next = capture.fall_back(caret);
    if capture.want_screenshot && !capture.context.has_text() {
        if caret is None {
            assert(desktop.caret_bounds() is None);
        }
        lemma_from_bounds(desktop, next);
    } else {
        assert(desktop.run(next) == next);
    }
}

/// From the moment the selection is asked for.
proof fn lemma_from_range(desktop: Desktop, capture: crate::accessibility::CaptureView)
    requires
        desktop.readable(),
        capture.stage is Range,
        capture.read_before is None,
        capture.context == (crate::context_capture::ContextView {
            app_name: desktop.app_name(),
            ..crate::context_capture::ContextView::blank()
        }),
    ensures
        desktop.run(capture).stage is Finished,
        desktop.run(capture).context == desktop.full_context(
            capture.want_text,
            capture.want_screenshot,
        ),
{
    let want_text = capture.want_text;
    let none = Seq::<char>::empty();
    assert(crate::text::tail_of(none, TEXT_WINDOW as nat) == none);
    assert(crate::text::head_of(none, TEXT_WINDOW as nat) == none);
    assert(desktop.run(capture) == desktop.run(capture.with_range(desktop.range)));
    match desktop.range {
        Some(range) => {
            let caret = range.caret();
            let at = Some(range.start() as isize);
            if !want_text {
                assert(capture.context == desktop.text_context(want_text));
                lemma_from_fall_back(desktop, capture, want_text, at);
            } else {
                // Past the text before the caret.
                let before = if range.start() > 0 {
                    lookup(desktop.strings, caret.range_before())
                } else {
                    None
                };
                let reading = crate::accessibility::CaptureView {
                    stage: Stage::After(caret),
                    read_before: before,
                    ..capture
                };
                assert(desktop.run(capture) == desktop.run(reading)) by {
                    if range.start() > 0 {
                        assert(caret.range_before().length > 0);
                        let asking = capture.at(Stage::Before(caret));
                        assert(desktop.run(asking) == desktop.run(reading));
                    } else {
                        assert(capture.at(Stage::After(caret)) == reading);
                    }
                }
                // Past the text after the caret.
                let after = lookup(desktop.strings, caret.range_after());
                if before is Some || after is Some {
                    let known = crate::accessibility::CaptureView {
                        read_before: None,
                        ..reading
                    }.with_text(
                        crate::accessibility::or_empty(before),
                        crate::accessibility::or_empty(after),
                    );
                    assert(desktop.run(reading) == desktop.run(known.fall_back(at)));
                    assert(known.context == desktop.text_context(want_text));
                    lemma_from_fall_back(desktop, known, want_text, at);
                } else {
                    let cutting = reading.at(Stage::Value(caret));
                    assert(desktop.run(reading) == desktop.run(cutting));
                    match desktop.value {
                        Some(full) => {
                            let known = cutting.with_text(
                                crate::text_range::around(full, caret.before as int).0,
                                crate::text_range::around(full, caret.after as int).1,
                            );
                            assert(desktop.run(cutting) == desktop.run(known.fall_back(at)));
                            assert(known.context == desktop.text_context(want_text));
                            lemma_from_fall_back(desktop, known, want_text, at);
                        },
                        None => {
                            assert(desktop.run(cutting) == desktop.run(cutting.fall_back(at)));
                            assert(cutting.context == desktop.text_context(want_text));
                            lemma_from_fall_back(desktop, cutting, want_text, at);
                        },
                    }
                }
            }
        },
        None => {
            assert(capture.context == desktop.text_context(want_text));
            lemma_from_fall_back(desktop, capture, want_text, None);
        },
    }
}

/// A capture comes to an end and finds exactly the context that there is to
/// capture: the text around the caret cut to the window, or a screenshot in its
/// place, with the name of the application; nothing where nothing may be read
/// or there is nothing to see.
pub proof fn law_capture_finds_the_context(
    desktop: Desktop,
    want_text: bool,
    want_screenshot: bool,
)
    ensures
        ({
            let start = crate::accessibility::CaptureView::start(want_text, want_screenshot);
            &&& desktop.run(start).stage.query() is None
            &&& desktop.run(start).outcome() == desktop.captured(want_text, want_screenshot)
        }),
{
    let start = crate::accessibility::CaptureView::start(want_text, want_screenshot);
    assert(desktop.run(start) == desktop.run(start.next(
        desktop.answer(Query::ProcessTrusted),
    )));
    if desktop.trusted {
        let c1 = start.at(Stage::SystemWide);
        assert(desktop.run(c1) == desktop.run(c1.next(desktop.answer(Query::SystemWideElement))));
        if desktop.system_wide {
            let c2 = start.at(Stage::Focus);
            assert(desktop.run(c2) == desktop.run(c2.next(desktop.answer(Query::FocusedElement))));
            if desktop.focused {
                let c3 = start.at(Stage::Subrole);
                assert(desktop.run(c3) == desktop.run(c3.next(desktop.answer(Query::Subrole))));
                if desktop.readable() {
                    let c4 = start.at(Stage::Application);
                    assert(desktop.run(c4) == desktop.run(
                        c4.next(desktop.answer(Query::FocusedApplication)),
                    ));
                    let named = crate::accessibility::CaptureView {
                        stage: Stage::Range,
                        context: crate::context_capture::ContextView {
                            app_name: desktop.app_name(),
                            ..start.context
                        },
                        ..start
                    };
                    assert(desktop.run(c4) == desktop.run(named)) by {
                        if desktop.application {
                            let c5 = start.at(Stage::Title);
                            assert(desktop.run(c5) == desktop.run(
                                c5.next(desktop.answer(Query::ApplicationTitle)),
                            ));
                        } else {
                            assert(start.at(Stage::Range) == named);
                        }
                    }
                    lemma_from_range(desktop, named);
                }
            }
        }
    }
}

/// Every answer either does not belong to the query, and changes nothing, or
/// brings the capture closer to its end: it asks at most fourteen queries.
pub proof fn law_capture_comes_to_an_end(
    capture: crate::accessibility::CaptureView,
    answer: crate::accessibility::AnswerView,
)
    ensures
        capture.next(answer) == capture || rank(capture.next(answer).stage) < rank(capture.stage),
        rank(capture.stage) == 0 <==> capture.stage.query() is None,
        rank(capture.stage) <= 14,
{
}

/// A secure text field is never read: whatever is answered, text and pixels are
/// only asked for once the element has said that it is no such field.
pub proof fn law_secure_field_is_never_read(
    want_text: bool,
    want_screenshot: bool,
    answers: Seq<crate::accessibility::AnswerView>,
)
    requires
        ({
            let start = crate::accessibility::CaptureView::start(want_text, want_screenshot);
            forall|k: int|
                0 <= k < answers.len() && after(start, #[trigger] answers.take(k)).stage is Subrole
                    ==> (answers[k] matches crate::accessibility::AnswerView::Text(subrole)
                    ==> subrole == Some(crate::accessibility::secure_subrole()))
        }),
    ensures
        ({
            let start = crate::accessibility::CaptureView::start(want_text, want_screenshot);
            let stage = after(start, answers).stage;
            &&& stage is Trust || stage is SystemWide || stage is Focus || stage is Subrole
                || stage is Abandoned
            &&& !reads_content(stage) && !seeks_screenshot(stage)
            &&& after(start, answers).context == crate::context_capture::ContextView::blank()
            &&& after(start, answers).outcome() is None
        }),
    decreases answers.len(),
{
    let start = crate::accessibility::CaptureView::start(want_text, want_screenshot);
    if answers.len() > 0 {
        let shorter = answers.drop_last();
        assert forall|k: int|
            0 <= k < shorter.len() && after(start, #[trigger] shorter.take(k)).stage
                is Subrole implies (
        shorter[k] matches crate::accessibility::AnswerView::Text(subrole) ==> subrole == Some(
            crate::accessibility::secure_subrole(),
        )) by {
            assert(shorter.take(k) == answers.take(k));
        }
        law_secure_field_is_never_read(want_text, want_screenshot, shorter);
        assert(answers.take(answers.len() - 1) == shorter);
    }
}

/// What is not wanted is not asked for: without the text setting no text is
/// read, and without the screenshot setting no screenshot is sought, whatever
/// is answered.
pub proof fn law_only_what_is_wanted_is_read(
    want_text: bool,
    want_screenshot: bool,
    answers: Seq<crate::accessibility::AnswerView>,
)
    ensures
        ({
            let start = crate::accessibility::CaptureView::start(want_text, want_screenshot);
            let now = after(start, answers);
            &&& now.want_text == want_text && now.want_screenshot == want_screenshot
            &&& reads_text(now.stage) ==> want_text
            &&& seeks_screenshot(now.stage) ==> want_screenshot && !now.context.has_text()
            &&& !want_text ==> now.context.before.len() == 0 && now.context.after.len() == 0
            &&& !want_screenshot ==> now.context.screenshot_png_base64 is None
        }),
    decreases answers.len(),
{
    let start = crate::accessibility::CaptureView::start(want_text, want_screenshot);
    if answers.len() > 0 {
        law_only_what_is_wanted_is_read(want_text, want_screenshot, answers.drop_last());
    }
}

/// The screenshot is a fallback, not an addition: a captured context holds
/// text or a screenshot, never both, and a screenshot only where it is wanted.
pub proof fn law_screenshot_is_a_fallback(
    want_text: bool,
    want_screenshot: bool,
    answers: Seq<crate::accessibility::AnswerView>,
)
    ensures
        ({
            let start = crate::accessibility::CaptureView::start(want_text, want_screenshot);
            after(start, answers).outcome() matches Some(context) ==> {
                &&& context.screenshot_png_base64 is Some ==> want_screenshot
                    && !context.has_text()
                &&& context.screenshot_png_base64 is None ==> context.has_text()
                &&& !context.is_empty()
            }
        }),
{
    lemma_screenshot_without_text(want_text, want_screenshot, answers);
    law_only_what_is_wanted_is_read(want_text, want_screenshot, answers);
}

proof fn lemma_screenshot_without_text(
    want_text: bool,
    want_screenshot: bool,
    answers: Seq<crate::accessibility::AnswerView>,
)
    ensures
        ({
            let start = crate::accessibility::CaptureView::start(want_text, want_screenshot);
            let now = after(start, answers);
            now.context.screenshot_png_base64 is Some ==> !now.context.has_text() && now.stage
                is Finished
        }),
    decreases answers.len(),
{
    if answers.len() > 0 {
        lemma_screenshot_without_text(want_text, want_screenshot, answers.drop_last());
        law_only_what_is_wanted_is_read(want_text, want_screenshot, answers.drop_last());
    }
}

/// The captured text is truncated hard: whatever the interface hands over,
/// neither side is ever longer than [`TEXT_WINDOW`] characters.
pub proof fn law_captured_text_is_truncated(
    want_text: bool,
    want_screenshot: bool,
    answers: Seq<crate::accessibility::AnswerView>,
)
    ensures
        ({
            let start = crate::accessibility::CaptureView::start(want_text, want_screenshot);
            &&& after(start, answers).context.before.len() <= TEXT_WINDOW
            &&& after(start, answers).context.after.len() <= TEXT_WINDOW
        }),
    decreases answers.len(),
{
    if answers.len() > 0 {
        law_captured_text_is_truncated(want_text, want_screenshot, answers.drop_last());
    }
}

/// The text that a readable element gives is the text that is captured: what it
/// answers for the range that ends at the caret, to its last 200 characters, and
/// what it answers for the range that begins behind the selection, to its first
/// 200. An answer within that length is kept character for character.
pub proof fn law_given_text_is_captured(
    desktop: Desktop,
    want_screenshot: bool,
    range: TextRange,
    before: Seq<char>,
    after: Seq<char>,
)
    requires
        desktop.trusted && desktop.system_wide && desktop.focused,
        desktop.subrole != Some("AXSecureTextField"@),
        desktop.range == Some(range),
        range.location > 0,
        range.length >= 0,
        range.location + range.length <= isize::MAX,
        ({
            let start = if range.location > 200 {
                range.location - 200
            } else {
                0
            };
            let length = range.location - start;
            let asked = TextRange { location: start as isize, length: length as isize };
            desktop.strings.contains_key(asked) && desktop.strings[asked] == before
        }),
        ({
            let asked = TextRange {
                location: (range.location + range.length) as isize,
                length: 200,
            };
            desktop.strings.contains_key(asked) && desktop.strings[asked] == after
        }),
    ensures
        ({
            let context = desktop.text_context(true);
            &&& before.len() <= 200 ==> context.before == before
            &&& before.len() > 200 ==> context.before == before.skip(before.len() - 200)
            &&& after.len() <= 200 ==> context.after == after
            &&& after.len() > 200 ==> context.after == after.take(200)
            &&& (exists|i: int|
                0 <= i < context.before.len() && !crate::laws::text::is_white_space_number(
                    #[trigger] context.before[i] as int,
                )) ==> desktop.captured(true, want_screenshot) == Some(context)
        }),
{
}

/// A text that is there stands for itself, and one that is missing for nothing.
pub proof fn law_missing_text_is_empty(text: Seq<char>)
    ensures
        crate::accessibility::or_empty(Some(text)) == text,
        crate::accessibility::or_empty(None).len() == 0,
{
}

} // verus!
