//! Reading the caret context out of the focused element, one query at a time.
//!
//! A [`Capture`] names the next query; whoever drives it asks the accessibility
//! interface and hands back the answer, until there is nothing left to ask.
use vstd::prelude::*;
use crate::context_capture::CaretContext;
use crate::geometry::{element_bounds, Point, Rect, Size};
use crate::text::{head, tail, TEXT_WINDOW};
use crate::text_range::{
    caret_position,
    range_after,
    range_before,
    selected_caret,
    slice_full_value,
    string_for_range,
    Caret,
    TextRange,
};

verus! {

/// What the capture needs to know next.
#[derive(Debug, Clone, Copy, PartialEq, Eq, Structural)]
pub enum Query {
    /// Whether the process holds the Accessibility permission.
    ProcessTrusted,
    /// Whether the system-wide element can be had.
    SystemWideElement,
    /// Whether some element has the focus.
    FocusedElement,
    /// The subrole of the focused element.
    Subrole,
    /// Whether some application has the focus.
    FocusedApplication,
    /// The title of the focused application.
    ApplicationTitle,
    /// The selected range of the focused element.
    SelectedRange,
    /// The focused element's text in a range.
    StringForRange(TextRange),
    /// The focused element's full text.
    FullValue,
    /// Where on the screen a range of the focused element's text is.
    BoundsForRange(TextRange),
    /// Where on the screen the focused element is.
    Position,
    /// How large the focused element is.
    ElementSize,
    /// A screenshot of the square around an anchor.
    Screenshot(Rect),
}

/// The answer to a [`Query`].
#[derive(Debug)]
pub enum Answer {
    Flag(bool),
    Text(Option<String>),
    Range(Option<TextRange>),
    Bounds(Option<Rect>),
    Position(Option<Point>),
    Size(Option<Size>),
}

/// What an [`Answer`] holds.
#[verifier::ext_equal]
pub enum AnswerView {
    Flag(bool),
    Text(Option<Seq<char>>),
    Range(Option<TextRange>),
    Bounds(Option<Rect>),
    Position(Option<Point>),
    Size(Option<Size>),
}

impl View for Answer {
    type V = AnswerView;

    open spec fn view(&self) -> AnswerView {
        match self {
            Answer::Flag(b) => AnswerView::Flag(*b),
            Answer::Text(text) => AnswerView::Text(crate::context_capture::text_view(*text)),
            Answer::Range(range) => AnswerView::Range(*range),
            Answer::Bounds(rect) => AnswerView::Bounds(*rect),
            Answer::Position(point) => AnswerView::Position(*point),
            Answer::Size(size) => AnswerView::Size(*size),
        }
    }
}

/// How far a capture has come.
#[derive(Debug, Clone, Copy, PartialEq, Eq, Structural)]
pub enum Stage {
    Trust,
    SystemWide,
    Focus,
    Subrole,
    Application,
    Title,
    Range,
    /// Reading the text before the caret.
    Before(Caret),
    /// Reading the text after the caret.
    After(Caret),
    /// Reading the full text, as the element could not tell either side.
    Value(Caret),
    /// Looking for the caret on the screen.
    CaretBounds(isize),
    /// Looking for the element on the screen.
    Position,
    /// Looking for the extent of the element at the position.
    Size(Point),
    /// Taking a screenshot around the anchor.
    Screenshot(Rect),
    /// Given up: there is nothing that may or can be read.
    Abandoned,
    /// Everything that was to be read has been.
    Finished,
}

/// The capture of the caret context in progress.
#[derive(Debug)]
pub struct Capture {
    pub want_text: bool,
    pub want_screenshot: bool,
    pub stage: Stage,
    /// What the element said to be before the caret.
    pub read_before: Option<String>,
    /// What has been captured.
    pub context: CaretContext,
}

/// What a [`Capture`] holds.
#[verifier::ext_equal]
pub struct CaptureView {
    pub want_text: bool,
    pub want_screenshot: bool,
    pub stage: Stage,
    pub read_before: Option<Seq<char>>,
    pub context: crate::context_capture::ContextView,
}

impl View for Capture {
    type V = CaptureView;

    open spec fn view(&self) -> CaptureView {
        CaptureView {
            want_text: self.want_text,
            want_screenshot: self.want_screenshot,
            stage: self.stage,
            read_before: crate::context_capture::text_view(self.read_before),
            context: self.context@,
        }
    }
}

/// The subrole of elements that are never read.
pub open spec fn secure_subrole() -> Seq<char> {
    "AXSecureTextField"@
}

/// A text, or the empty text where there is none.
pub open spec fn or_empty(text: Option<Seq<char>>) -> Seq<char> {
    match text {
        Some(t) => t,
        None => seq![],
    }
}

/// The character range that the caret itself takes up.
pub open spec fn caret_range(at: isize) -> TextRange {
    TextRange { location: at, length: 1 }
}

impl Stage {
    /// The query that the stage waits for, if any.
    pub open spec fn query(self) -> Option<Query> {
        match self {
            Stage::Trust => Some(Query::ProcessTrusted),
            Stage::SystemWide => Some(Query::SystemWideElement),
            Stage::Focus => Some(Query::FocusedElement),
            Stage::Subrole => Some(Query::Subrole),
            Stage::Application => Some(Query::FocusedApplication),
            Stage::Title => Some(Query::ApplicationTitle),
            Stage::Range => Some(Query::SelectedRange),
            Stage::Before(caret) => Some(Query::StringForRange(caret.range_before())),
            Stage::After(caret) => Some(Query::StringForRange(caret.range_after())),
            Stage::Value(_) => Some(Query::FullValue),
            Stage::CaretBounds(at) => Some(Query::BoundsForRange(caret_range(at))),
            Stage::Position => Some(Query::Position),
            Stage::Size(_) => Some(Query::ElementSize),
            Stage::Screenshot(anchor) => Some(Query::Screenshot(anchor)),
            Stage::Abandoned => None,
            Stage::Finished => None,
        }
    }
}

impl CaptureView {
    /// A capture that has not asked anything yet.
    pub open spec fn start(want_text: bool, want_screenshot: bool) -> CaptureView {
        CaptureView {
            want_text,
            want_screenshot,
            stage: Stage::Trust,
            read_before: None,
            context: crate::context_capture::ContextView::blank(),
        }
    }

    pub open spec fn at(self, stage: Stage) -> CaptureView {
        CaptureView { stage, ..self }
    }

    /// With the text on both sides of the caret, cut to the window.
    pub open spec fn with_text(self, before: Seq<char>, after: Seq<char>) -> CaptureView {
        CaptureView {
            context: crate::context_capture::ContextView {
                before: crate::text::tail_of(before, TEXT_WINDOW as nat),
                after: crate::text::head_of(after, TEXT_WINDOW as nat),
                ..self.context
            },
            ..self
        }
    }

    /// On to the screenshot, where it is wanted and the text came up empty. The
    /// caret is the anchor of choice, where there is one.
    pub open spec fn fall_back(self, caret: Option<isize>) -> CaptureView {
        if self.want_screenshot && !self.context.has_text() {
            match caret {
                Some(at) => self.at(Stage::CaretBounds(at)),
                None => self.at(Stage::Position),
            }
        } else {
            self.at(Stage::Finished)
        }
    }

    /// On to the text, where it is wanted and there is a caret.
    pub open spec fn with_range(self, range: Option<TextRange>) -> CaptureView {
        match range {
            Some(r) => if !self.want_text {
                self.fall_back(Some(r.start() as isize))
            } else if r.caret().range_before().length > 0 {
                self.at(Stage::Before(r.caret()))
            } else {
                self.at(Stage::After(r.caret()))
            },
            None => self.fall_back(None),
        }
    }

    /// The end of the selection can be told from the answer.
    pub open spec fn can_take(self, answer: AnswerView) -> bool {
        self.stage is Range && self.want_text ==> (answer matches AnswerView::Range(Some(range))
            ==> range.end() <= isize::MAX)
    }

    /// The capture after `answer`. An answer that does not belong to the query
    /// is ignored.
    pub open spec fn next(self, answer: AnswerView) -> CaptureView {
        match (self.stage, answer) {
            (Stage::Trust, AnswerView::Flag(trusted)) => self.at(
                if trusted {
                    Stage::SystemWide
                } else {
                    Stage::Abandoned
                },
            ),
            (Stage::SystemWide, AnswerView::Flag(found)) => self.at(
                if found {
                    Stage::Focus
                } else {
                    Stage::Abandoned
                },
            ),
            (Stage::Focus, AnswerView::Flag(found)) => self.at(
                if found {
                    Stage::Subrole
                } else {
                    Stage::Abandoned
                },
            ),
            (Stage::Subrole, AnswerView::Text(subrole)) => self.at(
                if subrole == Some(secure_subrole()) {
                    Stage::Abandoned
                } else {
                    Stage::Application
                },
            ),
            (Stage::Application, AnswerView::Flag(found)) => self.at(
                if found {
                    Stage::Title
                } else {
                    Stage::Range
                },
            ),
            (Stage::Title, AnswerView::Text(title)) => CaptureView {
                stage: Stage::Range,
                context: crate::context_capture::ContextView { app_name: title, ..self.context },
                ..self
            },
            (Stage::Range, AnswerView::Range(range)) => self.with_range(range),
            (Stage::Before(caret), AnswerView::Text(before)) => CaptureView {
                stage: Stage::After(caret),
                read_before: before,
                ..self
            },
            (Stage::After(caret), AnswerView::Text(after)) => if self.read_before is None
                && after is None {
                self.at(Stage::Value(caret))
            } else {
                CaptureView { read_before: None, ..self }.with_text(
                    or_empty(self.read_before),
                    or_empty(after),
                ).fall_back(Some(caret.before))
            },
            (Stage::Value(caret), AnswerView::Text(value)) => match value {
                Some(full) => self.with_text(
                    crate::text_range::around(full, caret.before as int).0,
                    crate::text_range::around(full, caret.after as int).1,
                ).fall_back(Some(caret.before)),
                None => self.fall_back(Some(caret.before)),
            },
            (Stage::CaretBounds(_), AnswerView::Bounds(bounds)) => match bounds {
                Some(rect) => if rect.bounded() {
                    self.at(Stage::Screenshot(rect))
                } else {
                    self.at(Stage::Position)
                },
                None => self.at(Stage::Position),
            },
            (Stage::Position, AnswerView::Position(position)) => match position {
                Some(origin) => self.at(Stage::Size(origin)),
                None => self.at(Stage::Finished),
            },
            (Stage::Size(origin), AnswerView::Size(size)) => match size {
                Some(size) => self.at(Stage::Screenshot(Rect { origin, size })),
                None => self.at(Stage::Finished),
            },
            (Stage::Screenshot(_), AnswerView::Text(text)) => CaptureView {
                stage: Stage::Finished,
                context: crate::context_capture::ContextView {
                    screenshot_png_base64: text,
                    ..self.context
                },
                ..self
            },
            (_, _) => self,
        }
    }

    /// What a capture has found: nothing before it is finished, and nothing
    /// where the context is empty.
    pub open spec fn outcome(self) -> Option<crate::context_capture::ContextView> {
        if self.stage is Finished && !self.context.is_empty() {
            Some(self.context)
        } else {
            None
        }
    }
}

fn is_secure(subrole: &Option<String>) -> (b: bool)
    ensures
        b == (crate::context_capture::text_view(*subrole) == Some(secure_subrole())),
{
    match subrole {
        Some(name) => *name == "AXSecureTextField".to_string(),
        None => false,
    }
}

/// Begin to capture the caret context of the focused element.
pub fn capture(want_text: bool, want_screenshot: bool) -> (capture: Capture)
    ensures
        capture@ == CaptureView::start(want_text, want_screenshot),
{
    Capture {
        want_text,
        want_screenshot,
        stage: Stage::Trust,
        read_before: None,
        context: CaretContext::default(),
    }
}

impl Capture {
    /// What to ask next; nothing once the capture is over.
    pub fn query(&self) -> (query: Option<Query>)
        ensures
            query == self@.stage.query(),
    {
        match self.stage {
            Stage::Trust => Some(Query::ProcessTrusted),
            Stage::SystemWide => Some(Query::SystemWideElement),
            Stage::Focus => Some(Query::FocusedElement),
            Stage::Subrole => Some(Query::Subrole),
            Stage::Application => Some(Query::FocusedApplication),
            Stage::Title => Some(Query::ApplicationTitle),
            Stage::Range => Some(Query::SelectedRange),
            Stage::Before(caret) => Some(Query::StringForRange(range_before(caret))),
            Stage::After(caret) => Some(Query::StringForRange(range_after(caret))),
            Stage::Value(_) => Some(Query::FullValue),
            Stage::CaretBounds(at) => Some(
                Query::BoundsForRange(TextRange { location: at, length: 1 }),
            ),
            Stage::Position => Some(Query::Position),
            Stage::Size(_) => Some(Query::ElementSize),
            Stage::Screenshot(anchor) => Some(Query::Screenshot(anchor)),
            Stage::Abandoned => None,
            Stage::Finished => None,
        }
    }

    fn at(self, stage: Stage) -> (next: Capture)
        ensures
            next@ == self@.at(stage),
    {
        Capture { stage, ..self }
    }

    fn with_text(self, before: &str, after: &str) -> (next: Capture)
        ensures
            next@ == self@.with_text(before@, after@),
    {
        let mut next = self;
        next.context.before = tail(before, TEXT_WINDOW);
        next.context.after = head(after, TEXT_WINDOW);
        next
    }

    /// The screenshot is a fallback, not an addition: it only runs when the
    /// accessibility text came up empty.
    fn fall_back(self, caret: Option<isize>) -> (next: Capture)
        ensures
            next@ == self@.fall_back(caret),
    {
        if self.want_screenshot && !self.context.has_text() {
            match caret {
                Some(at) => self.at(Stage::CaretBounds(at)),
                None => self.at(Stage::Position),
            }
        } else {
            self.at(Stage::Finished)
        }
    }

    fn with_range(self, range: Option<TextRange>) -> (next: Capture)
        requires
            self.want_text ==> (range matches Some(r) ==> r.end() <= isize::MAX),
        ensures
            next@ == self@.with_range(range),
    {
        match range {
            Some(range) => {
                if !self.want_text {
                    return self.fall_back(Some(caret_position(range)));
                }
                let caret = selected_caret(range);
                let before = range_before(caret);
                match string_for_range(before.location, before.length) {
                    Some(_) => self.at(Stage::Before(caret)),
                    None => self.at(Stage::After(caret)),
                }
            },
            None => self.fall_back(None),
        }
    }

    fn with_after(self, caret: Caret, after: Option<String>) -> (next: Capture)
        requires
            self@.stage == Stage::After(caret),
        ensures
            next@ == self@.next(AnswerView::Text(crate::context_capture::text_view(after))),
    {
        let mut this = self;
        let before = this.read_before.take();
        match (before, after) {
            // The element has a caret but cannot tell the text in a range.
            (None, None) => this.at(Stage::Value(caret)),
            (before, after) => {
                let before = match before {
                    Some(before) => before,
                    None => String::new(),
                };
                let after = match after {
                    Some(after) => after,
                    None => String::new(),
                };
                this.with_text(before.as_str(), after.as_str()).fall_back(Some(caret.before))
            },
        }
    }

    fn with_value(self, caret: Caret, value: Option<String>) -> (next: Capture)
        requires
            self@.stage == Stage::Value(caret),
        ensures
            next@ == self@.next(AnswerView::Text(crate::context_capture::text_view(value))),
    {
        match value {
            Some(full) => {
                // The trailing context skips over the selection.
                let (before, _) = slice_full_value(full.as_str(), caret.before);
                let (_, after) = slice_full_value(full.as_str(), caret.after);
                self.with_text(before.as_str(), after.as_str()).fall_back(Some(caret.before))
            },
            None => self.fall_back(Some(caret.before)),
        }
    }

    /// The caret rectangle is the anchor where both its sides are finite, the
    /// element itself otherwise.
    fn with_bounds(self, bounds: Option<Rect>) -> (next: Capture)
        requires
            self@.stage is CaretBounds,
        ensures
            next@ == self@.next(AnswerView::Bounds(bounds)),
    {
        match bounds {
            Some(rect) => if rect.is_bounded() {
                self.at(Stage::Screenshot(rect))
            } else {
                self.at(Stage::Position)
            },
            None => self.at(Stage::Position),
        }
    }

    /// Go on after `answer`.
    pub fn resume(self, answer: Answer) -> (next: Capture)
        requires
            self@.can_take(answer@),
        ensures
            next@ == self@.next(answer@),
    {
        let stage = self.stage;
        match (stage, answer) {
            (Stage::Trust, Answer::Flag(trusted)) => if trusted {
                self.at(Stage::SystemWide)
            } else {
                self.at(Stage::Abandoned)
            },
            (Stage::SystemWide, Answer::Flag(found)) => if found {
                self.at(Stage::Focus)
            } else {
                self.at(Stage::Abandoned)
            },
            (Stage::Focus, Answer::Flag(found)) => if found {
                self.at(Stage::Subrole)
            } else {
                self.at(Stage::Abandoned)
            },
            // Password fields and anything else marked secure are never read,
            // not even for the screenshot.
            (Stage::Subrole, Answer::Text(subrole)) => if is_secure(&subrole) {
                self.at(Stage::Abandoned)
            } else {
                self.at(Stage::Application)
            },
            (Stage::Application, Answer::Flag(found)) => if found {
                self.at(Stage::Title)
            } else {
                self.at(Stage::Range)
            },
            (Stage::Title, Answer::Text(title)) => {
                let mut next = self.at(Stage::Range);
                next.context.app_name = title;
                next
            },
            (Stage::Range, Answer::Range(range)) => self.with_range(range),
            (Stage::Before(caret), Answer::Text(before)) => {
                let mut next = self.at(Stage::After(caret));
                next.read_before = before;
                next
            },
            (Stage::After(caret), Answer::Text(after)) => self.with_after(caret, after),
            (Stage::Value(caret), Answer::Text(value)) => self.with_value(caret, value),
            (Stage::CaretBounds(_), Answer::Bounds(bounds)) => self.with_bounds(bounds),
            (Stage::Position, Answer::Position(position)) => match position {
                Some(origin) => self.at(Stage::Size(origin)),
                None => self.at(Stage::Finished),
            },
            (Stage::Size(origin), Answer::Size(size)) => match element_bounds(Some(origin), size) {
                Some(bounds) => self.at(Stage::Screenshot(bounds)),
                None => self.at(Stage::Finished),
            },
            (Stage::Screenshot(_), Answer::Text(text)) => {
                let mut next = self.at(Stage::Finished);
                next.context.screenshot_png_base64 = text;
                next
            },
            (_, _) => self,
        }
    }

    /// What the capture has found, once it is over: a context that is empty is
    /// none at all.
    pub fn into_context(self) -> (context: Option<CaretContext>)
        ensures
            crate::context_capture::context_view(context) == self@.outcome(),
    {
        match self.stage {
            Stage::Finished => if self.context.is_empty() {
                None
            } else {
                Some(self.context)
            },
            _ => None,
        }
    }
}

} // verus!
