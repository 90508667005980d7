//! Capture of the text surrounding the caret in the focused application, used
//! to give the post-processing LLM enough context to decide casing,
//! capitalization and whether the dictated text continues an existing sentence.
//!
//! Two capture strategies, in order:
//!
//! 1. **Accessibility text** (preferred): the characters immediately before and
//!    after the insertion point of the focused element.
//! 2. **Screenshot fallback** (opt-in, separate setting): a small square around
//!    the caret, when the focused element exposes no usable text.
//!
//! Privacy: capture is skipped entirely while secure input is active or when
//! the focused element is a secure text field, and the captured text is
//! truncated hard.
use vstd::prelude::*;
use crate::text::is_blank;

verus! {

/// A snapshot of what surrounds the insertion point when dictation ended.
#[derive(Debug)]
pub struct CaretContext {
    /// Text immediately before the caret.
    pub before: String,
    /// Text immediately after the caret.
    pub after: String,
    /// Human-readable name of the focused application, when it can be resolved.
    pub app_name: Option<String>,
    /// PNG screenshot of the area around the caret, base64-encoded. Only set
    /// when the text capture came up empty and the fallback is enabled.
    pub screenshot_png_base64: Option<String>,
}

/// What a [`CaretContext`] holds.
#[verifier::ext_equal]
pub struct ContextView {
    pub before: Seq<char>,
    pub after: Seq<char>,
    pub app_name: Option<Seq<char>>,
    pub screenshot_png_base64: Option<Seq<char>>,
}

/// The characters of a text that may be missing.
pub open spec fn text_view(text: Option<String>) -> Option<Seq<char>> {
    match text {
        Some(t) => Some(t@),
        None => None,
    }
}

impl View for CaretContext {
    type V = ContextView;

    open spec fn view(&self) -> ContextView {
        ContextView {
            before: self.before@,
            after: self.after@,
            app_name: text_view(self.app_name),
            screenshot_png_base64: text_view(self.screenshot_png_base64),
        }
    }
}

impl ContextView {
    /// A context with nothing in it.
    pub open spec fn blank() -> ContextView {
        ContextView {
            before: seq![],
            after: seq![],
            app_name: None,
            screenshot_png_base64: None,
        }
    }

    /// There is text on one side of the caret at least.
    pub open spec fn has_text(self) -> bool {
        !crate::text::blank(self.before) || !crate::text::blank(self.after)
    }

    /// Neither text nor a screenshot.
    pub open spec fn is_empty(self) -> bool {
        !self.has_text() && self.screenshot_png_base64 is None
    }
}

/// What a context that may be missing holds.
pub open spec fn context_view(context: Option<CaretContext>) -> Option<ContextView> {
    match context {
        Some(c) => Some(c@),
        None => None,
    }
}

impl Default for CaretContext {
    fn default() -> (context: Self)
        ensures
            context@ == ContextView::blank(),
    {
        CaretContext {
            before: String::new(),
            after: String::new(),
            app_name: None,
            screenshot_png_base64: None,
        }
    }
}

impl Clone for CaretContext {
    fn clone(&self) -> (context: Self)
        ensures
            context@ == self@,
    {
        CaretContext {
            before: self.before.clone(),
            after: self.after.clone(),
            app_name: self.app_name.clone(),
            screenshot_png_base64: self.screenshot_png_base64.clone(),
        }
    }
}

impl CaretContext {
    /// True when nothing usable was captured, so the context block should be
    /// left out of the prompt entirely.
    pub fn is_empty(&self) -> (b: bool)
        ensures
            b == self@.is_empty(),
    {
        is_blank(self.before.as_str()) && is_blank(self.after.as_str())
            && self.screenshot_png_base64.is_none()
    }

    /// True when there is text on either side of the caret.
    pub fn has_text(&self) -> (b: bool)
        ensures
            b == self@.has_text(),
    {
        !is_blank(self.before.as_str()) || !is_blank(self.after.as_str())
    }
}

/// The context captured when a dictation ends, held until the post-processing
/// step consumes it.
///
/// One slot serves the whole process: there is only ever one recording in
/// flight. A new capture always replaces the previous one, so an abandoned
/// recording cannot leak its context into the next dictation.
///
/// The slot lives behind a lock. Once a thread has panicked while holding it
/// the slot is poisoned: nothing is stored in it, dropped from it or taken out
/// of it any more.
#[derive(Debug)]
pub struct Pending {
    pub context: Option<CaretContext>,
    pub poisoned: bool,
}

/// What a [`Pending`] slot holds.
#[verifier::ext_equal]
pub struct PendingView {
    pub context: Option<ContextView>,
    pub poisoned: bool,
}

impl View for Pending {
    type V = PendingView;

    open spec fn view(&self) -> PendingView {
        PendingView { context: context_view(self.context), poisoned: self.poisoned }
    }
}

impl PendingView {
    /// The slot with `context` in place of what it held.
    pub open spec fn replaced(self, context: Option<ContextView>) -> PendingView {
        if self.poisoned {
            self
        } else {
            PendingView { context, poisoned: false }
        }
    }

    /// What there is to take out of the slot.
    pub open spec fn available(self) -> Option<ContextView> {
        if self.poisoned {
            None
        } else {
            self.context
        }
    }

    /// The slot once a dictation has asked for a capture.
    pub open spec fn requested(self, want_text: bool, want_screenshot: bool) -> PendingView {
        if want_text || want_screenshot {
            self
        } else {
            self.replaced(None)
        }
    }

    /// The slot once it is known whether secure input is active.
    pub open spec fn secured(self, active: bool) -> PendingView {
        if active {
            self.replaced(None)
        } else {
            self
        }
    }
}

impl Pending {
    /// An empty slot.
    pub fn new() -> (pending: Self)
        ensures
            pending@ == (PendingView { context: None, poisoned: false }),
    {
        Pending { context: None, poisoned: false }
    }
}

/// A capture that waits to learn whether secure input is active.
#[derive(Debug, Clone, Copy, PartialEq, Eq, Structural)]
pub struct SecureInputCheck {
    pub want_text: bool,
    pub want_screenshot: bool,
}

/// A capture that waits for what the platform finds around the caret.
#[derive(Debug, Clone, Copy, PartialEq, Eq, Structural)]
pub struct PlatformCapture {
    pub want_text: bool,
    pub want_screenshot: bool,
}

/// Begin to capture the caret context for the dictation that is finishing.
///
/// Called when recording stops rather than when it starts, because the caret is
/// free to move while the user is talking and it is the position at stop that
/// decides where the transcript lands.
///
/// `want_text` and `want_screenshot` come straight from the two user-facing
/// settings. With both off there is nothing to capture and the slot is emptied.
pub fn capture_for_dictation(pending: &mut Pending, want_text: bool, want_screenshot: bool) -> (next:
    Option<SecureInputCheck>)
    ensures
        final(pending)@ == old(pending)@.requested(want_text, want_screenshot),
        next == if want_text || want_screenshot {
            Some(SecureInputCheck { want_text, want_screenshot })
        } else {
            None
        },
{
    if !want_text && !want_screenshot {
        clear(pending);
        return None;
    }
    Some(SecureInputCheck { want_text, want_screenshot })
}

impl SecureInputCheck {
    /// Secure input means a password field (or a terminal's secure entry) has
    /// the keyboard. Neither text nor pixels are read in that state, and the
    /// slot is emptied.
    pub fn resume(self, pending: &mut Pending, active: bool) -> (next: Option<PlatformCapture>)
        ensures
            final(pending)@ == old(pending)@.secured(active),
            next == if active {
                None
            } else {
                Some(
                    PlatformCapture {
                        want_text: self.want_text,
                        want_screenshot: self.want_screenshot,
                    },
                )
            },
    {
        if active {
            clear(pending);
            return None;
        }
        Some(PlatformCapture { want_text: self.want_text, want_screenshot: self.want_screenshot })
    }
}

impl PlatformCapture {
    /// Put what the platform captured into the slot, in place of what was
    /// there.
    pub fn resume(self, pending: &mut Pending, captured: Option<CaretContext>)
        ensures
            final(pending)@ == old(pending)@.replaced(context_view(captured)),
    {
        if !pending.poisoned {
            pending.context = captured;
        }
    }
}

/// Take the context captured for the current dictation, leaving the slot empty
/// so it can never be reused by a later one.
pub fn take(pending: &mut Pending) -> (context: Option<CaretContext>)
    ensures
        context_view(context) == old(pending)@.available(),
        final(pending)@ == old(pending)@.replaced(None),
{
    if pending.poisoned {
        return None;
    }
    pending.context.take()
}

/// Drop any pending context (cancelled dictation, capture disabled).
pub fn clear(pending: &mut Pending)
    ensures
        final(pending)@ == old(pending)@.replaced(None),
{
    if !pending.poisoned {
        pending.context = None;
    }
}

/// A finished dictation leaves in the slot what was captured for it, or nothing
/// when nothing was wanted or secure input was active: never the context of an
/// earlier one.
pub proof fn law_dictation_replaces_the_previous_context(
    pending: PendingView,
    want_text: bool,
    want_screenshot: bool,
    secure_input: bool,
    captured: Option<ContextView>,
)
    requires
        !pending.poisoned,
    ensures
        ({
            let requested = pending.requested(want_text, want_screenshot);
            if !want_text && !want_screenshot {
                requested.context is None
            } else if secure_input {
                requested.secured(true).context is None
            } else {
                requested.secured(false).replaced(captured).context == captured
            }
        }),
{
}

/// Nothing that a dictation does changes a poisoned slot, and nothing comes
/// out of it.
pub proof fn law_poisoned_slot_is_inert(
    pending: PendingView,
    want_text: bool,
    want_screenshot: bool,
    secure_input: bool,
    captured: Option<ContextView>,
)
    requires
        pending.poisoned,
    ensures
        pending.requested(want_text, want_screenshot) == pending,
        pending.secured(secure_input) == pending,
        pending.replaced(captured) == pending,
        pending.available() is None,
{
}

/// A context is taken only once: whatever was taken or dropped, there is
/// nothing left to take.
pub proof fn law_context_is_taken_only_once(pending: PendingView)
    ensures
        pending.replaced(None).available() is None,
{
}

/// What a capture has stored is what the next take hands out.
pub proof fn law_stored_context_is_taken(pending: PendingView, captured: Option<ContextView>)
    requires
        !pending.poisoned,
    ensures
        pending.replaced(captured).available() == captured,
{
}

/// A fresh context is empty, and one with text or a screenshot is not.
pub proof fn law_empty_context(context: ContextView)
    ensures
        ContextView::blank().is_empty(),
        context.has_text() ==> !context.is_empty(),
        context.screenshot_png_base64 is Some ==> !context.is_empty(),
{
}

} // verus!
