//! The screenshot of the area around the caret.
use vstd::prelude::*;
use crate::base64::base64_encode;
use crate::geometry::Rect;

verus! {

/// How long to wait for a capture to report back, in seconds. The capture is on
/// the dictation's critical path, so a wedged window server must not hold up
/// the transcription.
pub const CAPTURE_TIMEOUT_SECONDS: u64 = 2;

/// What came of one attempt to capture the screen.
#[derive(Debug)]
pub enum Shot {
    /// The captured image, as PNG.
    Png(Vec<u8>),
    /// The capture gave no image, or the image could not be written as PNG.
    NoImage,
    /// The capture did not report back in time.
    TimedOut,
}

/// What a [`Shot`] holds.
#[verifier::ext_equal]
pub enum ShotView {
    Png(Seq<u8>),
    NoImage,
    TimedOut,
}

impl View for Shot {
    type V = ShotView;

    open spec fn view(&self) -> ShotView {
        match self {
            Shot::Png(bytes) => ShotView::Png(bytes@),
            Shot::NoImage => ShotView::NoImage,
            Shot::TimedOut => ShotView::TimedOut,
        }
    }
}

/// The text of a PNG image that is not empty.
pub open spec fn png_text(png: Seq<u8>) -> Option<Seq<char>> {
    if png.len() == 0 {
        None
    } else {
        Some(crate::base64::base64_of(png))
    }
}

impl ShotView {
    /// The captured image as text.
    pub open spec fn text(self) -> Option<Seq<char>> {
        match self {
            ShotView::Png(png) => png_text(png),
            _ => None,
        }
    }
}

/// The image as base64 text; nothing for an image without any bytes.
pub fn encode_png(png: &[u8]) -> (text: Option<String>)
    ensures
        crate::context_capture::text_view(text) == png_text(png@),
{
    if png.len() == 0 {
        return None;
    }
    Some(base64_encode(png))
}

/// The captured image as base64 text, if the capture gave one.
pub fn capture_rect(shot: Shot) -> (text: Option<String>)
    ensures
        crate::context_capture::text_view(text) == shot@.text(),
{
    match shot {
        Shot::Png(png) => encode_png(png.as_slice()),
        Shot::NoImage => None,
        Shot::TimedOut => None,
    }
}

/// The capture of a square in progress: each step names what is to be done
/// next, around which anchor.
#[derive(Debug)]
pub enum Square {
    /// Check the Screen Recording permission.
    CheckPermission(Rect),
    /// Check whether the system has the current capture interface. It comes
    /// first: on recent systems it is the only one that still returns real
    /// pixels.
    CheckAvailable(Rect),
    /// Capture through the current interface.
    Capture(Rect),
    /// Capture through the interface of older systems.
    CaptureLegacy(Rect),
    /// Nothing more to do.
    Finished(Option<String>),
}

/// What a [`Square`] holds.
#[verifier::ext_equal]
pub enum SquareView {
    CheckPermission(Rect),
    CheckAvailable(Rect),
    Capture(Rect),
    CaptureLegacy(Rect),
    Finished(Option<Seq<char>>),
}

/// What became of a step of the capture.
#[derive(Debug)]
pub enum SquareEvent {
    Checked(bool),
    Available(bool),
    Shot(Shot),
}

/// What a [`SquareEvent`] holds.
#[verifier::ext_equal]
pub enum SquareEventView {
    Checked(bool),
    Available(bool),
    Shot(ShotView),
}

impl View for Square {
    type V = SquareView;

    open spec fn view(&self) -> SquareView {
        match self {
            Square::CheckPermission(anchor) => SquareView::CheckPermission(*anchor),
            Square::CheckAvailable(anchor) => SquareView::CheckAvailable(*anchor),
            Square::Capture(anchor) => SquareView::Capture(*anchor),
            Square::CaptureLegacy(anchor) => SquareView::CaptureLegacy(*anchor),
            Square::Finished(text) => SquareView::Finished(
                crate::context_capture::text_view(*text),
            ),
        }
    }
}

impl View for SquareEvent {
    type V = SquareEventView;

    open spec fn view(&self) -> SquareEventView {
        match self {
            SquareEvent::Checked(granted) => SquareEventView::Checked(*granted),
            SquareEvent::Available(found) => SquareEventView::Available(*found),
            SquareEvent::Shot(shot) => SquareEventView::Shot(shot@),
        }
    }
}

impl SquareView {
    /// The step after `event`. An event that does not belong to the step is
    /// ignored.
    pub open spec fn next(self, event: SquareEventView) -> SquareView {
        match (self, event) {
            (SquareView::CheckPermission(anchor), SquareEventView::Checked(granted)) => if granted {
                SquareView::CheckAvailable(anchor)
            } else {
                SquareView::Finished(None)
            },
            (SquareView::CheckAvailable(anchor), SquareEventView::Available(found)) => if found {
                SquareView::Capture(anchor)
            } else {
                SquareView::CaptureLegacy(anchor)
            },
            (SquareView::Capture(anchor), SquareEventView::Shot(shot)) => if shot.text() is Some {
                SquareView::Finished(shot.text())
            } else {
                SquareView::CaptureLegacy(anchor)
            },
            (SquareView::CaptureLegacy(_), SquareEventView::Shot(shot)) => SquareView::Finished(
                shot.text(),
            ),
            (_, _) => self,
        }
    }

    /// The step after a run of events.
    pub open spec fn after(self, events: Seq<SquareEventView>) -> SquareView
        decreases events.len(),
    {
        if events.len() == 0 {
            self
        } else {
            self.after(events.drop_last()).next(events.last())
        }
    }
}

/// Begin to capture the square of [`crate::geometry::SCREENSHOT_SIDE`] points
/// centred on `anchor`.
pub fn capture_square(anchor: Rect) -> (step: Square)
    ensures
        step@ == SquareView::CheckPermission(anchor),
{
    Square::CheckPermission(anchor)
}

impl Square {
    /// Go on after `event`.
    pub fn resume(self, event: SquareEvent) -> (next: Square)
        ensures
            next@ == self@.next(event@),
    {
        match (self, event) {
            (Square::CheckPermission(anchor), SquareEvent::Checked(granted)) => if granted {
                Square::CheckAvailable(anchor)
            } else {
                Square::Finished(None)
            },
            (Square::CheckAvailable(anchor), SquareEvent::Available(found)) => if found {
                Square::Capture(anchor)
            } else {
                Square::CaptureLegacy(anchor)
            },
            (Square::Capture(anchor), SquareEvent::Shot(shot)) => match capture_rect(shot) {
                Some(text) => Square::Finished(Some(text)),
                None => Square::CaptureLegacy(anchor),
            },
            (Square::CaptureLegacy(_), SquareEvent::Shot(shot)) => Square::Finished(
                capture_rect(shot),
            ),
            (step, _) => step,
        }
    }
}

/// A capture ends with nothing where the permission is missing, otherwise with
/// the image of the current interface, where there is one, or else with that of
/// the older one.
pub proof fn law_square_outcome(
    anchor: Rect,
    granted: bool,
    available: bool,
    shot: ShotView,
    legacy: ShotView,
)
    ensures
        ({
            let checked = SquareView::CheckPermission(anchor).next(
                SquareEventView::Checked(granted),
            );
            let found = checked.next(SquareEventView::Available(available));
            if !granted {
                checked == SquareView::Finished(None)
            } else if !available {
                found.next(SquareEventView::Shot(legacy)) == SquareView::Finished(legacy.text())
            } else if shot.text() is Some {
                found.next(SquareEventView::Shot(shot)) == SquareView::Finished(shot.text())
            } else {
                found.next(SquareEventView::Shot(shot)).next(SquareEventView::Shot(legacy))
                    == SquareView::Finished(legacy.text())
            }
        }),
{
}

/// No pixels without the permission: as long as no check has found it granted,
/// no capture is begun and no image comes out.
pub proof fn law_no_capture_without_permission(anchor: Rect, events: Seq<SquareEventView>)
    requires
        !events.contains(SquareEventView::Checked(true)),
    ensures
        ({
            let step = SquareView::CheckPermission(anchor).after(events);
            step == SquareView::CheckPermission(anchor) || step == SquareView::Finished(None)
        }),
    decreases events.len(),
{
    if events.len() > 0 {
        let shorter = events.drop_last();
        assert forall|i: int| 0 <= i < shorter.len() implies shorter[i]
            != SquareEventView::Checked(true) by {
            assert(events[i] == shorter[i]);
        }
        law_no_capture_without_permission(anchor, shorter);
        assert(events.last() == events[events.len() - 1]);
    }
}

/// Both interfaces are asked for the square around the same anchor, the one
/// that the capture was begun with.
pub proof fn law_anchor_is_kept(anchor: Rect, events: Seq<SquareEventView>)
    ensures
        match SquareView::CheckPermission(anchor).after(events) {
            SquareView::CheckPermission(a) => a == anchor,
            SquareView::CheckAvailable(a) => a == anchor,
            SquareView::Capture(a) => a == anchor,
            SquareView::CaptureLegacy(a) => a == anchor,
            SquareView::Finished(_) => true,
        },
    decreases events.len(),
{
    if events.len() > 0 {
        law_anchor_is_kept(anchor, events.drop_last());
    }
}

} // verus!
