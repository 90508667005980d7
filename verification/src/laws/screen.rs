//! Positions on the screen and the capture of a square.
use vstd::prelude::*;
use crate::geometry::{element_bounds, is_finite, Point, Rect, Size};
use crate::screenshot::{capture_square, Shot, Square, SquareEvent};

verus! {

/// A double is finite exactly when its magnitude, the bit pattern without the
/// sign, is below that of infinity.
pub proof fn law_finite_is_below_infinity(bits: u64, b: bool)
    requires
        call_ensures(is_finite, (bits,), b),
    ensures
        b <==> bits % 0x8000_0000_0000_0000 < 0x7ff0_0000_0000_0000,
{
    assert((bits / 0x10_0000_0000_0000 % 2048 != 2047) == (bits % 0x8000_0000_0000_0000
        < 0x7ff0_0000_0000_0000)) by (bit_vector);
}

/// A rectangle is bounded exactly when both its sides are finite. Where it is
/// does not matter.
pub proof fn law_bounded_is_finite_on_both_sides(rect: Rect, b: bool)
    requires
        call_ensures(Rect::is_bounded, (&rect,), b),
    ensures
        b <==> {
            &&& rect.size.width % 0x8000_0000_0000_0000 < 0x7ff0_0000_0000_0000
            &&& rect.size.height % 0x8000_0000_0000_0000 < 0x7ff0_0000_0000_0000
        },
{
    let w = rect.size.width;
    let h = rect.size.height;
    assert((w / 0x10_0000_0000_0000 % 2048 != 2047) == (w % 0x8000_0000_0000_0000
        < 0x7ff0_0000_0000_0000)) by (bit_vector);
    assert((h / 0x10_0000_0000_0000 % 2048 != 2047) == (h % 0x8000_0000_0000_0000
        < 0x7ff0_0000_0000_0000)) by (bit_vector);
}

/// An element has bounds exactly when it reports both its position and its size,
/// and then these.
pub proof fn law_element_bounds_are_position_and_size(
    origin: Option<Point>,
    size: Option<Size>,
    bounds: Option<Rect>,
)
    requires
        call_ensures(element_bounds, (origin, size), bounds),
    ensures
        origin is None || size is None ==> bounds is None,
        origin is Some && size is Some ==> bounds is Some && bounds->0.origin == origin->0
            && bounds->0.size == size->0,
{
}

/// The text is the base64 form of the image, or missing where there is no image
/// or it has no bytes.
pub open spec fn is_text_of(text: Option<String>, shot: Shot) -> bool {
    match text {
        Some(t) => {
            &&& shot is Png
            &&& shot->Png_0@.len() > 0
            &&& crate::base64::base64_decoded(t@) == shot->Png_0@
            &&& forall|png: &[u8], same: String|
                png@ == shot->Png_0@ && #[trigger] call_ensures(
                    crate::base64::base64_encode,
                    (png,),
                    same,
                ) ==> same@ == t@
        },
        None => !(shot is Png && shot->Png_0@.len() > 0),
    }
}

/// A capture of a square begins with the permission. Without it the capture is
/// over and has nothing.
pub proof fn law_square_needs_the_permission(anchor: Rect, begun: Square, refused: Square)
    requires
        call_ensures(capture_square, (anchor,), begun),
        call_ensures(Square::resume, (begun, SquareEvent::Checked(false)), refused),
    ensures
        begun == Square::CheckPermission(anchor),
        refused == Square::Finished(None),
{
    assert(begun@ == crate::screenshot::SquareView::CheckPermission(anchor));
    assert(refused@ == crate::screenshot::SquareView::Finished(None));
}

/// With the permission, the current interface is asked for the square where the
/// system has it, and a non-empty image from it is the result. Without such an
/// image the older interface is asked for the same square.
pub proof fn law_square_from_the_current_interface(
    anchor: Rect,
    begun: Square,
    granted: Square,
    found: Square,
    shot: Shot,
    shown: Square,
)
    requires
        call_ensures(capture_square, (anchor,), begun),
        call_ensures(Square::resume, (begun, SquareEvent::Checked(true)), granted),
        call_ensures(Square::resume, (granted, SquareEvent::Available(true)), found),
        call_ensures(Square::resume, (found, SquareEvent::Shot(shot)), shown),
    ensures
        granted == Square::CheckAvailable(anchor),
        found == Square::Capture(anchor),
        shot is Png && shot->Png_0@.len() > 0 ==> shown is Finished && shown->Finished_0 is Some
            && is_text_of(shown->Finished_0, shot),
        !(shot is Png && shot->Png_0@.len() > 0) ==> shown == Square::CaptureLegacy(anchor),
{
    if let Shot::Png(png) = shot {
        crate::base64::law_base64_round_trip(png@);
    }
    assert(granted@ == crate::screenshot::SquareView::CheckAvailable(anchor));
    assert(found@ == crate::screenshot::SquareView::Capture(anchor));
}

/// Where the system does not have the current interface, the older one is asked
/// at once.
pub proof fn law_square_without_the_current_interface(
    anchor: Rect,
    begun: Square,
    granted: Square,
    missing: Square,
)
    requires
        call_ensures(capture_square, (anchor,), begun),
        call_ensures(Square::resume, (begun, SquareEvent::Checked(true)), granted),
        call_ensures(Square::resume, (granted, SquareEvent::Available(false)), missing),
    ensures
        missing == Square::CaptureLegacy(anchor),
{
    assert(granted@ == crate::screenshot::SquareView::CheckAvailable(anchor));
    assert(missing@ == crate::screenshot::SquareView::CaptureLegacy(anchor));
}

/// What the older interface gives is the result, be it an image or nothing.
pub proof fn law_square_from_the_older_interface(anchor: Rect, legacy: Shot, shown: Square)
    requires
        call_ensures(
            Square::resume,
            (Square::CaptureLegacy(anchor), SquareEvent::Shot(legacy)),
            shown,
        ),
    ensures
        shown is Finished,
        is_text_of(shown->Finished_0, legacy),
{
    if let Shot::Png(png) = legacy {
        crate::base64::law_base64_round_trip(png@);
    }
}

/// An event that is no answer to the step changes nothing, and nothing changes a
/// capture that is over.
pub proof fn law_square_ignores_other_events(step: Square, event: SquareEvent, next: Square)
    requires
        call_ensures(Square::resume, (step, event), next),
        match step {
            Square::CheckPermission(_) => !(event is Checked),
            Square::CheckAvailable(_) => !(event is Available),
            Square::Capture(_) => !(event is Shot),
            Square::CaptureLegacy(_) => !(event is Shot),
            Square::Finished(_) => true,
        },
    ensures
        match step {
            Square::Finished(text) => next is Finished && crate::laws::same_text(
                next->Finished_0,
                text,
            ),
            _ => next == step,
        },
{
    assert(next@ == step@);
}

} // verus!
