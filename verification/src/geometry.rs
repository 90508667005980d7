//! Positions and sizes on the screen.
//!
//! A coordinate is held as the bit pattern of an IEEE 754 double: the library
//! hands coordinates on and tells finite ones from the others, and does no
//! arithmetic on them.
use vstd::prelude::*;

verus! {

/// Side length, in points, of the square grabbed around the caret.
pub const SCREENSHOT_SIDE: u32 = 300;

/// A point in global screen coordinates.
#[derive(Debug, Clone, Copy, PartialEq, Eq, Structural)]
pub struct Point {
    pub x: u64,
    pub y: u64,
}

/// The extent of a rectangle.
#[derive(Debug, Clone, Copy, PartialEq, Eq, Structural)]
pub struct Size {
    pub width: u64,
    pub height: u64,
}

/// A rectangle in global screen coordinates.
#[derive(Debug, Clone, Copy, PartialEq, Eq, Structural)]
pub struct Rect {
    pub origin: Point,
    pub size: Size,
}

/// The double with this bit pattern is neither infinite nor a NaN: its eleven
/// exponent bits are not all ones.
pub open spec fn finite(bits: u64) -> bool {
    bits as int / 0x10_0000_0000_0000 % 2048 != 2047
}

impl Rect {
    /// Both sides are finite.
    pub open spec fn bounded(self) -> bool {
        finite(self.size.width) && finite(self.size.height)
    }
}

/// Whether the double with this bit pattern is finite.
pub fn is_finite(bits: u64) -> (b: bool)
    ensures
        b == finite(bits),
{
    assert((bits >> 52) & 0x7ff == bits / 0x10_0000_0000_0000 % 2048) by (bit_vector);
    (bits >> 52) & 0x7ff != 0x7ff
}

impl Rect {
    /// Whether both sides of the rectangle are finite.
    pub fn is_bounded(&self) -> (b: bool)
        ensures
            b == self.bounded(),
    {
        is_finite(self.size.width) && is_finite(self.size.height)
    }
}

/// The bounds of an element that reports both its position and its size.
pub fn element_bounds(origin: Option<Point>, size: Option<Size>) -> (bounds: Option<Rect>)
    ensures
        bounds is Some <==> origin is Some && size is Some,
        bounds matches Some(rect) ==> Some(rect.origin) == origin && Some(rect.size) == size,
{
    match (origin, size) {
        (Some(origin), Some(size)) => Some(Rect { origin, size }),
        (_, _) => None,
    }
}

} // verus!
