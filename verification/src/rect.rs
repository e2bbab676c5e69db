use vstd::prelude::*;

verus! {

/// A sub-rectangle of the pixel buffer, in buffer coordinates, used to scope
/// a present call to the region that changed since the last frame.
#[derive(Clone, Copy, Debug, PartialEq, Eq)]
pub struct Rect {
    /// Horizontal origin of the rectangle.
    pub x: i32,
    /// Vertical origin of the rectangle.
    pub y: i32,
    /// Width of the rectangle.
    pub width: i32,
    /// Height of the rectangle.
    pub height: i32,
}

} // verus!
