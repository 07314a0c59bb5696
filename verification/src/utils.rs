use vstd::prelude::*;

verus! {

/// A point on the integer pixel grid.
#[derive(Clone, Copy, Debug, PartialEq, Eq, Structural)]
pub struct Point2D {
    pub x: i32,
    pub y: i32,
}

impl Default for Point2D {
    fn default() -> (p: Point2D)
        ensures
            p.x == 0 && p.y == 0,
    {
        Point2D { x: 0, y: 0 }
    }
}

/// A width and a height in pixels (also used for surface and window extents).
#[derive(Clone, Copy, Debug, PartialEq, Eq, Structural)]
pub struct Size2D {
    pub width: u32,
    pub height: u32,
}

impl Default for Size2D {
    fn default() -> (s: Size2D)
        ensures
            s.width == 0 && s.height == 0,
    {
        Size2D { width: 0, height: 0 }
    }
}

/// How much a hovered UI object grows in each dimension.
pub const HOVER_GROWTH: u32 = 20;

/// The size `size` takes after a hover change: grown by `HOVER_GROWTH` in each
/// dimension when the object becomes hovered, shrunk by it when it stops being hovered.
pub open spec fn hover_size_spec(size: Size2D, is_hovered: bool) -> Size2D {
    if is_hovered {
        Size2D { width: (size.width + HOVER_GROWTH) as u32, height: (size.height + HOVER_GROWTH) as u32 }
    } else {
        Size2D { width: (size.width - HOVER_GROWTH) as u32, height: (size.height - HOVER_GROWTH) as u32 }
    }
}

/// Whether the hover change of `size` stays within `u32` (no overflow when growing,
/// no underflow when shrinking).
pub open spec fn hover_size_fits(size: Size2D, is_hovered: bool) -> bool {
    if is_hovered {
        size.width + HOVER_GROWTH <= u32::MAX && size.height + HOVER_GROWTH <= u32::MAX
    } else {
        size.width >= HOVER_GROWTH && size.height >= HOVER_GROWTH
    }
}

impl Size2D {
    /// The size part of a UI object's hover change.
    pub fn hover(self, is_hovered: bool) -> (s: Size2D)
        requires
            hover_size_fits(self, is_hovered),
        ensures
            s == hover_size_spec(self, is_hovered),
    {
        if is_hovered {
            Size2D { width: self.width + HOVER_GROWTH, height: self.height + HOVER_GROWTH }
        } else {
            Size2D { width: self.width - HOVER_GROWTH, height: self.height - HOVER_GROWTH }
        }
    }

    /// Whether both dimensions are non-zero (a zero extent cannot be drawn to).
    pub fn is_drawable(&self) -> (b: bool)
        ensures
            b == (self.width != 0 && self.height != 0),
    {
        self.width != 0 && self.height != 0
    }
}

/// Hovering and then un-hovering gives the size back.
pub proof fn lemma_hover_round_trip(size: Size2D)
    requires
        hover_size_fits(size, true),
    ensures
        hover_size_fits(hover_size_spec(size, true), false),
        hover_size_spec(hover_size_spec(size, true), false) == size,
{
}

} // verus!
