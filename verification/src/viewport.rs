//! The size of the drawing surface.
use vstd::prelude::*;

verus! {

/// The size of the drawing surface in physical pixels.
#[derive(Clone, Copy, Debug, PartialEq, Eq, Structural)]
pub struct Viewport {
    pub width: u32,
    pub height: u32,
}

impl Viewport {
    /// A viewport has area when neither of its sides is zero. Only then is
    /// its aspect ratio defined, and only then can a surface be configured
    /// with it.
    pub open spec fn has_area(self) -> bool {
        self.width > 0 && self.height > 0
    }

    /// A viewport of `width` by `height` pixels.
    pub fn new(width: u32, height: u32) -> (viewport: Viewport)
        ensures
            viewport == (Viewport { width, height }),
    {
        Viewport { width, height }
    }

    /// Whether neither side is zero.
    pub fn is_drawable(&self) -> (drawable: bool)
        ensures
            drawable == self.has_area(),
    {
        self.width > 0 && self.height > 0
    }
}

} // verus!
