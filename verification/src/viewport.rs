//! Size of the drawing surface, in whole pixels.

use vstd::prelude::*;

verus! {

/// Width and height of the canvas the pages draw into.
///
/// The browser reports sizes as floating-point CSS pixels; the front end
/// rounds them to whole pixels before they reach the reducer, which is also
/// what the draw calls expect.
pub struct Viewport {
    pub width: u32,
    pub height: u32,
}

/// Width a page starts with before the first resize event arrives.
pub const DEFAULT_WIDTH: u32 = 200;

/// Height a page starts with before the first resize event arrives.
pub const DEFAULT_HEIGHT: u32 = 300;

impl Viewport {
    pub fn new(width: u32, height: u32) -> (v: Viewport)
        ensures
            v.width == width,
            v.height == height,
    {
        Viewport { width, height }
    }

    pub fn width(&self) -> (w: u32)
        ensures
            w == self.width,
    {
        self.width
    }

    pub fn height(&self) -> (h: u32)
        ensures
            h == self.height,
    {
        self.height
    }

    pub fn set(&mut self, width: u32, height: u32)
        ensures
            final(self).width == width,
            final(self).height == height,
    {
        self.width = width;
        self.height = height;
    }
}

impl Default for Viewport {
    fn default() -> (v: Viewport)
        ensures
            v.width == DEFAULT_WIDTH,
            v.height == DEFAULT_HEIGHT,
    {
        Viewport { width: DEFAULT_WIDTH, height: DEFAULT_HEIGHT }
    }
}

} // verus!
