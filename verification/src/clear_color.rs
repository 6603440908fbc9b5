//! The color the canvas is cleared to before each draw.

use vstd::prelude::*;

verus! {

/// An RGBA clear color.
///
/// Each channel is a byte, 0 through 255, standing for the fraction
/// channel / 255 that the graphics API expects; the front end divides when
/// it issues the clear call. The default is opaque black.
pub struct ClearColor {
    pub r: u8,
    pub g: u8,
    pub b: u8,
    pub a: u8,
}

impl ClearColor {
    pub fn new(r: u8, g: u8, b: u8, a: u8) -> (c: ClearColor)
        ensures
            c.r == r,
            c.g == g,
            c.b == b,
            c.a == a,
    {
        ClearColor { r, g, b, a }
    }

    pub fn set(&mut self, r: u8, g: u8, b: u8, a: u8)
        ensures
            final(self).r == r,
            final(self).g == g,
            final(self).b == b,
            final(self).a == a,
    {
        self.r = r;
        self.g = g;
        self.b = b;
        self.a = a;
    }
}

impl Default for ClearColor {
    fn default() -> (c: ClearColor)
        ensures
            c.r == 0,
            c.g == 0,
            c.b == 0,
            c.a == 255,
    {
        ClearColor { r: 0, g: 0, b: 0, a: 255 }
    }
}

} // verus!
