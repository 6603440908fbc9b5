//! The pointer state a drag gesture is read from.

use vstd::prelude::*;

verus! {

/// Whether the primary button is down, and the last position seen,
/// in client pixel coordinates.
pub struct Mouse {
    pub pressed: bool,
    pub x: i32,
    pub y: i32,
}

impl Mouse {
    pub fn pressed(&self) -> (p: bool)
        ensures
            p == self.pressed,
    {
        self.pressed
    }

    pub fn set_pressed(&mut self, pressed: bool)
        ensures
            final(self).pressed == pressed,
            final(self).x == old(self).x,
            final(self).y == old(self).y,
    {
        self.pressed = pressed;
    }

    pub fn pos(&self) -> (p: (i32, i32))
        ensures
            p.0 == self.x,
            p.1 == self.y,
    {
        (self.x, self.y)
    }

    pub fn set_pos(&mut self, x: i32, y: i32)
        ensures
            final(self).x == x,
            final(self).y == y,
            final(self).pressed == old(self).pressed,
    {
        self.x = x;
        self.y = y;
    }
}

impl Default for Mouse {
    fn default() -> (m: Mouse)
        ensures
            m.pressed == false,
            m.x == 0,
            m.y == 0,
    {
        Mouse { pressed: false, x: 0, y: 0 }
    }
}

} // verus!
