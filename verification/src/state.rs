//! The per-page state and its message reducer.
//!
//! Input events arrive as plain messages; `State::msg` is the single place
//! they mutate anything. A drag only moves the camera while the button is
//! down, and each move re-anchors the drag at the new pointer position.

use crate::camera::{
    clamped, Camera, FULL_TURN_MRAD, INITIAL_PITCH_MRAD, INITIAL_RADIUS_MILLI, INITIAL_YAW_MRAD,
    ORBIT_STEP_MRAD, PITCH_MAX_MRAD, PITCH_MIN_MRAD, RADIUS_MAX_MILLI, RADIUS_MIN_MILLI,
};
use crate::clear_color::ClearColor;
use crate::mouse::Mouse;
use crate::viewport::{Viewport, DEFAULT_HEIGHT, DEFAULT_WIDTH};
use vstd::prelude::*;

verus! {

/// One input event, already reduced to plain values: sizes in whole pixels,
/// colors as channel bytes, pointer positions in client coordinates, zoom
/// steps in thousandths of a scene unit.
pub enum Msg {
    ViewportResize(u32, u32),
    ClearColorChange(u8, u8, u8, u8),
    MouseDown(i32, i32),
    MouseUp,
    MouseMove(i32, i32),
    Zoom(i64),
}

/// Everything a page draws from: the canvas size, the clear color, the
/// orbiting camera, and the pointer state a drag is read from.
pub struct State {
    pub viewport: Viewport,
    pub clear_color: ClearColor,
    pub camera: Camera,
    pub mouse: Mouse,
}

impl State {
    pub open spec fn wf(&self) -> bool {
        self.camera.wf()
    }

    pub fn new() -> (s: State)
        ensures
            s.wf(),
            s.viewport.width == DEFAULT_WIDTH,
            s.viewport.height == DEFAULT_HEIGHT,
            s.clear_color.r == 0,
            s.clear_color.g == 0,
            s.clear_color.b == 0,
            s.clear_color.a == 255,
            s.camera.yaw_mrad == INITIAL_YAW_MRAD,
            s.camera.pitch_mrad == INITIAL_PITCH_MRAD,
            s.camera.radius_milli == INITIAL_RADIUS_MILLI,
            s.mouse.pressed == false,
            s.mouse.x == 0,
            s.mouse.y == 0,
    {
        State {
            viewport: Viewport::default(),
            clear_color: ClearColor::default(),
            camera: Camera::new(),
            mouse: Mouse::default(),
        }
    }

    pub fn viewport(&self) -> (v: &Viewport)
        ensures
            *v == self.viewport,
    {
        &self.viewport
    }

    pub fn clear_color(&self) -> (c: &ClearColor)
        ensures
            *c == self.clear_color,
    {
        &self.clear_color
    }

    pub fn camera(&self) -> (c: &Camera)
        ensures
            *c == self.camera,
    {
        &self.camera
    }

    /// Apply one message. A resize or color message overwrites that part of
    /// the state; button messages track the pointer; a move drags the camera
    /// only while the button is down, by the distance from the last anchor;
    /// a zoom moves the camera between its stops.
    pub fn msg(&mut self, msg: Msg)
        requires
            old(self).wf(),
        ensures
            final(self).wf(),
            (match msg {
                Msg::ViewportResize(w, h) => {
                    &&& final(self).viewport.width == w
                    &&& final(self).viewport.height == h
                    &&& final(self).clear_color == old(self).clear_color
                    &&& final(self).camera == old(self).camera
                    &&& final(self).mouse == old(self).mouse
                },
                Msg::ClearColorChange(r, g, b, a) => {
                    &&& final(self).clear_color == (ClearColor { r, g, b, a })
                    &&& final(self).viewport == old(self).viewport
                    &&& final(self).camera == old(self).camera
                    &&& final(self).mouse == old(self).mouse
                },
                Msg::MouseDown(x, y) => {
                    &&& final(self).mouse == (Mouse { pressed: true, x, y })
                    &&& final(self).viewport == old(self).viewport
                    &&& final(self).clear_color == old(self).clear_color
                    &&& final(self).camera == old(self).camera
                },
                Msg::MouseUp => {
                    &&& final(self).mouse == (Mouse { pressed: false, ..old(self).mouse })
                    &&& final(self).viewport == old(self).viewport
                    &&& final(self).clear_color == old(self).clear_color
                    &&& final(self).camera == old(self).camera
                },
                Msg::MouseMove(x, y) => {
                    if old(self).mouse.pressed {
                        &&& final(self).camera.yaw_mrad == (old(self).camera.yaw_mrad + (old(
                            self,
                        ).mouse.x - x) * ORBIT_STEP_MRAD) % (FULL_TURN_MRAD as int)
                        &&& final(self).camera.pitch_mrad == clamped(
                            old(self).camera.pitch_mrad + (y - old(self).mouse.y)
                                * ORBIT_STEP_MRAD,
                            PITCH_MIN_MRAD as int,
                            PITCH_MAX_MRAD as int,
                        )
                        &&& final(self).camera.radius_milli == old(self).camera.radius_milli
                        &&& final(self).mouse == (Mouse { pressed: true, x, y })
                        &&& final(self).viewport == old(self).viewport
                        &&& final(self).clear_color == old(self).clear_color
                    } else {
                        *final(self) == *old(self)
                    }
                },
                Msg::Zoom(z) => {
                    &&& final(self).camera.radius_milli == clamped(
                        old(self).camera.radius_milli + z,
                        RADIUS_MIN_MILLI as int,
                        RADIUS_MAX_MILLI as int,
                    )
                    &&& final(self).camera.yaw_mrad == old(self).camera.yaw_mrad
                    &&& final(self).camera.pitch_mrad == old(self).camera.pitch_mrad
                    &&& final(self).viewport == old(self).viewport
                    &&& final(self).clear_color == old(self).clear_color
                    &&& final(self).mouse == old(self).mouse
                },
            }),
    {
        match msg {
            Msg::ViewportResize(width, height) => self.viewport.set(width, height),
            Msg::ClearColorChange(r, g, b, a) => self.clear_color.set(r, g, b, a),
            Msg::MouseDown(x, y) => {
                self.mouse.set_pressed(true);
                self.mouse.set_pos(x, y);
            },
            Msg::MouseUp => self.mouse.set_pressed(false),
            Msg::MouseMove(x, y) => {
                if !self.mouse.pressed() {
                    return ;
                }
                let (old_x, old_y) = self.mouse.pos();
                let dx: i64 = (old_x as i64) - (x as i64);
                let dy: i64 = (y as i64) - (old_y as i64);
                self.camera.orbit_left_right(dx);
                self.camera.orbit_up_down(dy);
                self.mouse.set_pos(x, y);
            },
            Msg::Zoom(z) => self.camera.zoom(z),
        }
    }
}

} // verus!
