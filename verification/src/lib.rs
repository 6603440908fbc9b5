//! Core logic of a WebGL2 tutorial demo.
//!
//! The demo is a set of progressively richer pages (triangle, shaded
//! triangle, cube, orbiting camera, lighting) behind a hash-route dispatch
//! table. This crate holds the parts of the demo that are plain logic, each
//! with a proved contract: the router and its index listing, the per-page
//! `State`/`Msg` reducer (viewport size, clear color, mouse drag, camera
//! orbit and zoom), and the static triangle and cube geometry.
//!
//! Every quantity is a plain integer in a fixed unit (pixels, color channel
//! bytes, milliradians, thousandths of a scene unit). The browser front end
//! converts to floating point at the edge, right before the graphics calls.

pub mod cache;
pub mod camera;
pub mod clear_color;
pub mod mesh;
pub mod mouse;
pub mod router;
pub mod state;
pub mod table;
pub mod text;
pub mod viewport;
