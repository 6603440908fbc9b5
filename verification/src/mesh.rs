//! Static geometry of the pages: the demo triangle and the two cubes.
//!
//! Coordinates, colors and normals are stored in tenths of a unit, so the
//! half-unit triangle corners and the unit cube corners are exact integers:
//! 10 stands for 1.0 and -5 for -0.5. The front end divides by the scale
//! when it uploads the buffers. Colors here are in the same tenths, 10
//! standing for a full channel.
//!
//! Each mesh is a triangle list: the index count is a multiple of three and
//! every index addresses a vertex that all attribute arrays really hold.

use vstd::prelude::*;

verus! {

/// How many stored units stand for one scene unit or one full color channel.
pub const GEOMETRY_SCALE: i32 = 10;

/// Every index points below `vertex_count`, so each one addresses a whole
/// vertex in every attribute array.
pub open spec fn indices_in_bounds(indices: Seq<u16>, vertex_count: nat) -> bool {
    forall|k: int| 0 <= k < indices.len() ==> (#[trigger] indices[k]) < vertex_count
}

/// Corner positions of the demo triangle, three vertices of x, y, z apiece:
/// the lower corners half a unit out, the top half a unit up.
pub open spec fn triangle_vertex_data() -> Seq<i32> {
    seq![-5i32, -5i32, 0i32, 5i32, -5i32, 0i32, 0i32, 5i32, 0i32]
}

/// Corner colors of the demo triangle, one RGBA row per vertex: red, green,
/// blue.
pub open spec fn triangle_color_data() -> Seq<i32> {
    seq![10i32, 0i32, 0i32, 10i32, 0i32, 10i32, 0i32, 10i32, 0i32, 0i32, 10i32, 10i32]
}

/// The one face of the demo triangle.
pub open spec fn triangle_index_data() -> Seq<u16> {
    seq![0u16, 1u16, 2u16]
}

/// The demo triangle with positions and colors in separate arrays.
pub struct Triangle {
    pub vertices: Vec<i32>,
    pub colors: Vec<i32>,
    pub indices: Vec<u16>,
}

impl Triangle {
    pub fn new() -> (t: Triangle)
        ensures
            t.vertices@ == triangle_vertex_data(),
            t.colors@ == triangle_color_data(),
            t.indices@ == triangle_index_data(),
            t.indices@.len() % 3 == 0,
            indices_in_bounds(t.indices@, t.vertices@.len() / 3),
            indices_in_bounds(t.indices@, t.colors@.len() / 4),
    {
        let vertices: Vec<i32> = vec![-5i32, -5i32, 0i32, 5i32, -5i32, 0i32, 0i32, 5i32, 0i32];
        let colors: Vec<i32> = vec![
            10i32, 0i32, 0i32, 10i32, 0i32, 10i32, 0i32, 10i32, 0i32, 0i32, 10i32, 10i32,
        ];
        let indices: Vec<u16> = vec![0u16, 1u16, 2u16];
        proof {
            assert(vertices@ =~= triangle_vertex_data());
            assert(colors@ =~= triangle_color_data());
            assert(indices@ =~= triangle_index_data());
        }
        Triangle { vertices, colors, indices }
    }

    pub fn vertices(&self) -> (r: &Vec<i32>)
        ensures
            r@ == self.vertices@,
    {
        &self.vertices
    }

    pub fn colors(&self) -> (r: &Vec<i32>)
        ensures
            r@ == self.colors@,
    {
        &self.colors
    }

    pub fn indices(&self) -> (r: &Vec<u16>)
        ensures
            r@ == self.indices@,
    {
        &self.indices
    }
}

/// The demo triangle again, with position and color interleaved seven values
/// to a vertex: x, y, z, then RGBA.
pub open spec fn assets_triangle_vertex_data() -> Seq<i32> {
    seq![
        -5i32,
        -5i32,
        0i32,
        10i32,
        0i32,
        0i32,
        10i32,
        5i32,
        -5i32,
        0i32,
        0i32,
        10i32,
        0i32,
        10i32,
        0i32,
        5i32,
        0i32,
        0i32,
        0i32,
        10i32,
        10i32,
    ]
}

/// The static data one of the triangle pages keeps bundled together.
pub struct Assets {
    pub triangle_vertices: Vec<i32>,
    pub triangle_indices: Vec<u16>,
}

impl Assets {
    pub fn new() -> (a: Assets)
        ensures
            a.triangle_vertices@ == assets_triangle_vertex_data(),
            a.triangle_indices@ == triangle_index_data(),
            a.triangle_indices@.len() % 3 == 0,
            indices_in_bounds(a.triangle_indices@, a.triangle_vertices@.len() / 7),
    {
        let triangle_vertices: Vec<i32> = vec![
            -5i32,
            -5i32,
            0i32,
            10i32,
            0i32,
            0i32,
            10i32,
            5i32,
            -5i32,
            0i32,
            0i32,
            10i32,
            0i32,
            10i32,
            0i32,
            5i32,
            0i32,
            0i32,
            0i32,
            10i32,
            10i32,
        ];
        let triangle_indices: Vec<u16> = vec![0u16, 1u16, 2u16];
        proof {
            assert(triangle_vertices@ =~= assets_triangle_vertex_data());
            assert(triangle_indices@ =~= triangle_index_data());
        }
        Assets { triangle_vertices, triangle_indices }
    }
}

/// Corner positions of the plain cube, eight vertices of x, y, z apiece, one
/// unit out on every axis.
pub open spec fn cube_vertex_data() -> Seq<i32> {
    seq![
        10i32,
        10i32,
        10i32,
        -10i32,
        10i32,
        10i32,
        -10i32,
        -10i32,
        10i32,
        10i32,
        -10i32,
        10i32,
        10i32,
        10i32,
        -10i32,
        -10i32,
        10i32,
        -10i32,
        -10i32,
        -10i32,
        -10i32,
        10i32,
        -10i32,
        -10i32,
    ]
}

/// Corner colors of the plain cube, one RGBA row per vertex, walking the
/// corners of the RGB color cube.
pub open spec fn cube_color_data() -> Seq<i32> {
    seq![
        0i32,
        0i32,
        0i32,
        10i32,
        10i32,
        0i32,
        0i32,
        10i32,
        0i32,
        10i32,
        0i32,
        10i32,
        10i32,
        10i32,
        0i32,
        10i32,
        0i32,
        0i32,
        10i32,
        10i32,
        10i32,
        0i32,
        10i32,
        10i32,
        0i32,
        10i32,
        10i32,
        10i32,
        10i32,
        10i32,
        10i32,
        10i32,
    ]
}

/// The twelve faces of the plain cube, two triangles a side.
pub open spec fn cube_index_data() -> Seq<u16> {
    seq![
        0u16,
        1u16,
        2u16,
        0u16,
        2u16,
        3u16,
        4u16,
        6u16,
        5u16,
        4u16,
        7u16,
        6u16,
        1u16,
        5u16,
        2u16,
        2u16,
        5u16,
        6u16,
        0u16,
        3u16,
        4u16,
        3u16,
        7u16,
        4u16,
        2u16,
        6u16,
        3u16,
        3u16,
        6u16,
        7u16,
        0u16,
        4u16,
        5u16,
        0u16,
        5u16,
        1u16,
    ]
}

/// The cube the camera pages orbit, with a color per corner.
pub struct Cube {
    pub vertices: Vec<i32>,
    pub colors: Vec<i32>,
    pub indices: Vec<u16>,
}

impl Cube {
    pub fn new() -> (c: Cube)
        ensures
            c.vertices@ == cube_vertex_data(),
            c.colors@ == cube_color_data(),
            c.indices@ == cube_index_data(),
            c.indices@.len() % 3 == 0,
            indices_in_bounds(c.indices@, c.vertices@.len() / 3),
            indices_in_bounds(c.indices@, c.colors@.len() / 4),
    {
        let vertices: Vec<i32> = vec![
            10i32,
            10i32,
            10i32,
            -10i32,
            10i32,
            10i32,
            -10i32,
            -10i32,
            10i32,
            10i32,
            -10i32,
            10i32,
            10i32,
            10i32,
            -10i32,
            -10i32,
            10i32,
            -10i32,
            -10i32,
            -10i32,
            -10i32,
            10i32,
            -10i32,
            -10i32,
        ];
        let colors: Vec<i32> = vec![
            0i32,
            0i32,
            0i32,
            10i32,
            10i32,
            0i32,
            0i32,
            10i32,
            0i32,
            10i32,
            0i32,
            10i32,
            10i32,
            10i32,
            0i32,
            10i32,
            0i32,
            0i32,
            10i32,
            10i32,
            10i32,
            0i32,
            10i32,
            10i32,
            0i32,
            10i32,
            10i32,
            10i32,
            10i32,
            10i32,
            10i32,
            10i32,
        ];
        let indices: Vec<u16> = vec![
            0u16,
            1u16,
            2u16,
            0u16,
            2u16,
            3u16,
            4u16,
            6u16,
            5u16,
            4u16,
            7u16,
            6u16,
            1u16,
            5u16,
            2u16,
            2u16,
            5u16,
            6u16,
            0u16,
            3u16,
            4u16,
            3u16,
            7u16,
            4u16,
            2u16,
            6u16,
            3u16,
            3u16,
            6u16,
            7u16,
            0u16,
            4u16,
            5u16,
            0u16,
            5u16,
            1u16,
        ];
        proof {
            assert(vertices@ =~= cube_vertex_data());
            assert(colors@ =~= cube_color_data());
            assert(indices@ =~= cube_index_data());
        }
        Cube { vertices, colors, indices }
    }

    pub fn vertices(&self) -> (r: &Vec<i32>)
        ensures
            r@ == self.vertices@,
    {
        &self.vertices
    }

    pub fn colors(&self) -> (r: &Vec<i32>)
        ensures
            r@ == self.colors@,
    {
        &self.colors
    }

    pub fn indices(&self) -> (r: &Vec<u16>)
        ensures
            r@ == self.indices@,
    {
        &self.indices
    }
}

/// Corner data of the lit cube, twenty-four vertices of six values apiece:
/// x, y, z, then the face normal. Each face carries its own four vertices so
/// the normal is constant across it.
pub open spec fn lit_cube_vertex_data() -> Seq<i32> {
    seq![
        10i32, 10i32, 10i32, 0i32, 0i32, 10i32,
        -10i32, 10i32, 10i32, 0i32, 0i32, 10i32,
        -10i32, -10i32, 10i32, 0i32, 0i32, 10i32,
        10i32, -10i32, 10i32, 0i32, 0i32, 10i32,
        10i32, 10i32, -10i32, 0i32, 0i32, -10i32,
        -10i32, 10i32, -10i32, 0i32, 0i32, -10i32,
        -10i32, -10i32, -10i32, 0i32, 0i32, -10i32,
        10i32, -10i32, -10i32, 0i32, 0i32, -10i32,
        -10i32, -10i32, 10i32, -10i32, 0i32, 0i32,
        -10i32, 10i32, 10i32, -10i32, 0i32, 0i32,
        -10i32, 10i32, -10i32, -10i32, 0i32, 0i32,
        -10i32, -10i32, -10i32, -10i32, 0i32, 0i32,
        10i32, -10i32, 10i32, 10i32, 0i32, 0i32,
        10i32, 10i32, 10i32, 10i32, 0i32, 0i32,
        10i32, 10i32, -10i32, 10i32, 0i32, 0i32,
        10i32, -10i32, -10i32, 10i32, 0i32, 0i32,
        -10i32, -10i32, 10i32, 0i32, 10i32, 0i32,
        -10i32, -10i32, -10i32, 0i32, 10i32, 0i32,
        10i32, -10i32, -10i32, 0i32, 10i32, 0i32,
        10i32, -10i32, 10i32, 0i32, 10i32, 0i32,
        -10i32, 10i32, 10i32, 0i32, -10i32, 0i32,
        -10i32, 10i32, -10i32, 0i32, -10i32, 0i32,
        10i32, 10i32, -10i32, 0i32, -10i32, 0i32,
        10i32, 10i32, 10i32, 0i32, -10i32, 0i32,
    ]
}

/// The twelve faces of the lit cube, two triangles a side.
pub open spec fn lit_cube_index_data() -> Seq<u16> {
    seq![
        0u16, 1u16, 2u16, 0u16, 2u16, 3u16,
        4u16, 6u16, 5u16, 4u16, 7u16, 6u16,
        8u16, 9u16, 10u16, 8u16, 10u16, 11u16,
        12u16, 15u16, 14u16, 12u16, 14u16, 13u16,
        16u16, 17u16, 18u16, 16u16, 18u16, 19u16,
        20u16, 23u16, 22u16, 20u16, 22u16, 21u16,
    ]
}

/// The cube of the lighting page, face normals interleaved with positions.
pub struct LitCube {
    pub vertices: Vec<i32>,
    pub indices: Vec<u16>,
}

impl LitCube {
    pub fn new() -> (c: LitCube)
        ensures
            c.vertices@ == lit_cube_vertex_data(),
            c.indices@ == lit_cube_index_data(),
            c.indices@.len() % 3 == 0,
            indices_in_bounds(c.indices@, c.vertices@.len() / 6),
    {
        let vertices: Vec<i32> = vec![
        10i32, 10i32, 10i32, 0i32, 0i32, 10i32,
        -10i32, 10i32, 10i32, 0i32, 0i32, 10i32,
        -10i32, -10i32, 10i32, 0i32, 0i32, 10i32,
        10i32, -10i32, 10i32, 0i32, 0i32, 10i32,
        10i32, 10i32, -10i32, 0i32, 0i32, -10i32,
        -10i32, 10i32, -10i32, 0i32, 0i32, -10i32,
        -10i32, -10i32, -10i32, 0i32, 0i32, -10i32,
        10i32, -10i32, -10i32, 0i32, 0i32, -10i32,
        -10i32, -10i32, 10i32, -10i32, 0i32, 0i32,
        -10i32, 10i32, 10i32, -10i32, 0i32, 0i32,
        -10i32, 10i32, -10i32, -10i32, 0i32, 0i32,
        -10i32, -10i32, -10i32, -10i32, 0i32, 0i32,
        10i32, -10i32, 10i32, 10i32, 0i32, 0i32,
        10i32, 10i32, 10i32, 10i32, 0i32, 0i32,
        10i32, 10i32, -10i32, 10i32, 0i32, 0i32,
        10i32, -10i32, -10i32, 10i32, 0i32, 0i32,
        -10i32, -10i32, 10i32, 0i32, 10i32, 0i32,
        -10i32, -10i32, -10i32, 0i32, 10i32, 0i32,
        10i32, -10i32, -10i32, 0i32, 10i32, 0i32,
        10i32, -10i32, 10i32, 0i32, 10i32, 0i32,
        -10i32, 10i32, 10i32, 0i32, -10i32, 0i32,
        -10i32, 10i32, -10i32, 0i32, -10i32, 0i32,
        10i32, 10i32, -10i32, 0i32, -10i32, 0i32,
        10i32, 10i32, 10i32, 0i32, -10i32, 0i32,
        ];
        let indices: Vec<u16> = vec![
        0u16, 1u16, 2u16, 0u16, 2u16, 3u16,
        4u16, 6u16, 5u16, 4u16, 7u16, 6u16,
        8u16, 9u16, 10u16, 8u16, 10u16, 11u16,
        12u16, 15u16, 14u16, 12u16, 14u16, 13u16,
        16u16, 17u16, 18u16, 16u16, 18u16, 19u16,
        20u16, 23u16, 22u16, 20u16, 22u16, 21u16,
        ];
        proof {
            assert(vertices@ =~= lit_cube_vertex_data());
            assert(indices@ =~= lit_cube_index_data());
        }
        LitCube { vertices, indices }
    }

    pub fn vertices(&self) -> (r: &Vec<i32>)
        ensures
            r@ == self.vertices@,
    {
        &self.vertices
    }

    pub fn indices(&self) -> (r: &Vec<u16>)
        ensures
            r@ == self.indices@,
    {
        &self.indices
    }
}

} // verus!
