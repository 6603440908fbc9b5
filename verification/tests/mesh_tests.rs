use webgl_practices::mesh::{Assets, Cube, LitCube, Triangle, GEOMETRY_SCALE};

#[test]
fn triangle_holds_three_vertices_and_one_face() {
    let t = Triangle::new();
    assert_eq!(t.vertices().as_slice(), &[-5, -5, 0, 5, -5, 0, 0, 5, 0]);
    assert_eq!(
        t.colors().as_slice(),
        &[10, 0, 0, 10, 0, 10, 0, 10, 0, 0, 10, 10]
    );
    assert_eq!(t.indices().as_slice(), &[0, 1, 2]);
    assert_eq!(GEOMETRY_SCALE, 10);
}

#[test]
fn assets_interleave_position_and_color() {
    let a = Assets::new();
    assert_eq!(a.triangle_vertices.len(), 21);
    assert_eq!(a.triangle_indices, vec![0, 1, 2]);
    // First vertex row: position (-0.5, -0.5, 0), color red.
    assert_eq!(&a.triangle_vertices[0..7], &[-5, -5, 0, 10, 0, 0, 10]);
}

#[test]
fn cube_indices_address_its_eight_corners() {
    let c = Cube::new();
    assert_eq!(c.vertices().len(), 24);
    assert_eq!(c.colors().len(), 32);
    assert_eq!(c.indices().len(), 36);
    assert_eq!(c.indices().len() % 3, 0);
    for &i in c.indices().iter() {
        assert!((i as usize) < c.vertices().len() / 3);
        assert!((i as usize) < c.colors().len() / 4);
    }
    // Every corner coordinate is one unit out.
    for &v in c.vertices().iter() {
        assert!(v == 10 || v == -10);
    }
}

#[test]
fn lit_cube_has_a_unit_normal_per_vertex() {
    let c = LitCube::new();
    assert_eq!(c.vertices().len(), 144);
    assert_eq!(c.indices().len(), 36);
    for &i in c.indices().iter() {
        assert!((i as usize) < c.vertices().len() / 6);
    }
    for row in c.vertices().chunks(6) {
        let normal = &row[3..6];
        let sum: i32 = normal.iter().map(|v| v.abs()).sum();
        assert_eq!(sum, 10);
    }
    // The first face looks along positive z.
    assert_eq!(&c.vertices()[0..6], &[10, 10, 10, 0, 0, 10]);
}
