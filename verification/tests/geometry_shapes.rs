use renderer::geometry::Geometry;
use renderer::math::{HALF_BITS, NEG_HALF_BITS, ONE_BITS, ZERO_BITS, Vec3Bits};

#[test]
fn flat_cube_has_36_vertices_with_no_index_reuse() {
    let one = ONE_BITS;
    let cube = Geometry::Cube { length: one, width: one, height: one };
    let (vertices, indices) = cube.to_vertices_indices();
    assert_eq!(vertices.len(), 36);
    assert_eq!(indices.len(), 36);
    let expected: Vec<u32> = (0..36).collect();
    assert_eq!(indices, expected);
    // First vertex of the back face: bottom-left corner, normal -Z.
    let v0 = &vertices[0];
    assert_eq!(v0.position.x, NEG_HALF_BITS);
    assert_eq!(v0.position.y, NEG_HALF_BITS);
    assert_eq!(v0.position.z, NEG_HALF_BITS);
    assert_eq!(v0.normal.z, renderer::math::NEG_ONE_BITS);
    assert_eq!(v0.tex_coords.x, ZERO_BITS);
}

#[test]
fn plane_has_4_vertices_and_12_indices() {
    let one = ONE_BITS;
    let normal = Vec3Bits { x: ZERO_BITS, y: ONE_BITS, z: ZERO_BITS };
    let plane = Geometry::Plane { length: one, width: one, normal };
    let (vertices, indices) = plane.to_vertices_indices();
    assert_eq!(vertices.len(), 4);
    assert_eq!(indices.len(), 12);
    assert_eq!(indices, vec![0, 1, 2, 1, 3, 2, 0, 2, 1, 1, 2, 3]);
    for v in &vertices {
        assert_eq!(v.normal, normal);
        assert_eq!(v.position.y, ZERO_BITS);
        assert!(v.position.x == HALF_BITS || v.position.x == NEG_HALF_BITS);
    }
}
