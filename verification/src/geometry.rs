use vstd::prelude::*;
use crate::command::GlCommand;
use crate::material::Material;
use crate::math::{Vec2Bits, Vec3Bits, HALF_BITS, NEG_HALF_BITS, NEG_ONE_BITS, ONE_BITS,
    ZERO_BITS};
use crate::mesh::{Mesh, Vertex};

verus! {

/// Procedural geometry: a unit cube as a flat triangle list (36 vertices, no
/// index reuse) or a unit plane (4 vertices, 12 indices covering both
/// windings). The generators yield unit-extent shapes; the dimension fields
/// record the intended size, which the embedder applies when it turns the
/// bit patterns into GPU floats.
pub enum Geometry {
    Cube { length: u32, width: u32, height: u32 },
    Plane { length: u32, width: u32, normal: Vec3Bits },
}

/// A vertex from its eight component bit patterns.
pub open spec fn vx(px: u32, py: u32, pz: u32, nx: u32, ny: u32, nz: u32, tu: u32, tv: u32)
    -> Vertex {
    Vertex {
        position: Vec3Bits { x: px, y: py, z: pz },
        normal: Vec3Bits { x: nx, y: ny, z: nz },
        tex_coords: Vec2Bits { x: tu, y: tv },
    }
}

/// A vertex from its eight component bit patterns.
fn vxe(px: u32, py: u32, pz: u32, nx: u32, ny: u32, nz: u32, tu: u32, tv: u32) -> (r: Vertex)
    ensures
        r == vx(px, py, pz, nx, ny, nz, tu, tv),
{
    Vertex {
        position: Vec3Bits { x: px, y: py, z: pz },
        normal: Vec3Bits { x: nx, y: ny, z: nz },
        tex_coords: Vec2Bits { x: tu, y: tv },
    }
}

/// The 36 vertices of the unit cube: 12 triangles, one face at a time in the
/// order back, front, left, right, bottom, top, with no index reuse.
pub open spec fn cube_vertices() -> Seq<Vertex> {
    seq![
        vx(NEG_HALF_BITS, NEG_HALF_BITS, NEG_HALF_BITS, ZERO_BITS, ZERO_BITS, NEG_ONE_BITS, ZERO_BITS, ZERO_BITS),
        vx(HALF_BITS, HALF_BITS, NEG_HALF_BITS, ZERO_BITS, ZERO_BITS, NEG_ONE_BITS, ONE_BITS, ONE_BITS),
        vx(HALF_BITS, NEG_HALF_BITS, NEG_HALF_BITS, ZERO_BITS, ZERO_BITS, NEG_ONE_BITS, ONE_BITS, ZERO_BITS),
        vx(HALF_BITS, HALF_BITS, NEG_HALF_BITS, ZERO_BITS, ZERO_BITS, NEG_ONE_BITS, ONE_BITS, ONE_BITS),
        vx(NEG_HALF_BITS, NEG_HALF_BITS, NEG_HALF_BITS, ZERO_BITS, ZERO_BITS, NEG_ONE_BITS, ZERO_BITS, ZERO_BITS),
        vx(NEG_HALF_BITS, HALF_BITS, NEG_HALF_BITS, ZERO_BITS, ZERO_BITS, NEG_ONE_BITS, ZERO_BITS, ONE_BITS),
        vx(NEG_HALF_BITS, NEG_HALF_BITS, HALF_BITS, ZERO_BITS, ZERO_BITS, ONE_BITS, ZERO_BITS, ZERO_BITS),
        vx(HALF_BITS, NEG_HALF_BITS, HALF_BITS, ZERO_BITS, ZERO_BITS, ONE_BITS, ONE_BITS, ZERO_BITS),
        vx(HALF_BITS, HALF_BITS, HALF_BITS, ZERO_BITS, ZERO_BITS, ONE_BITS, ONE_BITS, ONE_BITS),
        vx(HALF_BITS, HALF_BITS, HALF_BITS, ZERO_BITS, ZERO_BITS, ONE_BITS, ONE_BITS, ONE_BITS),
        vx(NEG_HALF_BITS, HALF_BITS, HALF_BITS, ZERO_BITS, ZERO_BITS, ONE_BITS, ZERO_BITS, ONE_BITS),
        vx(NEG_HALF_BITS, NEG_HALF_BITS, HALF_BITS, ZERO_BITS, ZERO_BITS, ONE_BITS, ZERO_BITS, ZERO_BITS),
        vx(NEG_HALF_BITS, HALF_BITS, HALF_BITS, NEG_ONE_BITS, ZERO_BITS, ZERO_BITS, ONE_BITS, ZERO_BITS),
        vx(NEG_HALF_BITS, HALF_BITS, NEG_HALF_BITS, NEG_ONE_BITS, ZERO_BITS, ZERO_BITS, ONE_BITS, ONE_BITS),
        vx(NEG_HALF_BITS, NEG_HALF_BITS, NEG_HALF_BITS, NEG_ONE_BITS, ZERO_BITS, ZERO_BITS, ZERO_BITS, ONE_BITS),
        vx(NEG_HALF_BITS, NEG_HALF_BITS, NEG_HALF_BITS, NEG_ONE_BITS, ZERO_BITS, ZERO_BITS, ZERO_BITS, ONE_BITS),
        vx(NEG_HALF_BITS, NEG_HALF_BITS, HALF_BITS, NEG_ONE_BITS, ZERO_BITS, ZERO_BITS, ZERO_BITS, ZERO_BITS),
        vx(NEG_HALF_BITS, HALF_BITS, HALF_BITS, NEG_ONE_BITS, ZERO_BITS, ZERO_BITS, ONE_BITS, ZERO_BITS),
        vx(HALF_BITS, HALF_BITS, HALF_BITS, ONE_BITS, ZERO_BITS, ZERO_BITS, ONE_BITS, ZERO_BITS),
        vx(HALF_BITS, NEG_HALF_BITS, NEG_HALF_BITS, ONE_BITS, ZERO_BITS, ZERO_BITS, ZERO_BITS, ONE_BITS),
        vx(HALF_BITS, HALF_BITS, NEG_HALF_BITS, ONE_BITS, ZERO_BITS, ZERO_BITS, ONE_BITS, ONE_BITS),
        vx(HALF_BITS, NEG_HALF_BITS, NEG_HALF_BITS, ONE_BITS, ZERO_BITS, ZERO_BITS, ZERO_BITS, ONE_BITS),
        vx(HALF_BITS, HALF_BITS, HALF_BITS, ONE_BITS, ZERO_BITS, ZERO_BITS, ONE_BITS, ZERO_BITS),
        vx(HALF_BITS, NEG_HALF_BITS, HALF_BITS, ONE_BITS, ZERO_BITS, ZERO_BITS, ZERO_BITS, ZERO_BITS),
        vx(NEG_HALF_BITS, NEG_HALF_BITS, NEG_HALF_BITS, ZERO_BITS, NEG_ONE_BITS, ZERO_BITS, ZERO_BITS, ONE_BITS),
        vx(HALF_BITS, NEG_HALF_BITS, NEG_HALF_BITS, ZERO_BITS, NEG_ONE_BITS, ZERO_BITS, ONE_BITS, ONE_BITS),
        vx(HALF_BITS, NEG_HALF_BITS, HALF_BITS, ZERO_BITS, NEG_ONE_BITS, ZERO_BITS, ONE_BITS, ZERO_BITS),
        vx(HALF_BITS, NEG_HALF_BITS, HALF_BITS, ZERO_BITS, NEG_ONE_BITS, ZERO_BITS, ONE_BITS, ZERO_BITS),
        vx(NEG_HALF_BITS, NEG_HALF_BITS, HALF_BITS, ZERO_BITS, NEG_ONE_BITS, ZERO_BITS, ZERO_BITS, ZERO_BITS),
        vx(NEG_HALF_BITS, NEG_HALF_BITS, NEG_HALF_BITS, ZERO_BITS, NEG_ONE_BITS, ZERO_BITS, ZERO_BITS, ONE_BITS),
        vx(NEG_HALF_BITS, HALF_BITS, NEG_HALF_BITS, ZERO_BITS, ONE_BITS, ZERO_BITS, ZERO_BITS, ONE_BITS),
        vx(HALF_BITS, HALF_BITS, HALF_BITS, ZERO_BITS, ONE_BITS, ZERO_BITS, ONE_BITS, ZERO_BITS),
        vx(HALF_BITS, HALF_BITS, NEG_HALF_BITS, ZERO_BITS, ONE_BITS, ZERO_BITS, ONE_BITS, ONE_BITS),
        vx(HALF_BITS, HALF_BITS, HALF_BITS, ZERO_BITS, ONE_BITS, ZERO_BITS, ONE_BITS, ZERO_BITS),
        vx(NEG_HALF_BITS, HALF_BITS, NEG_HALF_BITS, ZERO_BITS, ONE_BITS, ZERO_BITS, ZERO_BITS, ONE_BITS),
        vx(NEG_HALF_BITS, HALF_BITS, HALF_BITS, ZERO_BITS, ONE_BITS, ZERO_BITS, ZERO_BITS, ZERO_BITS),
    ]
}

/// The cube's indices: the identity sequence, one index per vertex.
pub open spec fn cube_indices() -> Seq<u32> {
    Seq::new(36, |i: int| i as u32)
}

/// The 4 vertices of the unit plane, spanning x and z with the caller's
/// normal.
pub open spec fn plane_vertices(normal: Vec3Bits) -> Seq<Vertex> {
    seq![
        Vertex {
            position: Vec3Bits { x: NEG_HALF_BITS, y: ZERO_BITS, z: NEG_HALF_BITS },
            normal,
            tex_coords: Vec2Bits { x: ZERO_BITS, y: ZERO_BITS },
        },
        Vertex {
            position: Vec3Bits { x: NEG_HALF_BITS, y: ZERO_BITS, z: HALF_BITS },
            normal,
            tex_coords: Vec2Bits { x: ZERO_BITS, y: ONE_BITS },
        },
        Vertex {
            position: Vec3Bits { x: HALF_BITS, y: ZERO_BITS, z: NEG_HALF_BITS },
            normal,
            tex_coords: Vec2Bits { x: ONE_BITS, y: ZERO_BITS },
        },
        Vertex {
            position: Vec3Bits { x: HALF_BITS, y: ZERO_BITS, z: HALF_BITS },
            normal,
            tex_coords: Vec2Bits { x: ONE_BITS, y: ONE_BITS },
        },
    ]
}

/// The plane's 12 indices: two triangles in each winding, so the plane is
/// visible from both sides.
pub open spec fn plane_indices() -> Seq<u32> {
    seq![0u32, 1u32, 2u32, 1u32, 3u32, 2u32, 0u32, 2u32, 1u32, 1u32, 2u32, 3u32]
}

impl Geometry {
    /// The shape's vertex and index lists: 36 vertices and the identity
    /// index list for the cube, 4 vertices and 12 indices for the plane.
    pub fn to_vertices_indices(&self) -> (r: (Vec<Vertex>, Vec<u32>))
        ensures
            self matches Geometry::Cube { .. } ==> r.0@ == cube_vertices() && r.1@
                == cube_indices() && r.0@.len() == 36 && r.1@.len() == 36,
            self matches Geometry::Plane { normal, .. } ==> r.0@ == plane_vertices(*normal)
                && r.1@ == plane_indices() && r.0@.len() == 4 && r.1@.len() == 12,
    {
        match *self {
            Geometry::Cube { .. } => {
                let verts = cube_vertex_list();
                let mut indices: Vec<u32> = Vec::new();
                let mut i: u32 = 0;
                while i < 36
                    invariant
                        i <= 36,
                        indices@ == Seq::new(i as nat, |k: int| k as u32),
                    decreases 36 - i,
                {
                    indices.push(i);
                    proof {
                        assert(indices@ =~= Seq::new((i + 1) as nat, |k: int| k as u32));
                    }
                    i = i + 1;
                }
                (verts, indices)
            },
            Geometry::Plane { normal, .. } => {
                let mut verts: Vec<Vertex> = Vec::new();
                verts.push(
                    Vertex {
                        position: Vec3Bits { x: NEG_HALF_BITS, y: ZERO_BITS, z: NEG_HALF_BITS },
                        normal,
                        tex_coords: Vec2Bits { x: ZERO_BITS, y: ZERO_BITS },
                    },
                );
                verts.push(
                    Vertex {
                        position: Vec3Bits { x: NEG_HALF_BITS, y: ZERO_BITS, z: HALF_BITS },
                        normal,
                        tex_coords: Vec2Bits { x: ZERO_BITS, y: ONE_BITS },
                    },
                );
                verts.push(
                    Vertex {
                        position: Vec3Bits { x: HALF_BITS, y: ZERO_BITS, z: NEG_HALF_BITS },
                        normal,
                        tex_coords: Vec2Bits { x: ONE_BITS, y: ZERO_BITS },
                    },
                );
                verts.push(
                    Vertex {
                        position: Vec3Bits { x: HALF_BITS, y: ZERO_BITS, z: HALF_BITS },
                        normal,
                        tex_coords: Vec2Bits { x: ONE_BITS, y: ONE_BITS },
                    },
                );
                let mut indices: Vec<u32> = Vec::new();
                indices.push(0);
                indices.push(1);
                indices.push(2);
                indices.push(1);
                indices.push(3);
                indices.push(2);
                indices.push(0);
                indices.push(2);
                indices.push(1);
                indices.push(1);
                indices.push(2);
                indices.push(3);
                proof {
                    assert(verts@ =~= plane_vertices(normal));
                    assert(indices@ =~= plane_indices());
                }
                (verts, indices)
            },
        }
    }

    /// Uploads the shape as a mesh with the given material.
    pub fn to_mesh(
        &self,
        material: Option<Material>,
        vao: u32,
        vbo: u32,
        ebo: u32,
        out: &mut Vec<GlCommand>,
    ) -> (r: Mesh)
        ensures
            self matches Geometry::Cube { .. } ==> r.vertices@ == cube_vertices() && r.indices@
                == cube_indices(),
            self matches Geometry::Plane { normal, .. } ==> r.vertices@ == plane_vertices(*normal)
                && r.indices@ == plane_indices(),
            r.material == material,
            r.vao == vao,
            r.vbo == vbo,
            r.ebo == ebo,
    {
        let (vertices, indices) = self.to_vertices_indices();
        Mesh::new(vertices, indices, material, vao, vbo, ebo, out)
    }
}

/// The unit cube's vertex list.
#[verifier::rlimit(60)]
fn cube_vertex_list() -> (r: Vec<Vertex>)
    ensures
        r@ == cube_vertices(),
{
    let mut verts: Vec<Vertex> = Vec::new();
    verts.push(vxe(NEG_HALF_BITS, NEG_HALF_BITS, NEG_HALF_BITS, ZERO_BITS, ZERO_BITS, NEG_ONE_BITS, ZERO_BITS, ZERO_BITS));
    verts.push(vxe(HALF_BITS, HALF_BITS, NEG_HALF_BITS, ZERO_BITS, ZERO_BITS, NEG_ONE_BITS, ONE_BITS, ONE_BITS));
    verts.push(vxe(HALF_BITS, NEG_HALF_BITS, NEG_HALF_BITS, ZERO_BITS, ZERO_BITS, NEG_ONE_BITS, ONE_BITS, ZERO_BITS));
    verts.push(vxe(HALF_BITS, HALF_BITS, NEG_HALF_BITS, ZERO_BITS, ZERO_BITS, NEG_ONE_BITS, ONE_BITS, ONE_BITS));
    verts.push(vxe(NEG_HALF_BITS, NEG_HALF_BITS, NEG_HALF_BITS, ZERO_BITS, ZERO_BITS, NEG_ONE_BITS, ZERO_BITS, ZERO_BITS));
    verts.push(vxe(NEG_HALF_BITS, HALF_BITS, NEG_HALF_BITS, ZERO_BITS, ZERO_BITS, NEG_ONE_BITS, ZERO_BITS, ONE_BITS));
    verts.push(vxe(NEG_HALF_BITS, NEG_HALF_BITS, HALF_BITS, ZERO_BITS, ZERO_BITS, ONE_BITS, ZERO_BITS, ZERO_BITS));
    verts.push(vxe(HALF_BITS, NEG_HALF_BITS, HALF_BITS, ZERO_BITS, ZERO_BITS, ONE_BITS, ONE_BITS, ZERO_BITS));
    verts.push(vxe(HALF_BITS, HALF_BITS, HALF_BITS, ZERO_BITS, ZERO_BITS, ONE_BITS, ONE_BITS, ONE_BITS));
    verts.push(vxe(HALF_BITS, HALF_BITS, HALF_BITS, ZERO_BITS, ZERO_BITS, ONE_BITS, ONE_BITS, ONE_BITS));
    verts.push(vxe(NEG_HALF_BITS, HALF_BITS, HALF_BITS, ZERO_BITS, ZERO_BITS, ONE_BITS, ZERO_BITS, ONE_BITS));
    verts.push(vxe(NEG_HALF_BITS, NEG_HALF_BITS, HALF_BITS, ZERO_BITS, ZERO_BITS, ONE_BITS, ZERO_BITS, ZERO_BITS));
    verts.push(vxe(NEG_HALF_BITS, HALF_BITS, HALF_BITS, NEG_ONE_BITS, ZERO_BITS, ZERO_BITS, ONE_BITS, ZERO_BITS));
    verts.push(vxe(NEG_HALF_BITS, HALF_BITS, NEG_HALF_BITS, NEG_ONE_BITS, ZERO_BITS, ZERO_BITS, ONE_BITS, ONE_BITS));
    verts.push(vxe(NEG_HALF_BITS, NEG_HALF_BITS, NEG_HALF_BITS, NEG_ONE_BITS, ZERO_BITS, ZERO_BITS, ZERO_BITS, ONE_BITS));
    verts.push(vxe(NEG_HALF_BITS, NEG_HALF_BITS, NEG_HALF_BITS, NEG_ONE_BITS, ZERO_BITS, ZERO_BITS, ZERO_BITS, ONE_BITS));
    verts.push(vxe(NEG_HALF_BITS, NEG_HALF_BITS, HALF_BITS, NEG_ONE_BITS, ZERO_BITS, ZERO_BITS, ZERO_BITS, ZERO_BITS));
    verts.push(vxe(NEG_HALF_BITS, HALF_BITS, HALF_BITS, NEG_ONE_BITS, ZERO_BITS, ZERO_BITS, ONE_BITS, ZERO_BITS));
    verts.push(vxe(HALF_BITS, HALF_BITS, HALF_BITS, ONE_BITS, ZERO_BITS, ZERO_BITS, ONE_BITS, ZERO_BITS));
    verts.push(vxe(HALF_BITS, NEG_HALF_BITS, NEG_HALF_BITS, ONE_BITS, ZERO_BITS, ZERO_BITS, ZERO_BITS, ONE_BITS));
    verts.push(vxe(HALF_BITS, HALF_BITS, NEG_HALF_BITS, ONE_BITS, ZERO_BITS, ZERO_BITS, ONE_BITS, ONE_BITS));
    verts.push(vxe(HALF_BITS, NEG_HALF_BITS, NEG_HALF_BITS, ONE_BITS, ZERO_BITS, ZERO_BITS, ZERO_BITS, ONE_BITS));
    verts.push(vxe(HALF_BITS, HALF_BITS, HALF_BITS, ONE_BITS, ZERO_BITS, ZERO_BITS, ONE_BITS, ZERO_BITS));
    verts.push(vxe(HALF_BITS, NEG_HALF_BITS, HALF_BITS, ONE_BITS, ZERO_BITS, ZERO_BITS, ZERO_BITS, ZERO_BITS));
    verts.push(vxe(NEG_HALF_BITS, NEG_HALF_BITS, NEG_HALF_BITS, ZERO_BITS, NEG_ONE_BITS, ZERO_BITS, ZERO_BITS, ONE_BITS));
    verts.push(vxe(HALF_BITS, NEG_HALF_BITS, NEG_HALF_BITS, ZERO_BITS, NEG_ONE_BITS, ZERO_BITS, ONE_BITS, ONE_BITS));
    verts.push(vxe(HALF_BITS, NEG_HALF_BITS, HALF_BITS, ZERO_BITS, NEG_ONE_BITS, ZERO_BITS, ONE_BITS, ZERO_BITS));
    verts.push(vxe(HALF_BITS, NEG_HALF_BITS, HALF_BITS, ZERO_BITS, NEG_ONE_BITS, ZERO_BITS, ONE_BITS, ZERO_BITS));
    verts.push(vxe(NEG_HALF_BITS, NEG_HALF_BITS, HALF_BITS, ZERO_BITS, NEG_ONE_BITS, ZERO_BITS, ZERO_BITS, ZERO_BITS));
    verts.push(vxe(NEG_HALF_BITS, NEG_HALF_BITS, NEG_HALF_BITS, ZERO_BITS, NEG_ONE_BITS, ZERO_BITS, ZERO_BITS, ONE_BITS));
    verts.push(vxe(NEG_HALF_BITS, HALF_BITS, NEG_HALF_BITS, ZERO_BITS, ONE_BITS, ZERO_BITS, ZERO_BITS, ONE_BITS));
    verts.push(vxe(HALF_BITS, HALF_BITS, HALF_BITS, ZERO_BITS, ONE_BITS, ZERO_BITS, ONE_BITS, ZERO_BITS));
    verts.push(vxe(HALF_BITS, HALF_BITS, NEG_HALF_BITS, ZERO_BITS, ONE_BITS, ZERO_BITS, ONE_BITS, ONE_BITS));
    verts.push(vxe(HALF_BITS, HALF_BITS, HALF_BITS, ZERO_BITS, ONE_BITS, ZERO_BITS, ONE_BITS, ZERO_BITS));
    verts.push(vxe(NEG_HALF_BITS, HALF_BITS, NEG_HALF_BITS, ZERO_BITS, ONE_BITS, ZERO_BITS, ZERO_BITS, ONE_BITS));
    verts.push(vxe(NEG_HALF_BITS, HALF_BITS, HALF_BITS, ZERO_BITS, ONE_BITS, ZERO_BITS, ZERO_BITS, ZERO_BITS));
    proof {
        assert(verts@ =~= cube_vertices());
    }
    verts
}

} // verus!
