use vstd::prelude::*;
use vstd::bytes::{spec_u32_to_le_bytes, u32_to_le_bytes};
use crate::command::{BufferTarget, BufferUsage, CmdV, GlCommand};
use crate::material::{material_bind_cmds, Material};
use crate::math::{Vec2Bits, Vec3Bits};
use crate::shader::{push_cmd, ActiveShader};

verus! {

/// One vertex of the fixed layout: position, normal and texture
/// coordinates, all IEEE-754 bit patterns.
#[derive(Clone, Copy, PartialEq, Eq, Structural, Debug)]
pub struct Vertex {
    pub position: Vec3Bits,
    pub normal: Vec3Bits,
    pub tex_coords: Vec2Bits,
}

/// The eight 32-bit words of one vertex, in attribute order.
pub open spec fn vertex_words(v: Vertex) -> Seq<u32> {
    seq![
        v.position.x,
        v.position.y,
        v.position.z,
        v.normal.x,
        v.normal.y,
        v.normal.z,
        v.tex_coords.x,
        v.tex_coords.y,
    ]
}

/// The words of a vertex list, vertex by vertex.
pub open spec fn vertices_words(vs: Seq<Vertex>) -> Seq<u32>
    decreases vs,
{
    if vs.len() == 0 {
        Seq::empty()
    } else {
        vertices_words(vs.drop_last()) + vertex_words(vs.last())
    }
}

/// The little-endian bytes of a word list.
pub open spec fn words_le_bytes(ws: Seq<u32>) -> Seq<u8>
    decreases ws,
{
    if ws.len() == 0 {
        Seq::empty()
    } else {
        words_le_bytes(ws.drop_last()) + spec_u32_to_le_bytes(ws.last())
    }
}

/// The vertex at index `i` of a flat word array of 8 words per vertex.
pub open spec fn flat_vertex(values: Seq<u32>, i: int) -> Vertex {
    Vertex {
        position: Vec3Bits { x: values[8 * i], y: values[8 * i + 1], z: values[8 * i + 2] },
        normal: Vec3Bits { x: values[8 * i + 3], y: values[8 * i + 4], z: values[8 * i + 5] },
        tex_coords: Vec2Bits { x: values[8 * i + 6], y: values[8 * i + 7] },
    }
}

impl Vertex {
    /// Groups a flat array of 8 words per vertex (3 position, 3 normal,
    /// 2 texture) into vertices.
    pub fn from_flat_array(values: &Vec<u32>) -> (r: Vec<Vertex>)
        requires
            values@.len() % 8 == 0,
        ensures
            r@.len() == values@.len() / 8,
            forall|i: int| 0 <= i < r@.len() ==> r@[i] == flat_vertex(values@, i),
    {
        let n = values.len() / 8;
        let mut out: Vec<Vertex> = Vec::new();
        let mut i: usize = 0;
        while i < n
            invariant
                i <= n,
                n == values@.len() / 8,
                values@.len() % 8 == 0,
                values@.len() <= usize::MAX,
                out@.len() == i,
                forall|j: int| 0 <= j < i ==> out@[j] == flat_vertex(values@, j),
            decreases n - i,
        {
            proof {
                assert(8 * i + 8 <= values@.len()) by (nonlinear_arith)
                    requires
                        i < n,
                        n == values@.len() / 8,
                        values@.len() % 8 == 0,
                ;
            }
            let base: usize = 8 * i;
            let v = Vertex {
                position: Vec3Bits { x: values[base], y: values[base + 1], z: values[base + 2] },
                normal: Vec3Bits {
                    x: values[base + 3],
                    y: values[base + 4],
                    z: values[base + 5],
                },
                tex_coords: Vec2Bits { x: values[base + 6], y: values[base + 7] },
            };
            out.push(v);
            i = i + 1;
        }
        out
    }
}

/// Serializes a word list into little-endian bytes.
pub fn words_to_le_bytes(ws: &Vec<u32>) -> (r: Vec<u8>)
    ensures
        r@ == words_le_bytes(ws@),
{
    let mut out: Vec<u8> = Vec::new();
    let mut i: usize = 0;
    while i < ws.len()
        invariant
            i <= ws@.len(),
            out@ == words_le_bytes(ws@.take(i as int)),
        decreases ws@.len() - i,
    {
        let mut b = u32_to_le_bytes(ws[i]);
        out.append(&mut b);
        proof {
            assert(ws@.take(i as int + 1).drop_last() =~= ws@.take(i as int));
            assert(ws@.take(i as int + 1).last() == ws@[i as int]);
        }
        i = i + 1;
    }
    proof {
        assert(ws@.take(ws@.len() as int) =~= ws@);
    }
    out
}

/// Flattens a vertex list into its words.
fn vertices_to_words(vs: &Vec<Vertex>) -> (r: Vec<u32>)
    ensures
        r@ == vertices_words(vs@),
{
    let mut out: Vec<u32> = Vec::new();
    let mut i: usize = 0;
    while i < vs.len()
        invariant
            i <= vs@.len(),
            out@ == vertices_words(vs@.take(i as int)),
        decreases vs@.len() - i,
    {
        let ghost prev = out@;
        let v = vs[i];
        out.push(v.position.x);
        out.push(v.position.y);
        out.push(v.position.z);
        out.push(v.normal.x);
        out.push(v.normal.y);
        out.push(v.normal.z);
        out.push(v.tex_coords.x);
        out.push(v.tex_coords.y);
        proof {
            assert(vs@.take(i as int + 1).drop_last() =~= vs@.take(i as int));
            assert(vs@.take(i as int + 1).last() == vs@[i as int]);
            assert(out@ =~= prev + vertex_words(vs@[i as int]));
        }
        i = i + 1;
    }
    proof {
        assert(vs@.take(vs@.len() as int) =~= vs@);
    }
    out
}

/// The fixed vertex-attribute layout: 8 floats per vertex (3 position,
/// 3 normal, 2 texture coordinates), so a 32-byte stride with the normal at
/// byte 12 and the texture coordinates at byte 24.
pub open spec fn vertex_layout_cmds() -> Seq<CmdV> {
    seq![
        CmdV::EnableVertexAttrib { index: 0 },
        CmdV::VertexAttribPointer { index: 0, size: 3, stride: 32, offset: 0 },
        CmdV::EnableVertexAttrib { index: 1 },
        CmdV::VertexAttribPointer { index: 1, size: 3, stride: 32, offset: 12 },
        CmdV::EnableVertexAttrib { index: 2 },
        CmdV::VertexAttribPointer { index: 2, size: 2, stride: 32, offset: 24 },
    ]
}

/// A GPU vertex/index buffer pair with the fixed vertex layout and an
/// optional material. Created once from a vertex and index array, drawn many
/// times. Cloning shares the GPU buffer handles.
#[derive(Clone)]
pub struct Mesh {
    pub vertices: Vec<Vertex>,
    pub indices: Vec<u32>,
    pub material: Option<Material>,
    /// The vertex array object handle.
    pub vao: u32,
    /// The vertex buffer object handle.
    pub vbo: u32,
    /// The index buffer object handle.
    pub ebo: u32,
}

/// How many texture slots drawing the mesh takes before it rewinds them.
pub open spec fn mesh_slots(material: Option<Material>) -> nat {
    match material {
        Some(_) => 2,
        None => 0,
    }
}

/// The command stream of one mesh draw: the material bound under
/// `"material"` where there is one, then an indexed draw of the whole index
/// list.
pub open spec fn mesh_draw_cmds(m: &Mesh, slot: nat) -> Seq<CmdV> {
    (match m.material {
        Some(mat) => material_bind_cmds(mat, slot),
        None => Seq::empty(),
    }) + seq![
        CmdV::BindVertexArray { vao: m.vao },
        CmdV::DrawElements { count: m.indices@.len() as u32 },
        CmdV::UnbindVertexArray,
    ]
}

impl Mesh {
    /// Uploads the vertex and index data once and configures the fixed
    /// 3-attribute vertex layout. The embedder supplies the created vertex
    /// array and buffer handles.
    pub fn new(
        vertices: Vec<Vertex>,
        indices: Vec<u32>,
        material: Option<Material>,
        vao: u32,
        vbo: u32,
        ebo: u32,
        out: &mut Vec<GlCommand>,
    ) -> (r: Mesh)
        requires
            indices@.len() <= u32::MAX,
        ensures
            r.vertices@ == vertices@,
            r.indices@ == indices@,
            r.material == material,
            r.vao == vao,
            r.vbo == vbo,
            r.ebo == ebo,
            final(out).deep_view() == old(out).deep_view() + seq![
                CmdV::BindVertexArray { vao },
                CmdV::BindBuffer { target: BufferTarget::ElementArray, buffer: ebo },
                CmdV::BufferData {
                    target: BufferTarget::ElementArray,
                    bytes: words_le_bytes(indices@),
                    usage: BufferUsage::Static,
                },
                CmdV::BindBuffer { target: BufferTarget::Array, buffer: vbo },
                CmdV::BufferData {
                    target: BufferTarget::Array,
                    bytes: words_le_bytes(vertices_words(vertices@)),
                    usage: BufferUsage::Static,
                },
            ] + vertex_layout_cmds() + seq![CmdV::UnbindVertexArray],
    {
        let ghost prev = out.deep_view();
        let index_bytes = words_to_le_bytes(&indices);
        let vertex_words = vertices_to_words(&vertices);
        let vertex_bytes = words_to_le_bytes(&vertex_words);
        push_cmd(out, GlCommand::BindVertexArray { vao });
        push_cmd(out, GlCommand::BindBuffer { target: BufferTarget::ElementArray, buffer: ebo });
        push_cmd(
            out,
            GlCommand::BufferData {
                target: BufferTarget::ElementArray,
                bytes: index_bytes,
                usage: BufferUsage::Static,
            },
        );
        push_cmd(out, GlCommand::BindBuffer { target: BufferTarget::Array, buffer: vbo });
        push_cmd(
            out,
            GlCommand::BufferData {
                target: BufferTarget::Array,
                bytes: vertex_bytes,
                usage: BufferUsage::Static,
            },
        );
        push_cmd(out, GlCommand::EnableVertexAttrib { index: 0 });
        push_cmd(out, GlCommand::VertexAttribPointer { index: 0, size: 3, stride: 32, offset: 0 });
        push_cmd(out, GlCommand::EnableVertexAttrib { index: 1 });
        push_cmd(out, GlCommand::VertexAttribPointer { index: 1, size: 3, stride: 32, offset: 12 });
        push_cmd(out, GlCommand::EnableVertexAttrib { index: 2 });
        push_cmd(out, GlCommand::VertexAttribPointer { index: 2, size: 2, stride: 32, offset: 24 });
        push_cmd(out, GlCommand::UnbindVertexArray);
        proof {
            assert(out.deep_view() =~= prev + seq![
                CmdV::BindVertexArray { vao },
                CmdV::BindBuffer { target: BufferTarget::ElementArray, buffer: ebo },
                CmdV::BufferData {
                    target: BufferTarget::ElementArray,
                    bytes: words_le_bytes(indices@),
                    usage: BufferUsage::Static,
                },
                CmdV::BindBuffer { target: BufferTarget::Array, buffer: vbo },
                CmdV::BufferData {
                    target: BufferTarget::Array,
                    bytes: words_le_bytes(vertices_words(vertices@)),
                    usage: BufferUsage::Static,
                },
            ] + vertex_layout_cmds() + seq![CmdV::UnbindVertexArray]);
        }
        Mesh { vertices, indices, material, vao, vbo, ebo }
    }

    /// Binds the material where there is one, issues the indexed draw call,
    /// and rewinds the texture-slot counter so the next draw's textures
    /// reuse the same units.
    pub fn draw(&self, shader: &mut ActiveShader, out: &mut Vec<GlCommand>)
        requires
            self.indices@.len() <= u32::MAX,
            old(shader).slots_taken() + mesh_slots(self.material) <= u32::MAX,
        ensures
            final(shader).spec_program() == old(shader).spec_program(),
            final(shader).slots_taken() == 0,
            final(out).deep_view() == old(out).deep_view() + mesh_draw_cmds(
                self,
                old(shader).slots_taken() as nat,
            ),
    {
        let ghost prev = out.deep_view();
        match &self.material {
            Some(mat) => {
                mat.bind(shader, out);
            },
            None => {},
        }
        push_cmd(out, GlCommand::BindVertexArray { vao: self.vao });
        push_cmd(out, GlCommand::DrawElements { count: self.indices.len() as u32 });
        push_cmd(out, GlCommand::UnbindVertexArray);
        shader.reset_textures();
        proof {
            assert(out.deep_view() =~= prev + mesh_draw_cmds(
                self,
                old(shader).slots_taken() as nat,
            ));
        }
    }

    /// Wraps the mesh as a single-mesh model.
    pub fn to_model(self) -> (r: Model)
        ensures
            r.meshes@.len() == 1,
            r.meshes@[0] == self,
    {
        let mut meshes: Vec<Mesh> = Vec::new();
        meshes.push(self);
        Model { meshes }
    }
}

/// A model: a list of meshes drawn together. Cloning shares the meshes'
/// GPU objects.
#[derive(Clone)]
pub struct Model {
    pub meshes: Vec<Mesh>,
}

/// The command stream of drawing each mesh of a model in order: the first
/// mesh starts at the caller's slot counter, every later one at 0 because
/// each draw rewinds the counter.
pub open spec fn model_draw_cmds(meshes: Seq<Mesh>, slot: nat) -> Seq<CmdV>
    decreases meshes,
{
    if meshes.len() == 0 {
        Seq::empty()
    } else {
        mesh_draw_cmds(&meshes[0], slot) + model_draw_cmds(meshes.drop_first(), 0)
    }
}

impl Model {
    /// Every mesh's index list fits the draw call's count.
    pub open spec fn wf(&self) -> bool {
        forall|i: int| 0 <= i < self.meshes@.len() ==> (#[trigger] self.meshes@[i]).indices@.len()
            <= u32::MAX
    }

    /// Draws each mesh in order.
    pub fn draw(&self, shader: &mut ActiveShader, out: &mut Vec<GlCommand>)
        requires
            self.wf(),
            old(shader).slots_taken() + 2 <= u32::MAX,
        ensures
            final(shader).spec_program() == old(shader).spec_program(),
            final(shader).slots_taken() == if self.meshes@.len() == 0 {
                old(shader).slots_taken() as int
            } else {
                0
            },
            final(out).deep_view() == old(out).deep_view() + model_draw_cmds(
                self.meshes@,
                old(shader).slots_taken() as nat,
            ),
    {
        self.draw_from(0, shader, out);
        proof {
            assert(self.meshes@.skip(0) =~= self.meshes@);
        }
    }

    /// Draws the meshes from index `i` on.
    fn draw_from(&self, i: usize, shader: &mut ActiveShader, out: &mut Vec<GlCommand>)
        requires
            self.wf(),
            i <= self.meshes@.len(),
            old(shader).slots_taken() + 2 <= u32::MAX,
        ensures
            final(shader).spec_program() == old(shader).spec_program(),
            final(shader).slots_taken() == if i == self.meshes@.len() {
                old(shader).slots_taken() as int
            } else {
                0
            },
            final(out).deep_view() == old(out).deep_view() + model_draw_cmds(
                self.meshes@.skip(i as int),
                old(shader).slots_taken() as nat,
            ),
        decreases self.meshes@.len() - i,
    {
        if i < self.meshes.len() {
            proof {
                assert(self.meshes@.skip(i as int)[0] == self.meshes@[i as int]);
                assert(self.meshes@.skip(i as int).drop_first() =~= self.meshes@.skip(i as int + 1));
            }
            self.meshes[i].draw(shader, out);
            self.draw_from(i + 1, shader, out);
        } else {
            proof {
                assert(self.meshes@.skip(i as int) =~= Seq::<Mesh>::empty());
            }
        }
    }
}

} // verus!
