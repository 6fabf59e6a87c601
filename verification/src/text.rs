use vstd::prelude::*;
use crate::command::{BufferTarget, BufferUsage, CmdV, GlCommand, TexTarget};
use crate::math::{Vec2Bits, Vec4Bits};
use crate::mesh::words_le_bytes;
use crate::shader::{push_cmd, ActiveShader, Shader};
use crate::texture::{T2d, Texture};

verus! {

/// One glyph quad as the instanced text shader consumes it: screen
/// rectangle, atlas rectangle, depth and color, all float bit patterns.
#[derive(Clone, Copy, PartialEq, Eq, Structural, Debug)]
pub struct TextVertex {
    pub left_top: Vec2Bits,
    pub right_bottom: Vec2Bits,
    pub tex_left_top: Vec2Bits,
    pub tex_right_bottom: Vec2Bits,
    pub z: u32,
    pub color: Vec4Bits,
}

/// The thirteen 32-bit words of one glyph quad, in attribute order.
pub open spec fn text_vertex_words(v: TextVertex) -> Seq<u32> {
    seq![
        v.left_top.x,
        v.left_top.y,
        v.right_bottom.x,
        v.right_bottom.y,
        v.tex_left_top.x,
        v.tex_left_top.y,
        v.tex_right_bottom.x,
        v.tex_right_bottom.y,
        v.z,
        v.color.x,
        v.color.y,
        v.color.z,
        v.color.w,
    ]
}

/// The words of a glyph quad list, quad by quad.
pub open spec fn text_vertices_words(vs: Seq<TextVertex>) -> Seq<u32>
    decreases vs,
{
    if vs.len() == 0 {
        Seq::empty()
    } else {
        text_vertices_words(vs.drop_last()) + text_vertex_words(vs.last())
    }
}

/// One rectangular update of the glyph atlas, reported by the text-shaping
/// collaborator as new glyphs are rasterised.
pub struct AtlasPatch {
    pub x: u32,
    pub y: u32,
    pub width: u32,
    pub height: u32,
    pub pixels: Vec<u8>,
}

/// What the text-shaping collaborator reported for this redraw: either no
/// change to the glyph quads, or a full replacement list.
pub enum BrushUpdate {
    Keep,
    Draw(Vec<TextVertex>),
}

/// A piece of 2-D text queued against a font: plain data the embedder hands
/// to the text-shaping collaborator.
pub struct Text {
    pub text: String,
    pub font: String,
    pub font_size: u32,
    pub color: Vec4Bits,
    pub position: Vec2Bits,
}

impl Text {
    /// A text run at a screen position, with its font name, size and color
    /// (bit patterns).
    pub fn new(text: String, font: String, font_size: u32, color: Vec4Bits, position: Vec2Bits)
        -> (r: Text)
        ensures
            r.text@ == text@,
            r.font@ == font@,
            r.font_size == font_size,
            r.color == color,
            r.position == position,
    {
        Text { text, font, font_size, color, position }
    }
}

/// A font: its name, the glyph-atlas texture the shaping collaborator
/// renders into, and the instanced vertex buffer of queued glyph quads.
pub struct Font {
    pub name: String,
    /// The single-channel glyph atlas.
    pub texture: Texture<T2d>,
    /// The vertex array holding the glyph-quad attributes.
    pub vertex_array: u32,
    /// The buffer the glyph quads are streamed into.
    pub vertex_buffer: u32,
    /// How many glyph quads the buffer currently holds.
    pub vertex_count: u32,
}

/// The atlas-update commands of a patch list, in order: each patch binds
/// the atlas and overwrites one rectangle.
pub open spec fn patches_cmds(texture: Texture<T2d>, patches: Seq<AtlasPatch>) -> Seq<CmdV>
    decreases patches,
{
    if patches.len() == 0 {
        Seq::empty()
    } else {
        seq![
            CmdV::BindTexture { target: TexTarget::D2, texture: texture.spec_texture() },
            CmdV::TexSubImage2d {
                x: patches[0].x,
                y: patches[0].y,
                width: patches[0].width,
                height: patches[0].height,
                format: texture.spec_format(),
                pixels: patches[0].pixels@,
            },
        ] + patches_cmds(texture, patches.drop_first())
    }
}

/// The buffer-upload commands of a brush update: a replacement list is
/// streamed into the vertex buffer; no change uploads nothing.
pub open spec fn upload_cmds(vertex_buffer: u32, action: &BrushUpdate) -> Seq<CmdV> {
    match action {
        BrushUpdate::Keep => Seq::empty(),
        BrushUpdate::Draw(vertices) => seq![
            CmdV::BindBuffer { target: BufferTarget::Array, buffer: vertex_buffer },
            CmdV::BufferData {
                target: BufferTarget::Array,
                bytes: words_le_bytes(text_vertices_words(vertices@)),
                usage: BufferUsage::Dynamic,
            },
        ],
    }
}

/// How many quads the buffer holds after a brush update.
pub open spec fn count_after(old_count: u32, action: &BrushUpdate) -> int {
    match action {
        BrushUpdate::Keep => old_count as int,
        BrushUpdate::Draw(vertices) => vertices@.len() as int,
    }
}

impl Font {
    /// The glyph quads fit the instanced draw call's count.
    pub open spec fn update_ok(action: &BrushUpdate) -> bool {
        match action {
            BrushUpdate::Keep => true,
            BrushUpdate::Draw(vertices) => vertices@.len() <= u32::MAX,
        }
    }

    /// Applies this redraw's atlas patches and quad update, then draws the
    /// queued text instanced against the atlas: one shader invocation per 4
    /// corners times the glyph count, with the orthographic pixel-to-clip
    /// transform bound under `"model"`.
    pub fn draw(
        &mut self,
        shader: &Shader,
        patches: &Vec<AtlasPatch>,
        action: &BrushUpdate,
        transform: &[u32; 16],
        out: &mut Vec<GlCommand>,
    ) -> (binder: ActiveShader)
        requires
            Self::update_ok(action),
        ensures
            final(self).vertex_count == count_after(old(self).vertex_count, action),
            final(self).texture == old(self).texture,
            final(self).vertex_array == old(self).vertex_array,
            final(self).vertex_buffer == old(self).vertex_buffer,
            final(self).name@ == old(self).name@,
            binder.spec_program() == shader.spec_id(),
            binder.slots_taken() == 1,
            final(out).deep_view() == old(out).deep_view() + patches_cmds(
                old(self).texture,
                patches@,
            ) + seq![CmdV::BindVertexArray { vao: old(self).vertex_array }] + upload_cmds(
                old(self).vertex_buffer,
                action,
            ) + seq![
                CmdV::UseProgram { program: shader.spec_id() },
                CmdV::UniformInt { name: "font_tex"@, value: 0 },
                CmdV::ActiveTexture { slot: 0 },
                CmdV::BindTexture {
                    target: TexTarget::D2,
                    texture: old(self).texture.spec_texture(),
                },
                CmdV::UniformMat4 { name: "model"@, m: transform@ },
                CmdV::DrawArraysInstanced {
                    instances: count_after(old(self).vertex_count, action) as u32,
                },
            ],
    {
        let ghost prev = out.deep_view();
        proof {
            assert(patches@.skip(0) =~= patches@);
        }
        self.apply_patches(patches, 0, out);
        push_cmd(out, GlCommand::BindVertexArray { vao: self.vertex_array });
        match action {
            BrushUpdate::Keep => {},
            BrushUpdate::Draw(vertices) => {
                let words = text_vertices_to_words(vertices);
                let bytes = crate::mesh::words_to_le_bytes(&words);
                push_cmd(
                    out,
                    GlCommand::BindBuffer {
                        target: BufferTarget::Array,
                        buffer: self.vertex_buffer,
                    },
                );
                push_cmd(
                    out,
                    GlCommand::BufferData {
                        target: BufferTarget::Array,
                        bytes,
                        usage: BufferUsage::Dynamic,
                    },
                );
                self.vertex_count = vertices.len() as u32;
            },
        }
        let mut binder = shader.activate(out);
        let tex_value = self.texture.uniform_value();
        binder.bind_uniform("font_tex", &tex_value, out);
        let model_value = crate::shader::UniformValue::Matrix4(*transform);
        binder.bind_uniform("model", &model_value, out);
        push_cmd(out, GlCommand::DrawArraysInstanced { instances: self.vertex_count });
        proof {
            assert(out.deep_view() =~= prev + patches_cmds(
                old(self).texture,
                patches@,
            ) + seq![CmdV::BindVertexArray { vao: old(self).vertex_array }] + upload_cmds(
                old(self).vertex_buffer,
                action,
            ) + seq![
                CmdV::UseProgram { program: shader.spec_id() },
                CmdV::UniformInt { name: "font_tex"@, value: 0 },
                CmdV::ActiveTexture { slot: 0 },
                CmdV::BindTexture {
                    target: TexTarget::D2,
                    texture: old(self).texture.spec_texture(),
                },
                CmdV::UniformMat4 { name: "model"@, m: transform@ },
                CmdV::DrawArraysInstanced {
                    instances: count_after(old(self).vertex_count, action) as u32,
                },
            ]);
        }
        binder
    }

    /// Emits the atlas update of every patch from index `i` on.
    fn apply_patches(&self, patches: &Vec<AtlasPatch>, i: usize, out: &mut Vec<GlCommand>)
        requires
            i <= patches@.len(),
        ensures
            final(out).deep_view() == old(out).deep_view() + patches_cmds(
                self.texture,
                patches@.skip(i as int),
            ),
        decreases patches@.len() - i,
    {
        if i < patches.len() {
            let ghost prev = out.deep_view();
            proof {
                assert(patches@.skip(i as int)[0] == patches@[i as int]);
                assert(patches@.skip(i as int).drop_first() =~= patches@.skip(i as int + 1));
            }
            let patch = &patches[i];
            push_cmd(
                out,
                GlCommand::BindTexture {
                    target: TexTarget::D2,
                    texture: self.texture.texture,
                },
            );
            push_cmd(
                out,
                GlCommand::TexSubImage2d {
                    x: patch.x,
                    y: patch.y,
                    width: patch.width,
                    height: patch.height,
                    format: self.texture.format(),
                    pixels: copy_pixel_bytes(&patch.pixels),
                },
            );
            self.apply_patches(patches, i + 1, out);
            proof {
                assert(out.deep_view() =~= prev + patches_cmds(
                    self.texture,
                    patches@.skip(i as int),
                ));
            }
        } else {
            proof {
                assert(patches@.skip(i as int) =~= Seq::<AtlasPatch>::empty());
            }
        }
    }

}

/// Copies a pixel buffer.
fn copy_pixel_bytes(src: &Vec<u8>) -> (r: Vec<u8>)
    ensures
        r@ == src@,
{
    let mut out: Vec<u8> = Vec::new();
    let mut i: usize = 0;
    while i < src.len()
        invariant
            i <= src@.len(),
            out@ =~= src@.take(i as int),
        decreases src@.len() - i,
    {
        out.push(src[i]);
        proof {
            assert(out@ =~= src@.take(i as int + 1));
        }
        i = i + 1;
    }
    proof {
        assert(src@.take(src@.len() as int) =~= src@);
    }
    out
}

/// Flattens a glyph quad list into its words.
fn text_vertices_to_words(vs: &Vec<TextVertex>) -> (r: Vec<u32>)
    ensures
        r@ == text_vertices_words(vs@),
{
    let mut out: Vec<u32> = Vec::new();
    let mut i: usize = 0;
    while i < vs.len()
        invariant
            i <= vs@.len(),
            out@ == text_vertices_words(vs@.take(i as int)),
        decreases vs@.len() - i,
    {
        let ghost prev = out@;
        let v = vs[i];
        out.push(v.left_top.x);
        out.push(v.left_top.y);
        out.push(v.right_bottom.x);
        out.push(v.right_bottom.y);
        out.push(v.tex_left_top.x);
        out.push(v.tex_left_top.y);
        out.push(v.tex_right_bottom.x);
        out.push(v.tex_right_bottom.y);
        out.push(v.z);
        out.push(v.color.x);
        out.push(v.color.y);
        out.push(v.color.z);
        out.push(v.color.w);
        proof {
            assert(vs@.take(i as int + 1).drop_last() =~= vs@.take(i as int));
            assert(vs@.take(i as int + 1).last() == vs@[i as int]);
            assert(out@ =~= prev + text_vertex_words(vs@[i as int]));
        }
        i = i + 1;
    }
    proof {
        assert(vs@.take(vs@.len() as int) =~= vs@);
    }
    out
}

} // verus!
