use vstd::prelude::*;
use crate::math::{Vec2Bits, Vec3Bits, Vec4Bits};

verus! {

/// The two texture targets the renderer uses.
#[derive(Clone, Copy, PartialEq, Eq, Structural, Debug)]
pub enum TexTarget {
    /// An ordinary 2-D texture.
    D2,
    /// A six-faced cubemap texture.
    Cube,
}

/// Buffer binding targets.
#[derive(Clone, Copy, PartialEq, Eq, Structural, Debug)]
pub enum BufferTarget {
    /// Vertex data.
    Array,
    /// Index data.
    ElementArray,
    /// Uniform-block storage.
    Uniform,
}

/// Buffer usage hints.
#[derive(Clone, Copy, PartialEq, Eq, Structural, Debug)]
pub enum BufferUsage {
    Static,
    Dynamic,
}

/// GPU capabilities toggled by the render passes.
#[derive(Clone, Copy, PartialEq, Eq, Structural, Debug)]
pub enum Capability {
    DepthTest,
    StencilTest,
    Blend,
    CullFace,
}

/// The destination of a 2-D image upload: either the 2-D texture target or
/// one of the six cubemap faces, numbered 0 to 5 in the fixed order
/// {+X, -X, +Y, -Y, +Z, -Z}.
#[derive(Clone, Copy, PartialEq, Eq, Structural, Debug)]
pub enum TexImageTarget {
    Tex2d,
    CubeFace(u32),
}

/// One GPU call, as plain data.
///
/// The library computes an ordered stream of these; an embedder executes them
/// against a real graphics context, resolving each uniform or block `name` to
/// a location in the current program. A name the program does not expose is a
/// silent no-op, never an error: shader compilers are free to optimize away
/// unused declared uniforms.
#[derive(Clone, PartialEq, Debug)]
pub enum GlCommand {
    /// Write one `int` uniform.
    UniformInt { name: String, value: i32 },
    /// Write one `uint` uniform.
    UniformUint { name: String, value: u32 },
    /// Write one `float` uniform, given as its bit pattern.
    UniformFloat { name: String, bits: u32 },
    /// Write a `vec2` uniform.
    UniformVec2 { name: String, v: Vec2Bits },
    /// Write a `vec3` uniform.
    UniformVec3 { name: String, v: Vec3Bits },
    /// Write a `vec4` uniform.
    UniformVec4 { name: String, v: Vec4Bits },
    /// Write a `mat3` uniform, column-major, no transpose.
    UniformMat3 { name: String, m: [u32; 9] },
    /// Write a `mat4` uniform, column-major, no transpose.
    UniformMat4 { name: String, m: [u32; 16] },
    /// Make the given texture unit active.
    ActiveTexture { slot: u32 },
    /// Bind a texture object to the active unit.
    BindTexture { target: TexTarget, texture: u32 },
    /// Unbind whatever texture the target holds.
    UnbindTexture { target: TexTarget },
    /// Associate the named uniform block of the current program with a
    /// buffer binding index.
    BindBlock { name: String, binding: u32 },
    /// Make a program current.
    UseProgram { program: u32 },
    /// Bind a vertex array object.
    BindVertexArray { vao: u32 },
    /// Unbind the current vertex array object.
    UnbindVertexArray,
    /// Bind a buffer object to a target.
    BindBuffer { target: BufferTarget, buffer: u32 },
    /// Unbind the buffer bound to a target.
    UnbindBuffer { target: BufferTarget },
    /// Fill the buffer bound to `target` with `bytes`.
    BufferData { target: BufferTarget, bytes: Vec<u8>, usage: BufferUsage },
    /// Allocate `size` bytes of uninitialised storage for the buffer bound to
    /// `target`.
    AllocateBuffer { target: BufferTarget, size: u32, usage: BufferUsage },
    /// Overwrite part of the buffer bound to `target`, starting at `offset`.
    BufferSubData { target: BufferTarget, offset: u32, bytes: Vec<u8> },
    /// Attach a buffer to an indexed binding point of a target.
    BindBufferBase { target: BufferTarget, index: u32, buffer: u32 },
    /// Enable one vertex attribute slot.
    EnableVertexAttrib { index: u32 },
    /// Describe one float vertex attribute: `size` components, `stride`
    /// bytes between consecutive vertices, `offset` bytes from the start.
    VertexAttribPointer { index: u32, size: u32, stride: u32, offset: u32 },
    /// Advance the attribute once per `divisor` instances.
    VertexAttribDivisor { index: u32, divisor: u32 },
    /// Draw `count` indexed triangle-list vertices from the bound buffers.
    DrawElements { count: u32 },
    /// Draw a 4-vertex triangle strip `instances` times.
    DrawArraysInstanced { instances: u32 },
    /// Toggle a capability.
    Enable { cap: Capability },
    Disable { cap: Capability },
    /// Set the clear color (four float bit patterns).
    ClearColor { color: Vec4Bits },
    /// Clear the selected buffers of the bound framebuffer.
    Clear { color: bool, depth: bool, stencil: bool },
    /// Redirect rendering into an offscreen framebuffer.
    BindFramebuffer { fbo: u32 },
    /// Return rendering to the default framebuffer.
    UnbindFramebuffer,
    /// Attach a texture as the framebuffer's color output.
    FramebufferTexture2d { texture: u32 },
    /// Bind a renderbuffer object.
    BindRenderbuffer { rbo: u32 },
    /// Unbind the current renderbuffer object.
    UnbindRenderbuffer,
    /// Allocate combined depth+stencil storage for the bound renderbuffer.
    RenderbufferStorageDepthStencil { width: u32, height: u32 },
    /// Attach a renderbuffer as the framebuffer's depth+stencil output.
    FramebufferRenderbuffer { rbo: u32 },
    /// Set the row alignment for subsequent pixel uploads.
    PixelStoreUnpackAlignment { value: u32 },
    /// Upload a 2-D image; `pixels` of `None` allocates storage without data.
    TexImage2d {
        target: TexImageTarget,
        internal_format: u32,
        width: u32,
        height: u32,
        format: u32,
        pixels: Option<Vec<u8>>,
    },
    /// Overwrite a rectangle of an existing 2-D texture.
    TexSubImage2d {
        x: u32,
        y: u32,
        width: u32,
        height: u32,
        format: u32,
        pixels: Vec<u8>,
    },
    /// Set one texture parameter of the texture bound to `target`.
    TexParameter { target: TexTarget, parameter: u32, value: u32 },
    /// Build the mipmap chain of the texture bound to `target`.
    GenerateMipmap { target: TexTarget },
}

/// The mathematical value of a [`GlCommand`]: strings become character
/// sequences and byte vectors become byte sequences.
pub enum CmdV {
    UniformInt { name: Seq<char>, value: i32 },
    UniformUint { name: Seq<char>, value: u32 },
    UniformFloat { name: Seq<char>, bits: u32 },
    UniformVec2 { name: Seq<char>, v: Vec2Bits },
    UniformVec3 { name: Seq<char>, v: Vec3Bits },
    UniformVec4 { name: Seq<char>, v: Vec4Bits },
    UniformMat3 { name: Seq<char>, m: Seq<u32> },
    UniformMat4 { name: Seq<char>, m: Seq<u32> },
    ActiveTexture { slot: u32 },
    BindTexture { target: TexTarget, texture: u32 },
    UnbindTexture { target: TexTarget },
    BindBlock { name: Seq<char>, binding: u32 },
    UseProgram { program: u32 },
    BindVertexArray { vao: u32 },
    UnbindVertexArray,
    BindBuffer { target: BufferTarget, buffer: u32 },
    UnbindBuffer { target: BufferTarget },
    BufferData { target: BufferTarget, bytes: Seq<u8>, usage: BufferUsage },
    AllocateBuffer { target: BufferTarget, size: u32, usage: BufferUsage },
    BufferSubData { target: BufferTarget, offset: u32, bytes: Seq<u8> },
    BindBufferBase { target: BufferTarget, index: u32, buffer: u32 },
    EnableVertexAttrib { index: u32 },
    VertexAttribPointer { index: u32, size: u32, stride: u32, offset: u32 },
    VertexAttribDivisor { index: u32, divisor: u32 },
    DrawElements { count: u32 },
    DrawArraysInstanced { instances: u32 },
    Enable { cap: Capability },
    Disable { cap: Capability },
    ClearColor { color: Vec4Bits },
    Clear { color: bool, depth: bool, stencil: bool },
    BindFramebuffer { fbo: u32 },
    UnbindFramebuffer,
    FramebufferTexture2d { texture: u32 },
    BindRenderbuffer { rbo: u32 },
    UnbindRenderbuffer,
    RenderbufferStorageDepthStencil { width: u32, height: u32 },
    FramebufferRenderbuffer { rbo: u32 },
    PixelStoreUnpackAlignment { value: u32 },
    TexImage2d {
        target: TexImageTarget,
        internal_format: u32,
        width: u32,
        height: u32,
        format: u32,
        pixels: Option<Seq<u8>>,
    },
    TexSubImage2d {
        x: u32,
        y: u32,
        width: u32,
        height: u32,
        format: u32,
        pixels: Seq<u8>,
    },
    TexParameter { target: TexTarget, parameter: u32, value: u32 },
    GenerateMipmap { target: TexTarget },
}

impl View for GlCommand {
    type V = CmdV;

    open spec fn view(&self) -> CmdV {
        match *self {
            GlCommand::UniformInt { ref name, value } => CmdV::UniformInt { name: name@, value },
            GlCommand::UniformUint { ref name, value } => CmdV::UniformUint { name: name@, value },
            GlCommand::UniformFloat { ref name, bits } => CmdV::UniformFloat { name: name@, bits },
            GlCommand::UniformVec2 { ref name, v } => CmdV::UniformVec2 { name: name@, v },
            GlCommand::UniformVec3 { ref name, v } => CmdV::UniformVec3 { name: name@, v },
            GlCommand::UniformVec4 { ref name, v } => CmdV::UniformVec4 { name: name@, v },
            GlCommand::UniformMat3 { ref name, m } => CmdV::UniformMat3 { name: name@, m: m@ },
            GlCommand::UniformMat4 { ref name, m } => CmdV::UniformMat4 { name: name@, m: m@ },
            GlCommand::ActiveTexture { slot } => CmdV::ActiveTexture { slot },
            GlCommand::BindTexture { target, texture } => CmdV::BindTexture { target, texture },
            GlCommand::UnbindTexture { target } => CmdV::UnbindTexture { target },
            GlCommand::BindBlock { ref name, binding } => CmdV::BindBlock { name: name@, binding },
            GlCommand::UseProgram { program } => CmdV::UseProgram { program },
            GlCommand::BindVertexArray { vao } => CmdV::BindVertexArray { vao },
            GlCommand::UnbindVertexArray => CmdV::UnbindVertexArray,
            GlCommand::BindBuffer { target, buffer } => CmdV::BindBuffer { target, buffer },
            GlCommand::UnbindBuffer { target } => CmdV::UnbindBuffer { target },
            GlCommand::BufferData { target, ref bytes, usage } => CmdV::BufferData {
                target,
                bytes: bytes@,
                usage,
            },
            GlCommand::AllocateBuffer { target, size, usage } => CmdV::AllocateBuffer {
                target,
                size,
                usage,
            },
            GlCommand::BufferSubData { target, offset, ref bytes } => CmdV::BufferSubData {
                target,
                offset,
                bytes: bytes@,
            },
            GlCommand::BindBufferBase { target, index, buffer } => CmdV::BindBufferBase {
                target,
                index,
                buffer,
            },
            GlCommand::EnableVertexAttrib { index } => CmdV::EnableVertexAttrib { index },
            GlCommand::VertexAttribPointer { index, size, stride, offset } => {
                CmdV::VertexAttribPointer { index, size, stride, offset }
            },
            GlCommand::VertexAttribDivisor { index, divisor } => CmdV::VertexAttribDivisor {
                index,
                divisor,
            },
            GlCommand::DrawElements { count } => CmdV::DrawElements { count },
            GlCommand::DrawArraysInstanced { instances } => CmdV::DrawArraysInstanced { instances },
            GlCommand::Enable { cap } => CmdV::Enable { cap },
            GlCommand::Disable { cap } => CmdV::Disable { cap },
            GlCommand::ClearColor { color } => CmdV::ClearColor { color },
            GlCommand::Clear { color, depth, stencil } => CmdV::Clear { color, depth, stencil },
            GlCommand::BindFramebuffer { fbo } => CmdV::BindFramebuffer { fbo },
            GlCommand::UnbindFramebuffer => CmdV::UnbindFramebuffer,
            GlCommand::FramebufferTexture2d { texture } => CmdV::FramebufferTexture2d { texture },
            GlCommand::BindRenderbuffer { rbo } => CmdV::BindRenderbuffer { rbo },
            GlCommand::UnbindRenderbuffer => CmdV::UnbindRenderbuffer,
            GlCommand::RenderbufferStorageDepthStencil { width, height } => {
                CmdV::RenderbufferStorageDepthStencil { width, height }
            },
            GlCommand::FramebufferRenderbuffer { rbo } => CmdV::FramebufferRenderbuffer { rbo },
            GlCommand::PixelStoreUnpackAlignment { value } => CmdV::PixelStoreUnpackAlignment {
                value,
            },
            GlCommand::TexImage2d {
                target,
                internal_format,
                width,
                height,
                format,
                ref pixels,
            } => CmdV::TexImage2d {
                target,
                internal_format,
                width,
                height,
                format,
                pixels: match *pixels {
                    Some(ref p) => Some(p@),
                    None => None,
                },
            },
            GlCommand::TexSubImage2d { x, y, width, height, format, ref pixels } => {
                CmdV::TexSubImage2d { x, y, width, height, format, pixels: pixels@ }
            },
            GlCommand::TexParameter { target, parameter, value } => CmdV::TexParameter {
                target,
                parameter,
                value,
            },
            GlCommand::GenerateMipmap { target } => CmdV::GenerateMipmap { target },
        }
    }
}

impl DeepView for GlCommand {
    type V = CmdV;

    open spec fn deep_view(&self) -> CmdV {
        self.view()
    }
}

} // verus!
