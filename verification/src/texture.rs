use core::marker::PhantomData;
use vstd::prelude::*;
use crate::command::{CmdV, GlCommand, TexImageTarget, TexTarget};
use crate::img::{flip_rows, flipped_rows, strip_alpha, stripped_alpha, ImageData};
use crate::shader::{push_cmd, UniformValue};

verus! {

/// `GL_TEXTURE_WRAP_S`
pub const TEXTURE_WRAP_S: u32 = 0x2802;

/// `GL_TEXTURE_WRAP_T`
pub const TEXTURE_WRAP_T: u32 = 0x2803;

/// `GL_TEXTURE_WRAP_R`
pub const TEXTURE_WRAP_R: u32 = 0x8072;

/// `GL_TEXTURE_MIN_FILTER`
pub const TEXTURE_MIN_FILTER: u32 = 0x2801;

/// `GL_TEXTURE_MAG_FILTER`
pub const TEXTURE_MAG_FILTER: u32 = 0x2800;

/// `GL_REPEAT`
pub const REPEAT: u32 = 0x2901;

/// `GL_CLAMP_TO_EDGE`
pub const CLAMP_TO_EDGE: u32 = 0x812F;

/// `GL_LINEAR`
pub const LINEAR: u32 = 0x2601;

/// `GL_LINEAR_MIPMAP_LINEAR`
pub const LINEAR_MIPMAP_LINEAR: u32 = 0x2703;

/// `GL_RGBA`
pub const RGBA: u32 = 0x1908;

/// `GL_RGB`
pub const RGB: u32 = 0x1907;

/// `GL_RED`
pub const RED: u32 = 0x1903;

/// `GL_R8`
pub const R8: u32 = 0x8229;

/// Marker for the 2-D texture target.
#[derive(Clone)]
pub struct T2d;

/// Marker for the cubemap texture target.
#[derive(Clone)]
pub struct TCubemap;

/// Associates each marker type with its texture target.
pub trait TextureTarget {
    /// The target this marker stands for.
    spec fn spec_target() -> TexTarget;

    /// The target this marker stands for.
    fn target() -> (r: TexTarget)
        ensures
            r == Self::spec_target(),
    ;
}

impl TextureTarget for T2d {
    open spec fn spec_target() -> TexTarget {
        TexTarget::D2
    }

    fn target() -> (r: TexTarget)
        ensures
            r == TexTarget::D2,
    {
        TexTarget::D2
    }
}

impl TextureTarget for TCubemap {
    open spec fn spec_target() -> TexTarget {
        TexTarget::Cube
    }

    fn target() -> (r: TexTarget)
        ensures
            r == TexTarget::Cube,
    {
        TexTarget::Cube
    }
}

/// A GPU texture handle with its pixel format and target kind. Built once;
/// its storage is immutable thereafter except for explicit sub-region
/// updates. Cloning shares the underlying GPU object.
pub struct Texture<Target> {
    /// The GPU texture object handle.
    pub texture: u32,
    /// The pixel format the texture was built with.
    pub format: u32,
    /// The target kind marker.
    pub marker: PhantomData<Target>,
}

impl<Target> Texture<Target> {
    /// The pixel format the texture was built with.
    pub open spec fn spec_format(&self) -> u32 {
        self.format
    }

    /// The GPU texture object handle.
    pub open spec fn spec_texture(&self) -> u32 {
        self.texture
    }

    /// The pixel format the texture was built with.
    pub fn format(&self) -> (r: u32)
        ensures
            r == self.spec_format(),
    {
        self.format
    }
}

impl<Target> Clone for Texture<Target> {
    /// A clone shares the underlying GPU texture object.
    fn clone(&self) -> (r: Self)
        ensures
            r.spec_texture() == self.spec_texture(),
            r.spec_format() == self.spec_format(),
    {
        Texture { texture: self.texture, format: self.format, marker: PhantomData }
    }
}

impl<Target: TextureTarget> Texture<Target> {

    /// The texture as a bindable uniform value: binding it allocates a
    /// texture slot and attaches this texture object to that unit.
    pub fn uniform_value(&self) -> (r: UniformValue)
        ensures
            r == UniformValue::Texture(Target::spec_target(), self.spec_texture()),
    {
        UniformValue::Texture(Target::target(), self.texture)
    }

    /// Overwrites a rectangular region of the texture without reallocating
    /// its storage: used for an incrementally populated glyph atlas.
    pub fn sub_image(
        &self,
        x_offset: u32,
        y_offset: u32,
        width: u32,
        height: u32,
        pixels: Vec<u8>,
        out: &mut Vec<GlCommand>,
    )
        ensures
            final(out).deep_view() == old(out).deep_view() + seq![
                CmdV::BindTexture { target: Target::spec_target(), texture: self.spec_texture() },
                CmdV::TexSubImage2d {
                    x: x_offset,
                    y: y_offset,
                    width,
                    height,
                    format: self.spec_format(),
                    pixels: pixels@,
                },
            ],
    {
        let ghost prev = out.deep_view();
        let ghost pixels_view = pixels@;
        push_cmd(out, GlCommand::BindTexture { target: Target::target(), texture: self.texture });
        push_cmd(
            out,
            GlCommand::TexSubImage2d {
                x: x_offset,
                y: y_offset,
                width,
                height,
                format: self.format,
                pixels,
            },
        );
        proof {
            assert(out.deep_view() =~= prev + seq![
                CmdV::BindTexture { target: Target::spec_target(), texture: self.spec_texture() },
                CmdV::TexSubImage2d {
                    x: x_offset,
                    y: y_offset,
                    width,
                    height,
                    format: self.spec_format(),
                    pixels: pixels_view,
                },
            ]);
        }
    }
}

/// Replaces the value of `key` where the list already holds it, keeping its
/// position, or appends the pair at the end.
pub open spec fn upsert_param(params: Seq<(u32, u32)>, key: u32, value: u32) -> Seq<(u32, u32)>
    decreases params,
{
    if params.len() == 0 {
        seq![(key, value)]
    } else if params[0].0 == key {
        seq![(key, value)] + params.drop_first()
    } else {
        seq![params[0]] + upsert_param(params.drop_first(), key, value)
    }
}

/// Each parameter key occurs at most once.
pub open spec fn params_unique(params: Seq<(u32, u32)>) -> bool {
    forall|i: int, j: int|
        0 <= i < j < params.len() ==> (#[trigger] params[i]).0 != (#[trigger] params[j]).0
}

/// The `TexParameter` commands that apply a parameter list, in list order.
pub open spec fn params_cmds(target: TexTarget, params: Seq<(u32, u32)>) -> Seq<CmdV>
    decreases params,
{
    if params.len() == 0 {
        Seq::empty()
    } else {
        seq![
            CmdV::TexParameter { target, parameter: params[0].0, value: params[0].1 },
        ] + params_cmds(target, params.drop_first())
    }
}

/// Accumulates texture configuration before the GPU object is built: wrap
/// and filter parameters, vertical flip on upload, source pixel format and
/// row alignment, and the target kind as a type parameter. Defaults: repeat
/// wrap, mip-mapped linear filtering, RGBA, 4-byte alignment, flip on.
pub struct TextureBuilder<Target> {
    tex_parameters: Vec<(u32, u32)>,
    flip: bool,
    format: u32,
    alignment: u32,
    marker: PhantomData<Target>,
}

impl TextureBuilder<T2d> {
    /// A builder with the default 2-D texture configuration.
    pub fn new() -> (r: TextureBuilder<T2d>)
        ensures
            r.wf(),
            r.spec_params() == seq![
                (TEXTURE_WRAP_S, REPEAT),
                (TEXTURE_WRAP_T, REPEAT),
                (TEXTURE_MIN_FILTER, LINEAR_MIPMAP_LINEAR),
                (TEXTURE_MAG_FILTER, LINEAR),
            ],
            r.spec_flip() == true,
            r.spec_format() == RGBA,
            r.spec_alignment() == 4,
    {
        let mut params: Vec<(u32, u32)> = Vec::new();
        params.push((TEXTURE_WRAP_S, REPEAT));
        params.push((TEXTURE_WRAP_T, REPEAT));
        params.push((TEXTURE_MIN_FILTER, LINEAR_MIPMAP_LINEAR));
        params.push((TEXTURE_MAG_FILTER, LINEAR));
        proof {
            assert(params@ =~= seq![
                (TEXTURE_WRAP_S, REPEAT),
                (TEXTURE_WRAP_T, REPEAT),
                (TEXTURE_MIN_FILTER, LINEAR_MIPMAP_LINEAR),
                (TEXTURE_MAG_FILTER, LINEAR),
            ]);
        }
        TextureBuilder {
            tex_parameters: params,
            flip: true,
            format: RGBA,
            alignment: 4,
            marker: PhantomData,
        }
    }
}

impl<Target: TextureTarget> TextureBuilder<Target> {
    /// The accumulated texture parameters, in application order.
    pub closed spec fn spec_params(&self) -> Seq<(u32, u32)> {
        self.tex_parameters@
    }

    /// Whether uploads flip the image vertically first.
    pub closed spec fn spec_flip(&self) -> bool {
        self.flip
    }

    /// The source pixel format of uploads.
    pub closed spec fn spec_format(&self) -> u32 {
        self.format
    }

    /// The row alignment of uploads.
    pub closed spec fn spec_alignment(&self) -> u32 {
        self.alignment
    }

    /// Parameter keys are never duplicated.
    pub open spec fn wf(&self) -> bool {
        params_unique(self.spec_params())
    }

    /// The formats an image upload accepts.
    pub open spec fn image_format_ok(&self) -> bool {
        self.spec_format() == RGB || self.spec_format() == RGBA
    }

    /// The formats a render-target allocation accepts.
    pub open spec fn render_format_ok(&self) -> bool {
        self.spec_format() == RGB || self.spec_format() == RGBA || self.spec_format() == RED
    }

    /// Sets one texture parameter, replacing an earlier value for the same
    /// key.
    pub fn with_tex_parameter(self, parameter: u32, value: u32) -> (r: Self)
        requires
            self.wf(),
        ensures
            r.wf(),
            r.spec_params() == upsert_param(self.spec_params(), parameter, value),
            r.spec_flip() == self.spec_flip(),
            r.spec_format() == self.spec_format(),
            r.spec_alignment() == self.spec_alignment(),
    {
        let TextureBuilder { mut tex_parameters, flip, format, alignment, marker } = self;
        upsert_exec(&mut tex_parameters, parameter, value);
        TextureBuilder { tex_parameters, flip, format, alignment, marker }
    }

    /// Sets whether uploads flip the image vertically.
    pub fn with_flip(self, flip: bool) -> (r: Self)
        ensures
            r.spec_params() == self.spec_params(),
            r.spec_flip() == flip,
            r.spec_format() == self.spec_format(),
            r.spec_alignment() == self.spec_alignment(),
            r.wf() == self.wf(),
    {
        let TextureBuilder { tex_parameters, flip: _, format, alignment, marker } = self;
        TextureBuilder { tex_parameters, flip, format, alignment, marker }
    }

    /// Sets the source pixel format.
    pub fn with_format(self, format: u32) -> (r: Self)
        ensures
            r.spec_params() == self.spec_params(),
            r.spec_flip() == self.spec_flip(),
            r.spec_format() == format,
            r.spec_alignment() == self.spec_alignment(),
            r.wf() == self.wf(),
    {
        let TextureBuilder { tex_parameters, flip, format: _, alignment, marker } = self;
        TextureBuilder { tex_parameters, flip, format, alignment, marker }
    }

    /// Sets the row alignment of uploads.
    pub fn with_alignment(self, alignment: u32) -> (r: Self)
        ensures
            r.spec_params() == self.spec_params(),
            r.spec_flip() == self.spec_flip(),
            r.spec_format() == self.spec_format(),
            r.spec_alignment() == alignment,
            r.wf() == self.wf(),
    {
        let TextureBuilder { tex_parameters, flip, format, alignment: _, marker } = self;
        TextureBuilder { tex_parameters, flip, format, alignment, marker }
    }

    /// Re-targets the builder, keeping the accumulated configuration.
    pub fn with_target<S: TextureTarget>(self) -> (r: TextureBuilder<S>)
        ensures
            r.spec_params() == self.spec_params(),
            r.spec_flip() == self.spec_flip(),
            r.spec_format() == self.spec_format(),
            r.spec_alignment() == self.spec_alignment(),
            r.wf() == self.wf(),
    {
        let TextureBuilder { tex_parameters, flip, format, alignment, marker: _ } = self;
        TextureBuilder { tex_parameters, flip, format, alignment, marker: PhantomData }
    }

    /// Switches to the cubemap target with the conventional cubemap
    /// configuration: clamped edges on all three axes, plain linear
    /// filtering, and no vertical flip.
    pub fn as_cubemap(self) -> (r: TextureBuilder<TCubemap>)
        requires
            self.wf(),
        ensures
            r.wf(),
            r.spec_params() == upsert_param(
                upsert_param(
                    upsert_param(
                        upsert_param(
                            upsert_param(self.spec_params(), TEXTURE_MIN_FILTER, LINEAR),
                            TEXTURE_MAG_FILTER,
                            LINEAR,
                        ),
                        TEXTURE_WRAP_S,
                        CLAMP_TO_EDGE,
                    ),
                    TEXTURE_WRAP_T,
                    CLAMP_TO_EDGE,
                ),
                TEXTURE_WRAP_R,
                CLAMP_TO_EDGE,
            ),
            r.spec_flip() == false,
            r.spec_format() == self.spec_format(),
            r.spec_alignment() == self.spec_alignment(),
    {
        self.with_tex_parameter(TEXTURE_MIN_FILTER, LINEAR)
            .with_tex_parameter(TEXTURE_MAG_FILTER, LINEAR)
            .with_tex_parameter(TEXTURE_WRAP_S, CLAMP_TO_EDGE)
            .with_tex_parameter(TEXTURE_WRAP_T, CLAMP_TO_EDGE)
            .with_tex_parameter(TEXTURE_WRAP_R, CLAMP_TO_EDGE)
            .with_flip(false)
            .with_target()
    }

    /// The GPU-internal storage format for a source format.
    pub open spec fn spec_internal_format(format: u32) -> u32 {
        if format == RED {
            R8
        } else {
            format
        }
    }

    /// The GPU-internal storage format of this builder's uploads.
    fn internal_format(&self) -> (r: u32)
        requires
            self.render_format_ok(),
        ensures
            r == Self::spec_internal_format(self.spec_format()),
    {
        if self.format == RED {
            R8
        } else {
            self.format
        }
    }

    /// Emits the `TexParameter` command of every accumulated parameter, in
    /// order.
    fn apply_texture_parameters(&self, i: usize, out: &mut Vec<GlCommand>)
        requires
            i <= self.spec_params().len(),
        ensures
            final(out).deep_view() == old(out).deep_view() + params_cmds(
                Target::spec_target(),
                self.spec_params().skip(i as int),
            ),
        decreases self.spec_params().len() - i,
    {
        if i < self.tex_parameters.len() {
            let ghost prev = out.deep_view();
            proof {
                assert(self.spec_params().skip(i as int)[0] == self.spec_params()[i as int]);
                assert(self.spec_params().skip(i as int).drop_first() =~= self.spec_params().skip(
                    i as int + 1,
                ));
            }
            let pair = self.tex_parameters[i];
            push_cmd(
                out,
                GlCommand::TexParameter {
                    target: Target::target(),
                    parameter: pair.0,
                    value: pair.1,
                },
            );
            self.apply_texture_parameters(i + 1, out);
            proof {
                assert(out.deep_view() =~= prev + params_cmds(
                    Target::spec_target(),
                    self.spec_params().skip(i as int),
                ));
            }
        } else {
            proof {
                assert(self.spec_params().skip(i as int) =~= Seq::<(u32, u32)>::empty());
            }
        }
    }
}

/// Copies a byte buffer.
fn copy_bytes(src: &Vec<u8>) -> (r: Vec<u8>)
    ensures
        r@ == src@,
{
    let mut out: Vec<u8> = Vec::new();
    let mut i: usize = 0;
    while i < src.len()
        invariant
            i <= src@.len(),
            out@ =~= src@.take(i as int),
        decreases src@.len() - i,
    {
        out.push(src[i]);
        proof {
            assert(out@ =~= src@.take(i as int + 1));
        }
        i = i + 1;
    }
    proof {
        assert(src@.take(src@.len() as int) =~= src@);
    }
    out
}

impl<Target: TextureTarget> TextureBuilder<Target> {
    /// Converts a decoded RGBA8 image into the bytes this builder uploads:
    /// flipped vertically when configured, reduced to RGB when the format
    /// drops alpha.
    fn convert_image(&self, image: &ImageData) -> (r: Vec<u8>)
        requires
            image.wf(),
            self.image_format_ok(),
            image.width as nat * 4 <= u32::MAX,
        ensures
            r@ == converted_pixels(*image, self.spec_flip(), self.spec_format()),
    {
        proof {
            assert(image.height as nat * (image.width as nat * 4) == image.width as nat
                * image.height as nat * 4) by (nonlinear_arith);
        }
        let flipped = if self.flip {
            flip_rows(&image.pixels, image.height, image.width * 4)
        } else {
            copy_bytes(&image.pixels)
        };
        proof {
            if self.spec_flip() {
                crate::img::lemma_flipped_rows_len(
                    image.pixels@,
                    image.height as nat,
                    image.width as nat * 4,
                );
            }
            assert(flipped@.len() == image.pixels@.len());
        }
        if self.format == RGB {
            let n_pixels = image.pixels.len() / 4;
            proof {
                assert(n_pixels == image.width as nat * image.height as nat && n_pixels as nat * 4
                    <= image.pixels@.len()) by (nonlinear_arith)
                    requires
                        image.pixels@.len() == image.width as nat * image.height as nat * 4,
                        n_pixels == image.pixels@.len() as int / 4,
                ;
            }
            strip_alpha(&flipped, n_pixels)
        } else {
            flipped
        }
    }
}

impl TextureBuilder<T2d> {
    /// Uploads one decoded 2-D image, generates its mipmaps and applies the
    /// accumulated parameters, yielding the built texture. The embedder
    /// supplies the created texture object handle.
    pub fn build(self, image: &ImageData, texture: u32, out: &mut Vec<GlCommand>) -> (r: Texture<
        T2d,
    >)
        requires
            image.wf(),
            self.image_format_ok(),
            image.width as nat * 4 <= u32::MAX,
        ensures
            r.spec_texture() == texture,
            r.spec_format() == self.spec_format(),
            final(out).deep_view() == old(out).deep_view() + seq![
                CmdV::PixelStoreUnpackAlignment { value: self.spec_alignment() },
                CmdV::BindTexture { target: TexTarget::D2, texture },
                CmdV::TexImage2d {
                    target: TexImageTarget::Tex2d,
                    internal_format: Self::spec_internal_format(self.spec_format()),
                    width: image.width,
                    height: image.height,
                    format: self.spec_format(),
                    pixels: Some(
                        converted_pixels(*image, self.spec_flip(), self.spec_format()),
                    ),
                },
                CmdV::GenerateMipmap { target: TexTarget::D2 },
            ] + params_cmds(TexTarget::D2, self.spec_params()) + seq![
                CmdV::UnbindTexture { target: TexTarget::D2 },
            ],
    {
        let ghost prev = out.deep_view();
        let internal_format = self.internal_format();
        let converted = self.convert_image(image);
        push_cmd(out, GlCommand::PixelStoreUnpackAlignment { value: self.alignment });
        push_cmd(out, GlCommand::BindTexture { target: TexTarget::D2, texture });
        push_cmd(
            out,
            GlCommand::TexImage2d {
                target: TexImageTarget::Tex2d,
                internal_format,
                width: image.width,
                height: image.height,
                format: self.format,
                pixels: Some(converted),
            },
        );
        push_cmd(out, GlCommand::GenerateMipmap { target: TexTarget::D2 });
        let ghost mid = out.deep_view();
        proof {
            assert(self.spec_params().skip(0) =~= self.spec_params());
        }
        self.apply_texture_parameters(0, out);
        push_cmd(out, GlCommand::UnbindTexture { target: TexTarget::D2 });
        proof {
            assert(out.deep_view() =~= prev + seq![
                CmdV::PixelStoreUnpackAlignment { value: self.spec_alignment() },
                CmdV::BindTexture { target: TexTarget::D2, texture },
                CmdV::TexImage2d {
                    target: TexImageTarget::Tex2d,
                    internal_format: Self::spec_internal_format(self.spec_format()),
                    width: image.width,
                    height: image.height,
                    format: self.spec_format(),
                    pixels: Some(
                        converted_pixels(*image, self.spec_flip(), self.spec_format()),
                    ),
                },
                CmdV::GenerateMipmap { target: TexTarget::D2 },
            ] + params_cmds(TexTarget::D2, self.spec_params()) + seq![
                CmdV::UnbindTexture { target: TexTarget::D2 },
            ]);
        }
        Texture { texture, format: self.format, marker: PhantomData }
    }

    /// Allocates texture storage with no initial pixel data, for use as an
    /// offscreen framebuffer attachment or an incrementally filled atlas.
    pub fn render_texture(self, width: u32, height: u32, texture: u32, out: &mut Vec<GlCommand>)
        -> (r: Texture<T2d>)
        requires
            self.render_format_ok(),
        ensures
            r.spec_texture() == texture,
            r.spec_format() == self.spec_format(),
            final(out).deep_view() == old(out).deep_view() + seq![
                CmdV::PixelStoreUnpackAlignment { value: self.spec_alignment() },
                CmdV::BindTexture { target: TexTarget::D2, texture },
                CmdV::TexImage2d {
                    target: TexImageTarget::Tex2d,
                    internal_format: Self::spec_internal_format(self.spec_format()),
                    width,
                    height,
                    format: self.spec_format(),
                    pixels: None,
                },
            ] + params_cmds(TexTarget::D2, self.spec_params()) + seq![
                CmdV::UnbindTexture { target: TexTarget::D2 },
            ],
    {
        let ghost prev = out.deep_view();
        let internal_format = self.internal_format();
        push_cmd(out, GlCommand::PixelStoreUnpackAlignment { value: self.alignment });
        push_cmd(out, GlCommand::BindTexture { target: TexTarget::D2, texture });
        push_cmd(
            out,
            GlCommand::TexImage2d {
                target: TexImageTarget::Tex2d,
                internal_format,
                width,
                height,
                format: self.format,
                pixels: None,
            },
        );
        proof {
            assert(self.spec_params().skip(0) =~= self.spec_params());
        }
        self.apply_texture_parameters(0, out);
        push_cmd(out, GlCommand::UnbindTexture { target: TexTarget::D2 });
        proof {
            assert(out.deep_view() =~= prev + seq![
                CmdV::PixelStoreUnpackAlignment { value: self.spec_alignment() },
                CmdV::BindTexture { target: TexTarget::D2, texture },
                CmdV::TexImage2d {
                    target: TexImageTarget::Tex2d,
                    internal_format: Self::spec_internal_format(self.spec_format()),
                    width,
                    height,
                    format: self.spec_format(),
                    pixels: None,
                },
            ] + params_cmds(TexTarget::D2, self.spec_params()) + seq![
                CmdV::UnbindTexture { target: TexTarget::D2 },
            ]);
        }
        Texture { texture, format: self.format, marker: PhantomData }
    }
}

/// The per-face upload commands of a cubemap build: face `face0 + i` gets
/// image `i`, in the fixed face order +X, -X, +Y, -Y, +Z, -Z.
pub open spec fn cube_face_cmds(
    images: Seq<ImageData>,
    flip: bool,
    format: u32,
    internal_format: u32,
    face0: nat,
) -> Seq<CmdV>
    decreases images,
{
    if images.len() == 0 {
        Seq::empty()
    } else {
        seq![
            CmdV::TexImage2d {
                target: TexImageTarget::CubeFace(face0 as u32),
                internal_format,
                width: images[0].width,
                height: images[0].height,
                format,
                pixels: Some(converted_pixels(images[0], flip, format)),
            },
        ] + cube_face_cmds(images.drop_first(), flip, format, internal_format, face0 + 1)
    }
}

impl TextureBuilder<TCubemap> {
    /// Uploads one image per cube face in the fixed order
    /// {+X, -X, +Y, -Y, +Z, -Z}, applies the accumulated parameters and
    /// yields the built texture; no mipmaps are generated.
    pub fn build(self, images: &Vec<ImageData>, texture: u32, out: &mut Vec<GlCommand>) -> (r:
        Texture<TCubemap>)
        requires
            images@.len() == 6,
            forall|i: int|
                0 <= i < images@.len() ==> (#[trigger] images@[i]).wf() && images@[i].width as nat
                    * 4 <= u32::MAX,
            self.image_format_ok(),
        ensures
            r.spec_texture() == texture,
            r.spec_format() == self.spec_format(),
            final(out).deep_view() == old(out).deep_view() + seq![
                CmdV::BindTexture { target: TexTarget::Cube, texture },
            ] + cube_face_cmds(
                images@,
                self.spec_flip(),
                self.spec_format(),
                Self::spec_internal_format(self.spec_format()),
                0,
            ) + params_cmds(TexTarget::Cube, self.spec_params()) + seq![
                CmdV::UnbindTexture { target: TexTarget::Cube },
            ],
    {
        let ghost prev = out.deep_view();
        let internal_format = self.internal_format();
        push_cmd(out, GlCommand::BindTexture { target: TexTarget::Cube, texture });
        self.upload_faces(images, 0, internal_format, out);
        let ghost mid = out.deep_view();
        proof {
            assert(self.spec_params().skip(0) =~= self.spec_params());
        }
        self.apply_texture_parameters(0, out);
        push_cmd(out, GlCommand::UnbindTexture { target: TexTarget::Cube });
        proof {
            assert(images@.skip(0) =~= images@);
            assert(out.deep_view() =~= prev + seq![
                CmdV::BindTexture { target: TexTarget::Cube, texture },
            ] + cube_face_cmds(
                images@,
                self.spec_flip(),
                self.spec_format(),
                Self::spec_internal_format(self.spec_format()),
                0,
            ) + params_cmds(TexTarget::Cube, self.spec_params()) + seq![
                CmdV::UnbindTexture { target: TexTarget::Cube },
            ]);
        }
        Texture { texture, format: self.format, marker: PhantomData }
    }

    /// Emits the per-face upload of every image from index `i` on.
    fn upload_faces(
        &self,
        images: &Vec<ImageData>,
        i: usize,
        internal_format: u32,
        out: &mut Vec<GlCommand>,
    )
        requires
            i <= images@.len(),
            forall|j: int|
                0 <= j < images@.len() ==> (#[trigger] images@[j]).wf() && images@[j].width as nat
                    * 4 <= u32::MAX,
            self.image_format_ok(),
            internal_format == Self::spec_internal_format(self.spec_format()),
        ensures
            final(out).deep_view() == old(out).deep_view() + cube_face_cmds(
                images@.skip(i as int),
                self.spec_flip(),
                self.spec_format(),
                internal_format,
                i as nat,
            ),
        decreases images@.len() - i,
    {
        if i < images.len() {
            let ghost prev = out.deep_view();
            proof {
                assert(images@.skip(i as int)[0] == images@[i as int]);
                assert(images@.skip(i as int).drop_first() =~= images@.skip(i as int + 1));
            }
            let image = &images[i];
            let converted = self.convert_image(image);
            push_cmd(
                out,
                GlCommand::TexImage2d {
                    target: TexImageTarget::CubeFace(i as u32),
                    internal_format,
                    width: image.width,
                    height: image.height,
                    format: self.format,
                    pixels: Some(converted),
                },
            );
            self.upload_faces(images, i + 1, internal_format, out);
            proof {
                assert(out.deep_view() =~= prev + cube_face_cmds(
                    images@.skip(i as int),
                    self.spec_flip(),
                    self.spec_format(),
                    internal_format,
                    i as nat,
                ));
            }
        } else {
            proof {
                assert(images@.skip(i as int) =~= Seq::<ImageData>::empty());
            }
        }
    }
}

/// The pixel bytes an upload sends: the image flipped vertically when the
/// builder says so, and reduced to RGB when the format drops alpha.
pub open spec fn converted_pixels(image: ImageData, flip: bool, format: u32) -> Seq<u8> {
    let p = if flip {
        flipped_rows(image.pixels@, image.height as nat, image.width as nat * 4)
    } else {
        image.pixels@
    };
    if format == RGB {
        stripped_alpha(p, image.width as nat * image.height as nat)
    } else {
        p
    }
}

/// Replaces the value of `key` in place, or appends the pair.
fn upsert_exec(params: &mut Vec<(u32, u32)>, key: u32, value: u32)
    requires
        params_unique(old(params)@),
    ensures
        final(params)@ == upsert_param(old(params)@, key, value),
        params_unique(final(params)@),
{
    let ghost orig = params@;
    let n = params.len();
    let mut i: usize = 0;
    while i < n
        invariant
            i <= n,
            n == params@.len(),
            orig == old(params)@,
            params@ == orig,
            params_unique(orig),
            forall|j: int| 0 <= j < i ==> (#[trigger] orig[j]).0 != key,
        decreases n - i,
    {
        if params[i].0 == key {
            let elem = &mut params[i];
            *elem = (key, value);
            proof {
                lemma_upsert_found(orig, key, value, i as int);
                assert(params@ =~= orig.update(i as int, (key, value)));
                assert(params_unique(params@)) by {
                    assert(forall|j: int|
                        0 <= j < params@.len() ==> (#[trigger] params@[j]).0 == orig[j].0);
                }
            }
            return ;
        }
        i = i + 1;
    }
    params.push((key, value));
    proof {
        lemma_upsert_missing(orig, key, value);
        assert(params@ =~= orig.push((key, value)));
        assert(params_unique(params@)) by {
            assert(forall|j: int| 0 <= j < orig.len() ==> params@[j] == orig[j]);
        }
    }
}

/// When `key` first occurs at index `i`, upserting updates that entry in
/// place.
proof fn lemma_upsert_found(params: Seq<(u32, u32)>, key: u32, value: u32, i: int)
    requires
        0 <= i < params.len(),
        params[i].0 == key,
        forall|j: int| 0 <= j < i ==> (#[trigger] params[j]).0 != key,
    ensures
        upsert_param(params, key, value) == params.update(i, (key, value)),
    decreases i,
{
    if i == 0 {
        assert(upsert_param(params, key, value) =~= params.update(0, (key, value)));
    } else {
        lemma_upsert_found(params.drop_first(), key, value, i - 1);
        assert(params.drop_first().update(i - 1, (key, value)) =~= params.update(
            i,
            (key, value),
        ).drop_first());
        assert(upsert_param(params, key, value) =~= params.update(i, (key, value)));
    }
}

/// When `key` does not occur, upserting appends the pair.
proof fn lemma_upsert_missing(params: Seq<(u32, u32)>, key: u32, value: u32)
    requires
        forall|j: int| 0 <= j < params.len() ==> (#[trigger] params[j]).0 != key,
    ensures
        upsert_param(params, key, value) == params.push((key, value)),
    decreases params,
{
    if params.len() == 0 {
        assert(upsert_param(params, key, value) =~= params.push((key, value)));
    } else {
        lemma_upsert_missing(params.drop_first(), key, value);
        assert(seq![params[0]] + params.drop_first().push((key, value)) =~= params.push(
            (key, value),
        ));
    }
}

} // verus!
