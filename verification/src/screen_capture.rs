use vstd::prelude::*;
use vstd::string::StringExecFns;
use crate::command::{Capability, CmdV, GlCommand, TexTarget};
use crate::math::{Vec4Bits, ONE_BITS};
use crate::mesh::{mesh_draw_cmds, Mesh};
use crate::shader::{push_cmd, ActiveShader, Shader, UniformValue};
use crate::texture::{
    params_cmds, T2d, Texture, TextureBuilder, LINEAR, LINEAR_MIPMAP_LINEAR, REPEAT, RGB,
    TEXTURE_MAG_FILTER, TEXTURE_MIN_FILTER, TEXTURE_WRAP_S, TEXTURE_WRAP_T,
};

verus! {

/// `GL_FRAMEBUFFER_COMPLETE`
pub const FRAMEBUFFER_COMPLETE: u32 = 0x8CD5;

/// How many post-process effects the screen shader offers; the effect
/// uniform cycles through them.
pub const NUM_EFFECTS: i32 = 6;

/// The next effect selector: forward or backward through the fixed number
/// of effects, wrapping at both ends.
pub fn cycle_effect(current: i32, backwards: bool) -> (r: i32)
    requires
        0 <= current < NUM_EFFECTS,
    ensures
        backwards ==> r == (current + NUM_EFFECTS - 1) % (NUM_EFFECTS as int),
        !backwards ==> r == (current + 1) % (NUM_EFFECTS as int),
        0 <= r < NUM_EFFECTS,
{
    if backwards {
        (current + NUM_EFFECTS - 1) % NUM_EFFECTS
    } else {
        (current + 1) % NUM_EFFECTS
    }
}

/// Accepts a framebuffer only when the driver reports it complete; an
/// incomplete framebuffer is fatal.
pub fn check_framebuffer_status(status: u32) -> (r: Result<(), String>)
    ensures
        r is Ok <==> status == FRAMEBUFFER_COMPLETE,
{
    if status == FRAMEBUFFER_COMPLETE {
        Ok(())
    } else {
        Err("Framebuffer is not complete".to_owned())
    }
}

/// The texture parameters of the offscreen render texture: default wraps
/// with plain linear filtering.
pub open spec fn capture_texture_params() -> Seq<(u32, u32)> {
    seq![
        (TEXTURE_WRAP_S, REPEAT),
        (TEXTURE_WRAP_T, REPEAT),
        (TEXTURE_MIN_FILTER, LINEAR),
        (TEXTURE_MAG_FILTER, LINEAR),
    ]
}

/// The setup commands of the offscreen framebuffer: an RGB render texture
/// as the color output and a combined depth+stencil renderbuffer.
pub open spec fn framebuffer_setup_cmds(
    fbo: u32,
    texture: u32,
    rbo: u32,
    width: u32,
    height: u32,
) -> Seq<CmdV> {
    seq![CmdV::BindFramebuffer { fbo }] + seq![
        CmdV::PixelStoreUnpackAlignment { value: 4 },
        CmdV::BindTexture { target: TexTarget::D2, texture },
        CmdV::TexImage2d {
            target: crate::command::TexImageTarget::Tex2d,
            internal_format: RGB,
            width,
            height,
            format: RGB,
            pixels: None,
        },
    ] + params_cmds(TexTarget::D2, capture_texture_params()) + seq![
        CmdV::UnbindTexture { target: TexTarget::D2 },
        CmdV::FramebufferTexture2d { texture },
        CmdV::BindRenderbuffer { rbo },
        CmdV::RenderbufferStorageDepthStencil { width, height },
        CmdV::UnbindRenderbuffer,
        CmdV::FramebufferRenderbuffer { rbo },
        CmdV::UnbindFramebuffer,
    ]
}

/// An offscreen render target: a framebuffer whose color output is a render
/// texture and whose depth and stencil live in a renderbuffer.
pub struct Framebuffer {
    pub fbo: u32,
    pub render_texture: Texture<T2d>,
}

impl Framebuffer {
    /// Builds the offscreen target from the handles the embedder created.
    /// The embedder must query the framebuffer's completeness after the
    /// commands run and reject the target through
    /// [`check_framebuffer_status`].
    pub fn new(width: u32, height: u32, fbo: u32, texture: u32, rbo: u32, out: &mut Vec<
        GlCommand,
    >) -> (r: Framebuffer)
        ensures
            r.fbo == fbo,
            r.render_texture.spec_texture() == texture,
            r.render_texture.spec_format() == RGB,
            final(out).deep_view() == old(out).deep_view() + framebuffer_setup_cmds(
                fbo,
                texture,
                rbo,
                width,
                height,
            ),
    {
        let ghost prev = out.deep_view();
        push_cmd(out, GlCommand::BindFramebuffer { fbo });
        let builder = TextureBuilder::new().with_format(RGB).with_tex_parameter(
            TEXTURE_MIN_FILTER,
            LINEAR,
        ).with_tex_parameter(TEXTURE_MAG_FILTER, LINEAR);
        proof {
            lemma_capture_params(builder.spec_params());
        }
        let render_texture = builder.render_texture(width, height, texture, out);
        push_cmd(out, GlCommand::FramebufferTexture2d { texture });
        push_cmd(out, GlCommand::BindRenderbuffer { rbo });
        push_cmd(out, GlCommand::RenderbufferStorageDepthStencil { width, height });
        push_cmd(out, GlCommand::UnbindRenderbuffer);
        push_cmd(out, GlCommand::FramebufferRenderbuffer { rbo });
        push_cmd(out, GlCommand::UnbindFramebuffer);
        proof {
            assert(out.deep_view() =~= prev + framebuffer_setup_cmds(
                fbo,
                texture,
                rbo,
                width,
                height,
            ));
        }
        Framebuffer { fbo, render_texture }
    }
}

/// The builder's parameters after replacing both filters with plain linear
/// are exactly the capture parameters.
proof fn lemma_capture_params(params: Seq<(u32, u32)>)
    requires
        params == crate::texture::upsert_param(
            crate::texture::upsert_param(
                seq![
                    (TEXTURE_WRAP_S, REPEAT),
                    (TEXTURE_WRAP_T, REPEAT),
                    (TEXTURE_MIN_FILTER, LINEAR_MIPMAP_LINEAR),
                    (TEXTURE_MAG_FILTER, LINEAR),
                ],
                TEXTURE_MIN_FILTER,
                LINEAR,
            ),
            TEXTURE_MAG_FILTER,
            LINEAR,
        ),
    ensures
        params == capture_texture_params(),
{
    let defaults = seq![
        (TEXTURE_WRAP_S, REPEAT),
        (TEXTURE_WRAP_T, REPEAT),
        (TEXTURE_MIN_FILTER, LINEAR_MIPMAP_LINEAR),
        (TEXTURE_MAG_FILTER, LINEAR),
    ];
    let d1 = defaults.drop_first();
    let d2 = d1.drop_first();
    assert(d1 =~= seq![
        (TEXTURE_WRAP_T, REPEAT),
        (TEXTURE_MIN_FILTER, LINEAR_MIPMAP_LINEAR),
        (TEXTURE_MAG_FILTER, LINEAR),
    ]);
    assert(d2 =~= seq![(TEXTURE_MIN_FILTER, LINEAR_MIPMAP_LINEAR), (TEXTURE_MAG_FILTER, LINEAR)]);
    assert(d2.drop_first() =~= seq![(TEXTURE_MAG_FILTER, LINEAR)]);
    let u2 = crate::texture::upsert_param(d2, TEXTURE_MIN_FILTER, LINEAR);
    assert(u2 =~= seq![(TEXTURE_MIN_FILTER, LINEAR), (TEXTURE_MAG_FILTER, LINEAR)]);
    let u1 = crate::texture::upsert_param(d1, TEXTURE_MIN_FILTER, LINEAR);
    assert(u1 =~= seq![(TEXTURE_WRAP_T, REPEAT)] + u2);
    let step1 = crate::texture::upsert_param(defaults, TEXTURE_MIN_FILTER, LINEAR);
    assert(step1 =~= seq![(TEXTURE_WRAP_S, REPEAT)] + u1);
    assert(step1 =~= seq![
        (TEXTURE_WRAP_S, REPEAT),
        (TEXTURE_WRAP_T, REPEAT),
        (TEXTURE_MIN_FILTER, LINEAR),
        (TEXTURE_MAG_FILTER, LINEAR),
    ]);
    let s1 = step1.drop_first();
    let s2 = s1.drop_first();
    let s3 = s2.drop_first();
    assert(s1 =~= seq![
        (TEXTURE_WRAP_T, REPEAT),
        (TEXTURE_MIN_FILTER, LINEAR),
        (TEXTURE_MAG_FILTER, LINEAR),
    ]);
    assert(s2 =~= seq![(TEXTURE_MIN_FILTER, LINEAR), (TEXTURE_MAG_FILTER, LINEAR)]);
    assert(s3 =~= seq![(TEXTURE_MAG_FILTER, LINEAR)]);
    assert(s3.drop_first() =~= Seq::<(u32, u32)>::empty());
    let v3 = crate::texture::upsert_param(s3, TEXTURE_MAG_FILTER, LINEAR);
    assert(v3 =~= seq![(TEXTURE_MAG_FILTER, LINEAR)]);
    let v2 = crate::texture::upsert_param(s2, TEXTURE_MAG_FILTER, LINEAR);
    assert(v2 =~= seq![(TEXTURE_MIN_FILTER, LINEAR)] + v3);
    let v1 = crate::texture::upsert_param(s1, TEXTURE_MAG_FILTER, LINEAR);
    assert(v1 =~= seq![(TEXTURE_WRAP_T, REPEAT)] + v2);
    assert(crate::texture::upsert_param(step1, TEXTURE_MAG_FILTER, LINEAR) =~= seq![
        (TEXTURE_WRAP_S, REPEAT),
    ] + v1);
    assert(crate::texture::upsert_param(step1, TEXTURE_MAG_FILTER, LINEAR)
        =~= capture_texture_params());
}

/// The offscreen post-process stage: earlier passes render into the
/// framebuffer, and the replay draws its texture onto a full-screen quad
/// with a selectable effect.
pub struct ScreenCapture {
    pub framebuffer: Framebuffer,
    pub screen_shader: Shader,
    pub screen_geom: Mesh,
}

/// The replay segment: the default framebuffer is restored and cleared, the
/// render texture is drawn over the whole screen with the depth test off
/// and the chosen effect selector bound.
pub open spec fn replay_cmds(s: &ScreenCapture, effect: i32) -> Seq<CmdV> {
    seq![
        CmdV::UnbindFramebuffer,
        CmdV::ClearColor {
            color: Vec4Bits { x: ONE_BITS, y: ONE_BITS, z: ONE_BITS, w: ONE_BITS },
        },
        CmdV::Clear { color: true, depth: false, stencil: false },
        CmdV::UseProgram { program: s.screen_shader.spec_id() },
        CmdV::Disable { cap: Capability::DepthTest },
        CmdV::UniformInt { name: "screenTexture"@, value: 0 },
        CmdV::ActiveTexture { slot: 0 },
        CmdV::BindTexture {
            target: TexTarget::D2,
            texture: s.framebuffer.render_texture.spec_texture(),
        },
        CmdV::UniformInt { name: "effect"@, value: effect },
    ] + mesh_draw_cmds(&s.screen_geom, 1) + seq![CmdV::Enable { cap: Capability::DepthTest }]
}

impl ScreenCapture {
    /// Redirects subsequent draws into the offscreen framebuffer.
    pub fn record(&self, out: &mut Vec<GlCommand>)
        ensures
            final(out).deep_view() == old(out).deep_view().push(
                CmdV::BindFramebuffer { fbo: self.framebuffer.fbo },
            ),
    {
        push_cmd(out, GlCommand::BindFramebuffer { fbo: self.framebuffer.fbo });
    }

    /// Restores the default framebuffer and draws the captured frame onto
    /// the screen through the effect shader.
    #[verifier::rlimit(50)]
    pub fn replay(&self, effect: i32, out: &mut Vec<GlCommand>)
        requires
            self.screen_geom.indices@.len() <= u32::MAX,
        ensures
            final(out).deep_view() == old(out).deep_view() + replay_cmds(self, effect),
    {
        let ghost prev = out.deep_view();
        push_cmd(out, GlCommand::UnbindFramebuffer);
        push_cmd(
            out,
            GlCommand::ClearColor {
                color: Vec4Bits { x: ONE_BITS, y: ONE_BITS, z: ONE_BITS, w: ONE_BITS },
            },
        );
        push_cmd(out, GlCommand::Clear { color: true, depth: false, stencil: false });
        let mut binder = self.screen_shader.activate(out);
        push_cmd(out, GlCommand::Disable { cap: Capability::DepthTest });
        let tex_value = self.framebuffer.render_texture.uniform_value();
        binder.bind_uniform("screenTexture", &tex_value, out);
        let effect_value = UniformValue::Int(effect);
        binder.bind_uniform("effect", &effect_value, out);
        self.screen_geom.draw(&mut binder, out);
        push_cmd(out, GlCommand::Enable { cap: Capability::DepthTest });
        proof {
            assert(out.deep_view() =~= prev + replay_cmds(self, effect));
        }
    }
}

} // verus!
