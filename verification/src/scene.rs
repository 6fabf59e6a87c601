use vstd::prelude::*;
use vstd::string::StringExecFns;
use crate::camera::{CameraBlock, CAMERA_BLOCK_SIZE};
use crate::command::{BufferTarget, Capability, CmdV, GlCommand, TexTarget};
use crate::light::{
    is_dir_light_value, is_point_light_value, is_spot_light_value, DirLight, PointLight, SpotLight,
};
use crate::material::Material;
use crate::mesh::{mesh_draw_cmds, model_draw_cmds, Mesh, Model};
use crate::shader::{
    bind_cmds, push_cmd, slots_of, slots_of_fields, slots_of_items, ActiveShader, Shader,
    ShaderBlockDef, ShaderTypeDef, UniformValue,
};
use crate::std140::{std140_encode, Std140Value};
use crate::std140::UniformBlock;
use crate::text::{AtlasPatch, BrushUpdate, Font, Text};
use crate::texture::{TCubemap, Texture};

verus! {

/// One drawable thing: a model and its world transform (column-major float
/// bit patterns). The scene holds a flat entity list, no hierarchy.
pub struct Entity {
    pub model: Model,
    pub transform: [u32; 16],
}

/// The command stream of one entity draw: its transform bound under
/// `"model"`, then each mesh of its model.
pub open spec fn entity_draw_cmds(e: &Entity, slot: nat) -> Seq<CmdV> {
    seq![CmdV::UniformMat4 { name: "model"@, m: e.transform@ }] + model_draw_cmds(
        e.model.meshes@,
        slot,
    )
}

/// The command stream of drawing entities in list order, each starting with
/// a rewound slot counter.
pub open spec fn entities_draw_cmds(es: Seq<Entity>) -> Seq<CmdV>
    decreases es,
{
    if es.len() == 0 {
        Seq::empty()
    } else {
        entity_draw_cmds(&es[0], 0) + entities_draw_cmds(es.drop_first())
    }
}

/// The command stream of drawing the entities selected by `order`, in that
/// order.
pub open spec fn ordered_entities_cmds(es: Seq<Entity>, order: Seq<usize>) -> Seq<CmdV>
    decreases order,
{
    if order.len() == 0 {
        Seq::empty()
    } else {
        entity_draw_cmds(&es[order[0] as int], 0) + ordered_entities_cmds(es, order.drop_first())
    }
}

impl Entity {
    /// Binds the entity's transform under `"model"` and draws its model.
    pub fn draw(&self, shader: &mut ActiveShader, out: &mut Vec<GlCommand>)
        requires
            self.model.wf(),
            old(shader).slots_taken() + 2 <= u32::MAX,
        ensures
            final(shader).spec_program() == old(shader).spec_program(),
            final(shader).slots_taken() == if self.model.meshes@.len() == 0 {
                old(shader).slots_taken() as int
            } else {
                0
            },
            final(out).deep_view() == old(out).deep_view() + entity_draw_cmds(
                self,
                old(shader).slots_taken() as nat,
            ),
    {
        let ghost prev = out.deep_view();
        let transform_value = UniformValue::Matrix4(self.transform);
        shader.bind_uniform("model", &transform_value, out);
        self.model.draw(shader, out);
        proof {
            assert(out.deep_view() =~= prev + entity_draw_cmds(
                self,
                old(shader).slots_taken() as nat,
            ));
        }
    }
}

/// A back-to-front draw order over distance keys: a duplicate-free
/// permutation of the entity indices along which the keys never increase,
/// so farther entities are drawn first and alpha blending composites
/// correctly.
pub open spec fn is_back_to_front(keys: Seq<u64>, order: Seq<usize>) -> bool {
    &&& order.len() == keys.len()
    &&& forall|a: int| 0 <= a < order.len() ==> (#[trigger] order[a]) < keys.len()
    &&& forall|a: int, b: int|
        0 <= a < b < order.len() ==> keys[(#[trigger] order[a]) as int] >= keys[
            (#[trigger] order[b]) as int]
    &&& forall|a: int, b: int| 0 <= a < b < order.len() ==> order[a] != order[b]
}

/// Sorts entity indices by descending distance key (an order-preserving
/// encoding of squared distance from the camera): the painter's-algorithm
/// order for the transparency pass.
pub fn draw_order_back_to_front(keys: &Vec<u64>) -> (r: Vec<usize>)
    ensures
        is_back_to_front(keys@, r@),
{
    let n = keys.len();
    let mut pairs: Vec<(u64, usize)> = Vec::new();
    let mut i: usize = 0;
    while i < n
        invariant
            i <= n,
            n == keys@.len(),
            pairs@.len() == i,
            forall|a: int|
                0 <= a < pairs@.len() ==> (#[trigger] pairs@[a]).1 < i && pairs@[a].0
                    == keys@[pairs@[a].1 as int],
            forall|a: int, b: int|
                0 <= a < b < pairs@.len() ==> (#[trigger] pairs@[a]).0 >= (#[trigger] pairs@[b]).0,
            forall|a: int, b: int|
                0 <= a < b < pairs@.len() ==> (#[trigger] pairs@[a]).1 != (#[trigger] pairs@[b]).1,
        decreases n - i,
    {
        let key = keys[i];
        let mut p: usize = 0;
        while p < pairs.len() && pairs[p].0 >= key
            invariant
                p <= pairs@.len(),
                forall|a: int| 0 <= a < p ==> (#[trigger] pairs@[a]).0 >= key,
            decreases pairs@.len() - p,
        {
            p = p + 1;
        }
        let ghost before = pairs@;
        pairs.insert(p, (key, i));
        proof {
            assert(pairs@.len() == before.len() + 1);
            assert(forall|a: int| 0 <= a < p ==> pairs@[a] == before[a]);
            assert(pairs@[p as int] == (key, i));
            assert(forall|a: int|
                p < a < pairs@.len() ==> pairs@[a] == before[a - 1]);
            assert(forall|a: int, b: int|
                0 <= a < b < pairs@.len() ==> (#[trigger] pairs@[a]).0 >= (#[trigger] pairs@[b]).0)
                by {
                assert(forall|b: int|
                    p < b < pairs@.len() ==> (#[trigger] pairs@[b]).0 < key);
            }
        }
        i = i + 1;
    }
    let mut order: Vec<usize> = Vec::new();
    let mut j: usize = 0;
    while j < pairs.len()
        invariant
            j <= pairs@.len(),
            pairs@.len() == keys@.len(),
            order@.len() == j,
            forall|a: int| 0 <= a < j ==> (#[trigger] order@[a]) == pairs@[a].1,
            forall|a: int|
                0 <= a < pairs@.len() ==> (#[trigger] pairs@[a]).1 < keys@.len() && pairs@[a].0
                    == keys@[pairs@[a].1 as int],
            forall|a: int, b: int|
                0 <= a < b < pairs@.len() ==> (#[trigger] pairs@[a]).0 >= (#[trigger] pairs@[b]).0,
            forall|a: int, b: int|
                0 <= a < b < pairs@.len() ==> (#[trigger] pairs@[a]).1 != (#[trigger] pairs@[b]).1,
        decreases pairs@.len() - j,
    {
        order.push(pairs[j].1);
        j = j + 1;
    }
    order
}

/// The uniform value of a light list: a dynamic collection of the lights'
/// composite values, in list order.
pub open spec fn is_dir_lights_value(lights: Seq<DirLight>, v: UniformValue) -> bool {
    &&& v matches UniformValue::Collection(items)
    &&& items@.len() == lights.len()
    &&& forall|i: int| 0 <= i < lights.len() ==> is_dir_light_value(lights[i], #[trigger] items@[i])
}

/// The uniform value of a point-light list.
pub open spec fn is_point_lights_value(lights: Seq<PointLight>, v: UniformValue) -> bool {
    &&& v matches UniformValue::Collection(items)
    &&& items@.len() == lights.len()
    &&& forall|i: int|
        0 <= i < lights.len() ==> is_point_light_value(lights[i], #[trigger] items@[i])
}

/// The uniform value of a spot-light list.
pub open spec fn is_spot_lights_value(lights: Seq<SpotLight>, v: UniformValue) -> bool {
    &&& v matches UniformValue::Collection(items)
    &&& items@.len() == lights.len()
    &&& forall|i: int|
        0 <= i < lights.len() ==> is_spot_light_value(lights[i], #[trigger] items@[i])
}

/// A composite whose fields all bind without textures takes no slots.
proof fn lemma_fields_slotfree(fields: Seq<(String, UniformValue)>)
    requires
        forall|i: int| 0 <= i < fields.len() ==> slots_of((#[trigger] fields[i]).1) == 0,
    ensures
        slots_of_fields(fields) == 0,
    decreases fields,
{
    if fields.len() > 0 {
        lemma_fields_slotfree(fields.drop_first());
    }
}

/// A collection whose elements all bind without textures takes no slots.
proof fn lemma_items_slotfree(items: Seq<UniformValue>, k: nat)
    requires
        forall|i: int| 0 <= i < items.len() ==> slots_of(#[trigger] items[i]) == 0,
        k <= items.len(),
    ensures
        slots_of_items(items, k) == 0,
    decreases items,
{
    if k > 0 && items.len() > 0 {
        lemma_items_slotfree(items.drop_first(), (k - 1) as nat);
    }
}

/// A directional light's composite value takes no texture slots.
proof fn lemma_dir_light_slotfree(l: DirLight, v: UniformValue)
    requires
        is_dir_light_value(l, v),
    ensures
        slots_of(v) == 0,
{
    let fs = v->Composite_0;
    assert(forall|i: int| 0 <= i < fs@.len() ==> slots_of((#[trigger] fs@[i]).1) == 0);
    lemma_fields_slotfree(fs@);
}

/// A point light's composite value takes no texture slots.
proof fn lemma_point_light_slotfree(l: PointLight, v: UniformValue)
    requires
        is_point_light_value(l, v),
    ensures
        slots_of(v) == 0,
{
    let fs = v->Composite_0;
    assert(forall|i: int| 0 <= i < fs@.len() ==> slots_of((#[trigger] fs@[i]).1) == 0);
    lemma_fields_slotfree(fs@);
}

/// A spot light's composite value takes no texture slots.
proof fn lemma_spot_light_slotfree(l: SpotLight, v: UniformValue)
    requires
        is_spot_light_value(l, v),
    ensures
        slots_of(v) == 0,
{
    let fs = v->Composite_0;
    assert(forall|i: int| 0 <= i < fs@.len() ==> slots_of((#[trigger] fs@[i]).1) == 0);
    lemma_fields_slotfree(fs@);
}

/// Builds the collection value of a directional-light list.
fn dir_lights_value(lights: &Vec<DirLight>) -> (r: UniformValue)
    ensures
        is_dir_lights_value(lights@, r),
        slots_of(r) == 0,
{
    let mut items: Vec<UniformValue> = Vec::new();
    let mut i: usize = 0;
    while i < lights.len()
        invariant
            i <= lights@.len(),
            items@.len() == i,
            forall|j: int|
                0 <= j < i ==> is_dir_light_value(lights@[j], #[trigger] items@[j]) && slots_of(
                    items@[j],
                ) == 0,
        decreases lights@.len() - i,
    {
        let v = lights[i].uniform_value();
        proof {
            lemma_dir_light_slotfree(lights@[i as int], v);
        }
        items.push(v);
        i = i + 1;
    }
    proof {
        lemma_items_slotfree(items@, crate::shader::bound_count(items@.len()));
    }
    UniformValue::Collection(items)
}

/// Builds the collection value of a point-light list.
fn point_lights_value(lights: &Vec<PointLight>) -> (r: UniformValue)
    ensures
        is_point_lights_value(lights@, r),
        slots_of(r) == 0,
{
    let mut items: Vec<UniformValue> = Vec::new();
    let mut i: usize = 0;
    while i < lights.len()
        invariant
            i <= lights@.len(),
            items@.len() == i,
            forall|j: int|
                0 <= j < i ==> is_point_light_value(lights@[j], #[trigger] items@[j]) && slots_of(
                    items@[j],
                ) == 0,
        decreases lights@.len() - i,
    {
        let v = lights[i].uniform_value();
        proof {
            lemma_point_light_slotfree(lights@[i as int], v);
        }
        items.push(v);
        i = i + 1;
    }
    proof {
        lemma_items_slotfree(items@, crate::shader::bound_count(items@.len()));
    }
    UniformValue::Collection(items)
}

/// Builds the collection value of a spot-light list.
fn spot_lights_value(lights: &Vec<SpotLight>) -> (r: UniformValue)
    ensures
        is_spot_lights_value(lights@, r),
        slots_of(r) == 0,
{
    let mut items: Vec<UniformValue> = Vec::new();
    let mut i: usize = 0;
    while i < lights.len()
        invariant
            i <= lights@.len(),
            items@.len() == i,
            forall|j: int|
                0 <= j < i ==> is_spot_light_value(lights@[j], #[trigger] items@[j]) && slots_of(
                    items@[j],
                ) == 0,
        decreases lights@.len() - i,
    {
        let v = lights[i].uniform_value();
        proof {
            lemma_spot_light_slotfree(lights@[i as int], v);
        }
        items.push(v);
        i = i + 1;
    }
    proof {
        lemma_items_slotfree(items@, crate::shader::bound_count(items@.len()));
    }
    UniformValue::Collection(items)
}

/// The scene: a flat entity list split into opaque groups and transparent
/// grasses, the light lists, the per-pass shaders, the shared camera block,
/// the skybox, and the text overlay. Exactly one shader is active at any
/// instant during a frame; each pass activates its own.
pub struct Scene {
    pub floor: Entity,
    pub cubes: Vec<Entity>,
    pub grasses: Vec<Entity>,
    pub exploder: Entity,
    pub light_shader: Shader,
    pub point_lights: Vec<PointLight>,
    pub spot_lights: Vec<SpotLight>,
    pub dir_lights: Vec<DirLight>,
    pub text_shader: Shader,
    pub text: Text,
    pub font: Font,
    pub camera_ubo: UniformBlock,
    pub skybox_shader: Shader,
    pub skybox: Mesh,
    pub skybox_texture: Texture<TCubemap>,
}

/// The std140 fields of a camera block, in declaration order.
pub open spec fn camera_fields(cb: CameraBlock) -> Seq<Std140Value> {
    seq![
        Std140Value::Vec3(cb.view_pos),
        Std140Value::Mat4(cb.view.c0, cb.view.c1, cb.view.c2, cb.view.c3),
        Std140Value::Mat4(
            cb.projection.c0,
            cb.projection.c1,
            cb.projection.c2,
            cb.projection.c3,
        ),
    ]
}

/// The camera-update segment of a frame: the shared camera block is
/// rewritten with this frame's view before any pass reads it.
pub open spec fn camera_pass_cmds(ubo: u32, cb: CameraBlock) -> Seq<CmdV> {
    seq![
        CmdV::BindBuffer { target: BufferTarget::Uniform, buffer: ubo },
        CmdV::BufferSubData {
            target: BufferTarget::Uniform,
            offset: 0,
            bytes: std140_encode(camera_fields(cb)),
        },
        CmdV::UnbindBuffer { target: BufferTarget::Uniform },
    ]
}

/// The opaque pass: the lighting shader is activated, the light lists are
/// bound as dynamic collections, the frame time and the explode switch are
/// written, and every opaque entity is drawn (order-independent: depth test
/// on, blending off), with the exploder drawn under the raised switch.
pub open spec fn opaque_pass_ok(
    program: u32,
    dirs: Seq<DirLight>,
    spots: Seq<SpotLight>,
    points: Seq<PointLight>,
    floor: Entity,
    cubes: Seq<Entity>,
    exploder: Entity,
    time_bits: u32,
    seg: Seq<CmdV>,
) -> bool {
    exists|dv: UniformValue, sv: UniformValue, pv: UniformValue|
        {
            &&& is_dir_lights_value(dirs, dv)
            &&& is_spot_lights_value(spots, sv)
            &&& is_point_lights_value(points, pv)
            &&& seg == seq![CmdV::UseProgram { program }] + bind_cmds("dir_lights"@, dv, 0)
                + bind_cmds("spot_lights"@, sv, 0) + bind_cmds("point_lights"@, pv, 0) + seq![
                CmdV::UniformFloat { name: "time"@, bits: time_bits },
                CmdV::UniformInt { name: "should_explode"@, value: 0 },
            ] + entity_draw_cmds(&floor, 0) + entities_draw_cmds(cubes) + seq![
                CmdV::UniformInt { name: "should_explode"@, value: 1 },
            ] + entity_draw_cmds(&exploder, 0) + seq![
                CmdV::UniformInt { name: "should_explode"@, value: 0 },
            ]
        }
}

/// The transparency pass: the transparent entities are drawn back to front
/// along a descending-distance permutation of their indices, so alpha
/// blending composites correctly.
pub open spec fn transparency_pass_ok(
    grasses: Seq<Entity>,
    keys: Seq<u64>,
    seg: Seq<CmdV>,
) -> bool {
    exists|order: Seq<usize>|
        {
            &&& is_back_to_front(keys, order)
            &&& seg == ordered_entities_cmds(grasses, order)
        }
}

/// The skybox pass: its shader is activated, the cubemap is bound at slot
/// 0, and the unit cube is drawn with face culling disabled, since the
/// camera sits inside the cube.
pub open spec fn skybox_pass_cmds(program: u32, skybox: &Mesh, texture: u32) -> Seq<CmdV> {
    seq![
        CmdV::UseProgram { program },
        CmdV::UniformInt { name: "skybox"@, value: 0 },
        CmdV::ActiveTexture { slot: 0 },
        CmdV::BindTexture { target: TexTarget::Cube, texture },
        CmdV::Disable { cap: Capability::CullFace },
    ] + mesh_draw_cmds(skybox, 1) + seq![CmdV::Enable { cap: Capability::CullFace }]
}

/// The overlay pass: the glyph atlas is patched, the quad list is updated
/// when the shaping collaborator reported a change, and the queued text is
/// drawn instanced against the atlas.
pub open spec fn overlay_pass_cmds(
    font: Font,
    program: u32,
    patches: Seq<AtlasPatch>,
    action: &BrushUpdate,
    transform: Seq<u32>,
) -> Seq<CmdV> {
    crate::text::patches_cmds(font.texture, patches) + seq![
        CmdV::BindVertexArray { vao: font.vertex_array },
    ] + crate::text::upload_cmds(font.vertex_buffer, action) + seq![
        CmdV::UseProgram { program },
        CmdV::UniformInt { name: "font_tex"@, value: 0 },
        CmdV::ActiveTexture { slot: 0 },
        CmdV::BindTexture { target: TexTarget::D2, texture: font.texture.spec_texture() },
        CmdV::UniformMat4 { name: "model"@, m: transform },
        CmdV::DrawArraysInstanced {
            instances: crate::text::count_after(font.vertex_count, action) as u32,
        },
    ]
}

impl Scene {
    /// Every model's index lists fit the draw calls, and the camera block
    /// buffer was allocated with the camera block's size.
    pub open spec fn wf(&self) -> bool {
        &&& self.floor.model.wf()
        &&& self.exploder.model.wf()
        &&& forall|i: int| 0 <= i < self.cubes@.len() ==> (#[trigger] self.cubes@[i]).model.wf()
        &&& forall|i: int| 0 <= i < self.grasses@.len() ==> (#[trigger] self.grasses@[i]).model.wf()
        &&& self.skybox.indices@.len() <= u32::MAX
        &&& self.camera_ubo.spec_size() == CAMERA_BLOCK_SIZE
    }

    /// Scene animation per frame: this scene is static, so nothing changes.
    pub fn update(&mut self, _time_bits: u32)
        ensures
            *final(self) == *old(self),
    {
    }

    /// Rewrites the shared camera block with this frame's view.
    fn camera_pass(&mut self, camera_block: &CameraBlock, out: &mut Vec<GlCommand>)
        requires
            old(self).camera_ubo.spec_size() == CAMERA_BLOCK_SIZE,
        ensures
            final(self).camera_ubo.spec_binding() == old(self).camera_ubo.spec_binding(),
            final(self).camera_ubo.spec_ubo() == old(self).camera_ubo.spec_ubo(),
            final(self).camera_ubo.spec_size() == old(self).camera_ubo.spec_size(),
            final(self).floor == old(self).floor,
            final(self).cubes == old(self).cubes,
            final(self).grasses == old(self).grasses,
            final(self).exploder == old(self).exploder,
            final(self).light_shader == old(self).light_shader,
            final(self).point_lights == old(self).point_lights,
            final(self).spot_lights == old(self).spot_lights,
            final(self).dir_lights == old(self).dir_lights,
            final(self).text_shader == old(self).text_shader,
            final(self).text == old(self).text,
            final(self).font == old(self).font,
            final(self).skybox_shader == old(self).skybox_shader,
            final(self).skybox == old(self).skybox,
            final(self).skybox_texture == old(self).skybox_texture,
            final(self).camera_ubo.spec_contents() == std140_encode(camera_fields(*camera_block)),
            final(out).deep_view() == old(out).deep_view() + camera_pass_cmds(
                old(self).camera_ubo.spec_ubo(),
                *camera_block,
            ),
    {
        let ghost prev = out.deep_view();
        let fields = camera_block.to_fields();
        self.camera_ubo.upload(&fields, out);
        proof {
            assert(fields@ =~= camera_fields(*camera_block));
            assert(out.deep_view() =~= prev + camera_pass_cmds(
                old(self).camera_ubo.spec_ubo(),
                *camera_block,
            ));
        }
    }

    /// Draws all lit opaque entities under the lighting shader.
    #[verifier::rlimit(50)]
    fn opaque_pass(&self, time_bits: u32, out: &mut Vec<GlCommand>) -> (binder: ActiveShader)
        requires
            self.floor.model.wf(),
            self.exploder.model.wf(),
            forall|i: int| 0 <= i < self.cubes@.len() ==> (#[trigger] self.cubes@[i]).model.wf(),
        ensures
            binder.spec_program() == self.light_shader.spec_id(),
            binder.slots_taken() == 0,
            exists|seg: Seq<CmdV>|
                final(out).deep_view() == old(out).deep_view() + seg && opaque_pass_ok(
                    self.light_shader.spec_id(),
                    self.dir_lights@,
                    self.spot_lights@,
                    self.point_lights@,
                    self.floor,
                    self.cubes@,
                    self.exploder,
                    time_bits,
                    seg,
                ),
    {
        let ghost prev = out.deep_view();
        let mut binder = self.light_shader.activate(out);
        let dv = dir_lights_value(&self.dir_lights);
        binder.bind_uniform("dir_lights", &dv, out);
        let sv = spot_lights_value(&self.spot_lights);
        binder.bind_uniform("spot_lights", &sv, out);
        let pv = point_lights_value(&self.point_lights);
        binder.bind_uniform("point_lights", &pv, out);
        let time_value = UniformValue::Float(time_bits);
        binder.bind_uniform("time", &time_value, out);
        let off_value = UniformValue::Int(0);
        binder.bind_uniform("should_explode", &off_value, out);
        self.floor.draw(&mut binder, out);
        draw_entities_from(&self.cubes, 0, &mut binder, out);
        let on_value = UniformValue::Int(1);
        binder.bind_uniform("should_explode", &on_value, out);
        self.exploder.draw(&mut binder, out);
        let off_again = UniformValue::Int(0);
        binder.bind_uniform("should_explode", &off_again, out);
        proof {
            assert(self.cubes@.skip(0) =~= self.cubes@);
            let seg = seq![CmdV::UseProgram { program: self.light_shader.spec_id() }] + bind_cmds(
                "dir_lights"@,
                dv,
                0,
            ) + bind_cmds("spot_lights"@, sv, 0) + bind_cmds("point_lights"@, pv, 0) + seq![
                CmdV::UniformFloat { name: "time"@, bits: time_bits },
                CmdV::UniformInt { name: "should_explode"@, value: 0 },
            ] + entity_draw_cmds(&self.floor, 0) + entities_draw_cmds(self.cubes@) + seq![
                CmdV::UniformInt { name: "should_explode"@, value: 1 },
            ] + entity_draw_cmds(&self.exploder, 0) + seq![
                CmdV::UniformInt { name: "should_explode"@, value: 0 },
            ];
            assert(out.deep_view() =~= prev + seg);
        }
        binder
    }

    /// Draws the transparent entities back to front by their distance keys.
    fn transparency_pass(
        &self,
        grass_keys: &Vec<u64>,
        binder: &mut ActiveShader,
        out: &mut Vec<GlCommand>,
    )
        requires
            grass_keys@.len() == self.grasses@.len(),
            forall|i: int| 0 <= i < self.grasses@.len() ==> (#[trigger] self.grasses@[i]).model.wf(),
            old(binder).slots_taken() == 0,
        ensures
            final(binder).spec_program() == old(binder).spec_program(),
            final(binder).slots_taken() == 0,
            exists|seg: Seq<CmdV>|
                final(out).deep_view() == old(out).deep_view() + seg && transparency_pass_ok(
                    self.grasses@,
                    grass_keys@,
                    seg,
                ),
    {
        let order = draw_order_back_to_front(grass_keys);
        proof {
            assert(order@.skip(0) =~= order@);
        }
        draw_ordered_entities(&self.grasses, &order, 0, binder, out);
    }

    /// Draws the skybox with face culling disabled.
    #[verifier::rlimit(50)]
    fn skybox_pass(&self, out: &mut Vec<GlCommand>)
        requires
            self.skybox.indices@.len() <= u32::MAX,
        ensures
            final(out).deep_view() == old(out).deep_view() + skybox_pass_cmds(
                self.skybox_shader.spec_id(),
                &self.skybox,
                self.skybox_texture.spec_texture(),
            ),
    {
        let ghost prev = out.deep_view();
        let mut sky_binder = self.skybox_shader.activate(out);
        let sky_value = self.skybox_texture.uniform_value();
        sky_binder.bind_uniform("skybox", &sky_value, out);
        push_cmd(out, GlCommand::Disable { cap: Capability::CullFace });
        self.skybox.draw(&mut sky_binder, out);
        push_cmd(out, GlCommand::Enable { cap: Capability::CullFace });
        proof {
            assert(out.deep_view() =~= prev + skybox_pass_cmds(
                self.skybox_shader.spec_id(),
                &self.skybox,
                self.skybox_texture.spec_texture(),
            ));
        }
    }

    /// One frame: rewrite the camera block, draw the opaque entities under
    /// the lighting shader, the transparent entities back to front, the
    /// skybox, and the text overlay, in that fixed pass order. The embedder
    /// supplies the camera block of this frame, the frame time, one
    /// descending-sortable distance key per transparent entity, and the
    /// text-shaping collaborator's updates.
    #[verifier::rlimit(50)]
    pub fn draw(
        &mut self,
        camera_block: &CameraBlock,
        time_bits: u32,
        grass_keys: &Vec<u64>,
        patches: &Vec<AtlasPatch>,
        action: &BrushUpdate,
        overlay_transform: &[u32; 16],
        out: &mut Vec<GlCommand>,
    )
        requires
            old(self).wf(),
            grass_keys@.len() == old(self).grasses@.len(),
            Font::update_ok(action),
        ensures
            final(self).wf(),
            final(self).font.vertex_count == crate::text::count_after(
                old(self).font.vertex_count,
                action,
            ),
            final(self).camera_ubo.spec_contents() == std140_encode(camera_fields(*camera_block)),
            exists|opaque_seg: Seq<CmdV>, transparent_seg: Seq<CmdV>|
                {
                    &&& final(out).deep_view() == old(out).deep_view() + camera_pass_cmds(
                        old(self).camera_ubo.spec_ubo(),
                        *camera_block,
                    ) + opaque_seg + transparent_seg + skybox_pass_cmds(
                        old(self).skybox_shader.spec_id(),
                        &old(self).skybox,
                        old(self).skybox_texture.spec_texture(),
                    ) + overlay_pass_cmds(
                        old(self).font,
                        old(self).text_shader.spec_id(),
                        patches@,
                        action,
                        overlay_transform@,
                    )
                    &&& opaque_pass_ok(
                        old(self).light_shader.spec_id(),
                        old(self).dir_lights@,
                        old(self).spot_lights@,
                        old(self).point_lights@,
                        old(self).floor,
                        old(self).cubes@,
                        old(self).exploder,
                        time_bits,
                        opaque_seg,
                    )
                    &&& transparency_pass_ok(old(self).grasses@, grass_keys@, transparent_seg)
                },
    {
        let ghost o0 = out.deep_view();
        self.camera_pass(camera_block, out);
        let ghost o1 = out.deep_view();
        let mut binder = self.opaque_pass(time_bits, out);
        let ghost o2 = out.deep_view();
        self.transparency_pass(grass_keys, &mut binder, out);
        let ghost o3 = out.deep_view();
        self.skybox_pass(out);
        let ghost o4 = out.deep_view();
        let _text_binder = self.font.draw(
            &self.text_shader,
            patches,
            action,
            overlay_transform,
            out,
        );
        proof {
            let opaque_seg = choose|seg: Seq<CmdV>|
                o2 == o1 + seg && opaque_pass_ok(
                    old(self).light_shader.spec_id(),
                    old(self).dir_lights@,
                    old(self).spot_lights@,
                    old(self).point_lights@,
                    old(self).floor,
                    old(self).cubes@,
                    old(self).exploder,
                    time_bits,
                    seg,
                );
            let transparent_seg = choose|seg: Seq<CmdV>|
                o3 == o2 + seg && transparency_pass_ok(old(self).grasses@, grass_keys@, seg);
            assert(out.deep_view() =~= o0 + camera_pass_cmds(
                old(self).camera_ubo.spec_ubo(),
                *camera_block,
            ) + opaque_seg + transparent_seg + skybox_pass_cmds(
                old(self).skybox_shader.spec_id(),
                &old(self).skybox,
                old(self).skybox_texture.spec_texture(),
            ) + overlay_pass_cmds(
                old(self).font,
                old(self).text_shader.spec_id(),
                patches@,
                action,
                overlay_transform@,
            ));
        }
    }
}

/// Draws the entities from index `i` on, in list order.
fn draw_entities_from(
    es: &Vec<Entity>,
    i: usize,
    binder: &mut ActiveShader,
    out: &mut Vec<GlCommand>,
)
    requires
        i <= es@.len(),
        forall|j: int| 0 <= j < es@.len() ==> (#[trigger] es@[j]).model.wf(),
        old(binder).slots_taken() == 0,
    ensures
        final(binder).spec_program() == old(binder).spec_program(),
        final(binder).slots_taken() == 0,
        final(out).deep_view() == old(out).deep_view() + entities_draw_cmds(es@.skip(i as int)),
    decreases es@.len() - i,
{
    if i < es.len() {
        proof {
            assert(es@.skip(i as int)[0] == es@[i as int]);
            assert(es@.skip(i as int).drop_first() =~= es@.skip(i as int + 1));
        }
        es[i].draw(binder, out);
        draw_entities_from(es, i + 1, binder, out);
    } else {
        proof {
            assert(es@.skip(i as int) =~= Seq::<Entity>::empty());
        }
    }
}

/// Draws the entities selected by `order` from position `j` on.
fn draw_ordered_entities(
    es: &Vec<Entity>,
    order: &Vec<usize>,
    j: usize,
    binder: &mut ActiveShader,
    out: &mut Vec<GlCommand>,
)
    requires
        j <= order@.len(),
        forall|a: int| 0 <= a < order@.len() ==> (#[trigger] order@[a]) < es@.len(),
        forall|a: int| 0 <= a < es@.len() ==> (#[trigger] es@[a]).model.wf(),
        old(binder).slots_taken() == 0,
    ensures
        final(binder).spec_program() == old(binder).spec_program(),
        final(binder).slots_taken() == 0,
        final(out).deep_view() == old(out).deep_view() + ordered_entities_cmds(
            es@,
            order@.skip(j as int),
        ),
    decreases order@.len() - j,
{
    if j < order.len() {
        proof {
            assert(order@.skip(j as int)[0] == order@[j as int]);
            assert(order@.skip(j as int).drop_first() =~= order@.skip(j as int + 1));
        }
        let idx = order[j];
        es[idx].draw(binder, out);
        draw_ordered_entities(es, order, j + 1, binder, out);
    } else {
        proof {
            assert(order@.skip(j as int) =~= Seq::<usize>::empty());
        }
    }
}

/// The std140 layout kind a reflected GLSL field stores as; samplers never
/// appear inside a uniform block.
pub open spec fn std140_kind_of_field(kind: crate::reflect::FieldKind) -> Option<
    crate::std140::Std140Kind,
> {
    match kind {
        crate::reflect::FieldKind::Scalar(p) => match p {
            crate::reflect::GlslPrim::Float => Some(crate::std140::Std140Kind::Float),
            crate::reflect::GlslPrim::Vec3 => Some(crate::std140::Std140Kind::Vec3),
            crate::reflect::GlslPrim::Vec4 => Some(crate::std140::Std140Kind::Vec4),
            crate::reflect::GlslPrim::Mat4 => Some(crate::std140::Std140Kind::Mat4),
            _ => None,
        },
        crate::reflect::FieldKind::Array(_) => None,
    }
}

/// The bytes uploaded for a camera block lay out field for field as the
/// generated `layout (std140) uniform` declaration says: the encoded fields'
/// std140 kinds match the declared GLSL kinds, in declaration order.
pub proof fn lemma_camera_block_layout_matches_declaration(cb: CameraBlock)
    ensures
        crate::std140::kinds_of(camera_fields(cb)).len() == crate::camera::camera_block_fields(
        ).len(),
        forall|i: int|
            0 <= i < crate::camera::camera_block_fields().len() ==> Some(
                #[trigger] crate::std140::kinds_of(camera_fields(cb))[i],
            ) == std140_kind_of_field(crate::camera::camera_block_fields()[i].1),
{
    let kinds = crate::std140::kinds_of(camera_fields(cb));
    let declared = crate::camera::camera_block_fields();
    assert(kinds.len() == 3);
    assert(Some(kinds[0]) == std140_kind_of_field(declared[0].1));
    assert(Some(kinds[1]) == std140_kind_of_field(declared[1].1));
    assert(Some(kinds[2]) == std140_kind_of_field(declared[2].1));
}

/// The generated struct and block declarations prepended to every shader's
/// source, in the fixed registration order.
pub open spec fn standard_defs_text() -> Seq<char> {
    CameraBlock::spec_block_def() + "\n"@ + Material::spec_type_def() + "\n"@
        + PointLight::spec_type_def() + "\n"@ + DirLight::spec_type_def() + "\n"@
        + SpotLight::spec_type_def()
}

/// Renders the declarations of every reflected host type, joined by
/// newlines.
pub fn standard_defs() -> (r: String)
    ensures
        r@ == standard_defs_text(),
{
    let mut s = CameraBlock::block_def();
    s.append("\n");
    let material = Material::type_def();
    s.append(material.as_str());
    s.append("\n");
    let point = PointLight::type_def();
    s.append(point.as_str());
    s.append("\n");
    let dir = DirLight::type_def();
    s.append(dir.as_str());
    s.append("\n");
    let spot = SpotLight::type_def();
    s.append(spot.as_str());
    s
}

} // verus!
