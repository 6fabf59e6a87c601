use vstd::prelude::*;
use vstd::string::StringExecFns;
use crate::command::{CmdV, GlCommand, TexTarget};
use crate::math::{Vec2Bits, Vec3Bits, Vec4Bits};

verus! {

/// The fixed capacity of a GLSL uniform array generated for a dynamic
/// collection. GLSL uniform arrays require a compile-time size, so a
/// collection is declared as `T name[4]` plus a companion `int name_len`,
/// and elements beyond the capacity are silently dropped.
pub const UNIFORM_ARRAY_CAPACITY: usize = 4;

/// A value that can be written to a shader uniform: the closed union the
/// binder dispatches on.
#[derive(PartialEq, Debug)]
pub enum UniformValue {
    /// A single `int` uniform.
    Int(i32),
    /// A single `uint` uniform.
    Uint(u32),
    /// A single `float` uniform, as its IEEE-754 bit pattern.
    Float(u32),
    /// A `vec2` uniform.
    Vector2(Vec2Bits),
    /// A `vec3` uniform.
    Vector3(Vec3Bits),
    /// A `vec4` uniform.
    Vector4(Vec4Bits),
    /// A `mat3` uniform, column-major.
    Matrix3([u32; 9]),
    /// A `mat4` uniform, column-major.
    Matrix4([u32; 16]),
    /// A texture: binding allocates the next free texture slot, writes the
    /// slot index as an `int` uniform, and binds the texture object to that
    /// unit.
    Texture(TexTarget, u32),
    /// A reference to a uniform block bound at a fixed buffer binding index.
    BlockRef(u32),
    /// A composite struct: the binder recurses into each field in
    /// declaration order with child name `"{name}.{field}"`.
    Composite(Vec<(String, UniformValue)>),
    /// A dynamic collection: the binder writes `"{name}_len"` and then one
    /// `"{name}[i]"` per element, capped at [`UNIFORM_ARRAY_CAPACITY`].
    Collection(Vec<UniformValue>),
}

/// The child name a composite field is bound under: `"{prefix}.{field}"`.
pub open spec fn field_name(prefix: Seq<char>, field: Seq<char>) -> Seq<char> {
    prefix + "."@ + field
}

/// The name the element count of a collection is bound under:
/// `"{prefix}_len"`.
pub open spec fn len_name(prefix: Seq<char>) -> Seq<char> {
    prefix + "_len"@
}

/// The name element `i` of a collection is bound under: `"{prefix}[i]"`.
/// Only indices below the array capacity are ever used.
pub open spec fn index_name(prefix: Seq<char>, i: nat) -> Seq<char> {
    if i == 0 {
        prefix + "[0]"@
    } else if i == 1 {
        prefix + "[1]"@
    } else if i == 2 {
        prefix + "[2]"@
    } else {
        prefix + "[3]"@
    }
}

/// How many of a collection's `n` elements are bound: `min(n, capacity)`.
pub open spec fn bound_count(n: nat) -> nat {
    if n <= UNIFORM_ARRAY_CAPACITY as nat {
        n
    } else {
        UNIFORM_ARRAY_CAPACITY as nat
    }
}

/// The slot index written as the `int` uniform of a texture, exactly as the
/// executable code casts it.
pub open spec fn slot_as_i32(slot: nat) -> i32 {
    (slot as u32) as i32
}

/// How many texture slots binding `v` consumes.
pub open spec fn slots_of(v: UniformValue) -> nat
    decreases v, 0nat,
{
    match v {
        UniformValue::Texture(_, _) => 1,
        UniformValue::Composite(fields) => slots_of_fields(fields@),
        UniformValue::Collection(items) => slots_of_items(items@, bound_count(items@.len())),
        _ => 0,
    }
}

/// How many texture slots binding each field of a composite consumes in all.
pub open spec fn slots_of_fields(fields: Seq<(String, UniformValue)>) -> nat
    decreases fields, 0nat,
{
    if fields.len() == 0 {
        0
    } else {
        slots_of(fields[0].1) + slots_of_fields(fields.drop_first())
    }
}

/// How many texture slots binding the first `k` elements of a collection
/// consumes in all.
pub open spec fn slots_of_items(items: Seq<UniformValue>, k: nat) -> nat
    decreases items, 0nat,
{
    if k == 0 || items.len() == 0 {
        0
    } else {
        slots_of(items[0]) + slots_of_items(items.drop_first(), (k - 1) as nat)
    }
}

/// The command stream produced by binding `v` under `name` when the next
/// free texture slot is `slot`.
pub open spec fn bind_cmds(name: Seq<char>, v: UniformValue, slot: nat) -> Seq<CmdV>
    decreases v, 1nat,
{
    match v {
        UniformValue::Int(x) => seq![CmdV::UniformInt { name, value: x }],
        UniformValue::Uint(x) => seq![CmdV::UniformUint { name, value: x }],
        UniformValue::Float(bits) => seq![CmdV::UniformFloat { name, bits }],
        UniformValue::Vector2(xy) => seq![CmdV::UniformVec2 { name, v: xy }],
        UniformValue::Vector3(xyz) => seq![CmdV::UniformVec3 { name, v: xyz }],
        UniformValue::Vector4(xyzw) => seq![CmdV::UniformVec4 { name, v: xyzw }],
        UniformValue::Matrix3(m) => seq![CmdV::UniformMat3 { name, m: m@ }],
        UniformValue::Matrix4(m) => seq![CmdV::UniformMat4 { name, m: m@ }],
        UniformValue::Texture(target, texture) => seq![
            CmdV::UniformInt { name, value: slot_as_i32(slot) },
            CmdV::ActiveTexture { slot: slot as u32 },
            CmdV::BindTexture { target, texture },
        ],
        UniformValue::BlockRef(binding) => seq![CmdV::BindBlock { name, binding }],
        UniformValue::Composite(fields) => bind_field_cmds(name, fields@, slot),
        UniformValue::Collection(items) => {
            let k = bound_count(items@.len());
            seq![CmdV::UniformInt { name: len_name(name), value: k as i32 }] + bind_item_cmds(
                name,
                items@,
                0,
                k,
                slot,
            )
        },
    }
}

/// The command stream produced by binding a composite's fields in
/// declaration order: field `f` is bound under `"{prefix}.{f}"`, and each
/// field sees the slot counter advanced by the fields before it.
pub open spec fn bind_field_cmds(
    prefix: Seq<char>,
    fields: Seq<(String, UniformValue)>,
    slot: nat,
) -> Seq<CmdV>
    decreases fields, 2nat,
{
    if fields.len() == 0 {
        seq![]
    } else {
        bind_cmds(field_name(prefix, fields[0].0@), fields[0].1, slot) + bind_field_cmds(
            prefix,
            fields.drop_first(),
            slot + slots_of(fields[0].1),
        )
    }
}

/// The command stream produced by binding the first `k` elements of a
/// collection in order: the element at overall index `idx` is bound under
/// `"{prefix}[idx]"`.
pub open spec fn bind_item_cmds(
    prefix: Seq<char>,
    items: Seq<UniformValue>,
    idx: nat,
    k: nat,
    slot: nat,
) -> Seq<CmdV>
    decreases items, 2nat,
{
    if k == 0 || items.len() == 0 {
        seq![]
    } else {
        bind_cmds(index_name(prefix, idx), items[0], slot) + bind_item_cmds(
            prefix,
            items.drop_first(),
            idx + 1,
            (k - 1) as nat,
            slot + slots_of(items[0]),
        )
    }
}

/// The slot count of a composite splits around any field index.
proof fn lemma_slots_of_fields_split(fields: Seq<(String, UniformValue)>, i: int)
    requires
        0 <= i <= fields.len(),
    ensures
        slots_of_fields(fields) == slots_of_fields(fields.take(i)) + slots_of_fields(
            fields.skip(i),
        ),
    decreases i,
{
    if i == 0 {
        assert(fields.take(0) =~= Seq::<(String, UniformValue)>::empty());
        assert(fields.skip(0) =~= fields);
    } else {
        lemma_slots_of_fields_split(fields.drop_first(), i - 1);
        assert(fields.take(i)[0] == fields[0]);
        assert(fields.take(i).drop_first() =~= fields.drop_first().take(i - 1));
        assert(fields.skip(i) =~= fields.drop_first().skip(i - 1));
    }
}

/// The command stream of a composite splits around any field index.
proof fn lemma_bind_field_cmds_split(
    prefix: Seq<char>,
    fields: Seq<(String, UniformValue)>,
    i: int,
    slot: nat,
)
    requires
        0 <= i <= fields.len(),
    ensures
        bind_field_cmds(prefix, fields, slot) == bind_field_cmds(prefix, fields.take(i), slot)
            + bind_field_cmds(prefix, fields.skip(i), slot + slots_of_fields(fields.take(i))),
    decreases i,
{
    if i == 0 {
        assert(fields.take(0) =~= Seq::<(String, UniformValue)>::empty());
        assert(fields.skip(0) =~= fields);
    } else {
        lemma_bind_field_cmds_split(
            prefix,
            fields.drop_first(),
            i - 1,
            slot + slots_of(fields[0].1),
        );
        assert(fields.take(i)[0] == fields[0]);
        assert(fields.take(i).drop_first() =~= fields.drop_first().take(i - 1));
        assert(fields.skip(i) =~= fields.drop_first().skip(i - 1));
        assert(bind_cmds(field_name(prefix, fields[0].0@), fields[0].1, slot) + (bind_field_cmds(
            prefix,
            fields.drop_first().take(i - 1),
            slot + slots_of(fields[0].1),
        ) + bind_field_cmds(
            prefix,
            fields.drop_first().skip(i - 1),
            slot + slots_of(fields[0].1) + slots_of_fields(fields.drop_first().take(i - 1)),
        )) =~= (bind_cmds(field_name(prefix, fields[0].0@), fields[0].1, slot) + bind_field_cmds(
            prefix,
            fields.drop_first().take(i - 1),
            slot + slots_of(fields[0].1),
        )) + bind_field_cmds(
            prefix,
            fields.drop_first().skip(i - 1),
            slot + slots_of(fields[0].1) + slots_of_fields(fields.drop_first().take(i - 1)),
        ));
    }
}

/// Binding a composite visits its fields in declaration order, and the field
/// at index `i` is bound under the child name `"{name}.{field}"`: the
/// command stream decomposes into the commands of the fields before `i`, the
/// commands of field `i` under its child name, and the commands of the
/// fields after `i`, with the texture-slot counter threaded left to right.
pub proof fn lemma_composite_visits_fields_in_order(
    name: Seq<char>,
    fields: Vec<(String, UniformValue)>,
    i: int,
    slot: nat,
)
    requires
        0 <= i < fields@.len(),
    ensures
        bind_cmds(name, UniformValue::Composite(fields), slot) == bind_field_cmds(
            name,
            fields@.take(i),
            slot,
        ) + bind_cmds(
            field_name(name, fields@[i].0@),
            fields@[i].1,
            slot + slots_of_fields(fields@.take(i)),
        ) + bind_field_cmds(
            name,
            fields@.skip(i + 1),
            slot + slots_of_fields(fields@.take(i + 1)),
        ),
{
    let fs = fields@;
    lemma_bind_field_cmds_split(name, fs, i, slot);
    let mid_slot = slot + slots_of_fields(fs.take(i));
    assert(fs.skip(i)[0] == fs[i]);
    assert(fs.skip(i).drop_first() =~= fs.skip(i + 1));
    // slots_of_fields(fs.take(i + 1)) == slots_of_fields(fs.take(i)) + slots_of(fs[i].1)
    lemma_slots_of_fields_split(fs.take(i + 1), i);
    assert(fs.take(i + 1).take(i) =~= fs.take(i));
    assert(fs.take(i + 1).skip(i) =~= seq![fs[i]]);
    assert(seq![fs[i]].drop_first() =~= Seq::<(String, UniformValue)>::empty());
    assert(seq![fs[i]][0] == fs[i]);
    assert(slots_of_fields(Seq::<(String, UniformValue)>::empty()) == 0);
    assert(slots_of_fields(seq![fs[i]]) == slots_of(fs[i].1));
    assert(bind_field_cmds(name, fs.take(i), slot) + (bind_cmds(
        field_name(name, fs[i].0@),
        fs[i].1,
        mid_slot,
    ) + bind_field_cmds(name, fs.skip(i + 1), mid_slot + slots_of(fs[i].1))) =~= (bind_field_cmds(
        name,
        fs.take(i),
        slot,
    ) + bind_cmds(field_name(name, fs[i].0@), fs[i].1, mid_slot)) + bind_field_cmds(
        name,
        fs.skip(i + 1),
        mid_slot + slots_of(fs[i].1),
    ));
}

/// Binding a dynamic collection writes the element count under
/// `"{name}_len"` and then one per-index uniform per kept element: all `n`
/// elements when `n` is at most the fixed array capacity, and exactly the
/// first `UNIFORM_ARRAY_CAPACITY` elements (with `_len` equal to the
/// capacity) when `n` exceeds it.
pub proof fn lemma_collection_truncates_at_capacity(
    name: Seq<char>,
    items: Vec<UniformValue>,
    slot: nat,
)
    ensures
        items@.len() <= UNIFORM_ARRAY_CAPACITY ==> bind_cmds(
            name,
            UniformValue::Collection(items),
            slot,
        ) == seq![CmdV::UniformInt { name: len_name(name), value: items@.len() as i32 }]
            + bind_item_cmds(name, items@, 0, items@.len(), slot),
        items@.len() > UNIFORM_ARRAY_CAPACITY ==> bind_cmds(
            name,
            UniformValue::Collection(items),
            slot,
        ) == seq![
            CmdV::UniformInt { name: len_name(name), value: UNIFORM_ARRAY_CAPACITY as i32 },
        ] + bind_item_cmds(name, items@, 0, UNIFORM_ARRAY_CAPACITY as nat, slot),
{
}

/// Binding the first `k` elements of a collection of scalar floats yields
/// exactly one command per element, at the per-index names.
proof fn lemma_scalar_item_cmds(
    prefix: Seq<char>,
    items: Seq<UniformValue>,
    idx: nat,
    k: nat,
    slot: nat,
)
    requires
        k <= items.len(),
        forall|j: int| 0 <= j < items.len() ==> items[j] is Float,
    ensures
        bind_item_cmds(prefix, items, idx, k, slot).len() == k,
        forall|j: int|
            0 <= j < k ==> bind_item_cmds(prefix, items, idx, k, slot)[j] == (CmdV::UniformFloat {
                name: index_name(prefix, (idx + j) as nat),
                bits: items[j]->Float_0,
            }),
    decreases k,
{
    if k > 0 {
        lemma_scalar_item_cmds(prefix, items.drop_first(), idx + 1, (k - 1) as nat, slot);
        assert(slots_of(items[0]) == 0);
        assert(forall|j: int|
            0 <= j < items.drop_first().len() ==> items.drop_first()[j] == items[j + 1]);
        let whole = bind_item_cmds(prefix, items, idx, k, slot);
        let head = bind_cmds(index_name(prefix, idx), items[0], slot);
        let rest = bind_item_cmds(prefix, items.drop_first(), idx + 1, (k - 1) as nat, slot);
        assert(items[0] is Float);
        assert(head =~= seq![
            CmdV::UniformFloat { name: index_name(prefix, idx), bits: items[0]->Float_0 },
        ]);
        assert(whole == head + rest);
        assert forall|j: int| 0 <= j < k implies whole[j] == (CmdV::UniformFloat {
            name: index_name(prefix, (idx + j) as nat),
            bits: items[j]->Float_0,
        }) by {
            if j > 0 {
                assert(whole[j] == rest[j - 1]);
            }
        }
    }
}

/// For a dynamic collection of `n` scalar floats, the binder writes one
/// `_len` uniform equal to `min(n, capacity)` followed by exactly
/// `min(n, capacity)` per-index uniforms `"{name}[i]"`, each carrying the
/// corresponding element.
pub proof fn lemma_scalar_collection_writes(
    name: Seq<char>,
    items: Vec<UniformValue>,
    slot: nat,
)
    requires
        forall|j: int| 0 <= j < items@.len() ==> items@[j] is Float,
    ensures
        bind_cmds(name, UniformValue::Collection(items), slot).len() == 1 + bound_count(
            items@.len(),
        ),
        bind_cmds(name, UniformValue::Collection(items), slot)[0] == (CmdV::UniformInt {
            name: len_name(name),
            value: bound_count(items@.len()) as i32,
        }),
        forall|j: int|
            0 <= j < bound_count(items@.len()) ==> bind_cmds(
                name,
                UniformValue::Collection(items),
                slot,
            )[1 + j] == (CmdV::UniformFloat {
                name: index_name(name, j as nat),
                bits: items@[j]->Float_0,
            }),
{
    let k = bound_count(items@.len());
    lemma_scalar_item_cmds(name, items@, 0, k, slot);
}

/// Appends one command, maintaining the deep view of the stream.
pub(crate) fn push_cmd(out: &mut Vec<GlCommand>, c: GlCommand)
    ensures
        final(out).deep_view() == old(out).deep_view().push(c@),
{
    let ghost prev = out.deep_view();
    out.push(c);
    proof {
        assert(out.deep_view() =~= prev.push(c@));
    }
}

/// Builds the child name `"{prefix}.{field}"` of a composite field.
fn make_field_name(prefix: &str, field: &str) -> (r: String)
    ensures
        r@ == field_name(prefix@, field@),
{
    let mut s = prefix.to_owned();
    s.append(".");
    s.append(field);
    s
}

/// Builds the name `"{prefix}_len"` the element count is written under.
fn make_len_name(prefix: &str) -> (r: String)
    ensures
        r@ == len_name(prefix@),
{
    let mut s = prefix.to_owned();
    s.append("_len");
    s
}

/// Builds the name `"{prefix}[i]"` element `i` is written under.
fn make_index_name(prefix: &str, i: usize) -> (r: String)
    requires
        i < UNIFORM_ARRAY_CAPACITY,
    ensures
        r@ == index_name(prefix@, i as nat),
{
    let mut s = prefix.to_owned();
    s.append(
        match i {
            0 => "[0]",
            1 => "[1]",
            2 => "[2]",
            _ => "[3]",
        },
    );
    s
}

/// The two shader stages the renderer compiles.
#[derive(Clone, Copy, PartialEq, Eq, Structural, Debug)]
pub enum ShaderStage {
    Vertex,
    Fragment,
}

/// A fatal shader build failure, carrying the driver's diagnostic log.
#[derive(PartialEq, Debug)]
pub enum ShaderError {
    /// One stage failed to compile.
    Compile(ShaderStage, String),
    /// The stages failed to link into a program.
    Link(String),
}

/// Accepts or rejects a stage's compile status as the driver reported it:
/// a failure is fatal and surfaces the driver's log.
pub fn check_compile_status(stage: ShaderStage, ok: bool, log: String) -> (r: Result<
    (),
    ShaderError,
>)
    ensures
        r is Ok <==> ok,
        !ok ==> r == Err::<(), ShaderError>(ShaderError::Compile(stage, log)),
{
    if ok {
        Ok(())
    } else {
        Err(ShaderError::Compile(stage, log))
    }
}

/// Accepts or rejects the program's link status as the driver reported it.
pub fn check_link_status(ok: bool, log: String) -> (r: Result<(), ShaderError>)
    ensures
        r is Ok <==> ok,
        !ok ==> r == Err::<(), ShaderError>(ShaderError::Link(log)),
{
    if ok {
        Ok(())
    } else {
        Err(ShaderError::Link(log))
    }
}

/// Prefixes a shader stage's source with the platform header (version and
/// precision directives) and the generated struct declarations of every
/// reflected host type, so shader text can reference host structs without
/// hand-duplicating field lists.
pub fn preprocess_source(header: &str, defs: &str, source: &str) -> (r: String)
    ensures
        r@ == header@ + "\n"@ + defs@ + "\n"@ + source@,
{
    let mut s = header.to_owned();
    s.append("\n");
    s.append(defs);
    s.append("\n");
    s.append(source);
    s
}

/// A host type with a generated GLSL `struct` declaration, included in every
/// shader's preamble. The struct name referenced from shader source must
/// match the host type's name exactly.
pub trait ShaderTypeDef {
    /// The declaration text.
    spec fn spec_type_def() -> Seq<char>;

    /// Renders the declaration text.
    fn type_def() -> (r: String)
        ensures
            r@ == Self::spec_type_def(),
    ;
}

/// A host type with a generated `layout (std140) uniform` block
/// declaration.
pub trait ShaderBlockDef {
    /// The declaration text.
    spec fn spec_block_def() -> Seq<char>;

    /// Renders the declaration text.
    fn block_def() -> (r: String)
        ensures
            r@ == Self::spec_block_def(),
    ;
}

/// A compiled and linked GPU shader program. Immutable after construction;
/// the embedder compiles and links the stages and hands over the program
/// handle.
pub struct Shader {
    id: u32,
}

impl Shader {
    /// The linked program handle.
    pub closed spec fn spec_id(&self) -> u32 {
        self.id
    }

    /// Wraps a linked program handle.
    pub fn new(id: u32) -> (r: Shader)
        ensures
            r.spec_id() == id,
    {
        Shader { id }
    }

    /// The linked program handle.
    pub fn program(&self) -> (r: u32)
        ensures
            r == self.spec_id(),
    {
        self.id
    }

    /// Makes this program the GPU's current program and returns a fresh
    /// binder whose texture-slot counter starts at 0.
    pub fn activate(&self, out: &mut Vec<GlCommand>) -> (r: ActiveShader)
        ensures
            r.spec_program() == self.spec_id(),
            r.slots_taken() == 0,
            final(out).deep_view() == old(out).deep_view().push(
                CmdV::UseProgram { program: self.spec_id() },
            ),
    {
        push_cmd(out, GlCommand::UseProgram { program: self.id });
        ActiveShader::new(self.id)
    }
}

/// A shader program made current on the GPU context, together with the
/// per-activation texture-slot counter. Slot numbering restarts at 0 on each
/// activation, and may be rewound with [`ActiveShader::reset_textures`] so
/// that successive draw calls reuse the same texture units.
pub struct ActiveShader {
    program: u32,
    num_textures: u32,
}

impl ActiveShader {
    /// The program handle this activation binds uniforms against.
    pub closed spec fn spec_program(&self) -> u32 {
        self.program
    }

    /// The next texture slot that will be handed out.
    pub closed spec fn slots_taken(&self) -> u32 {
        self.num_textures
    }

    /// A fresh activation of the program `program`: its slot counter starts
    /// at 0.
    pub fn new(program: u32) -> (r: ActiveShader)
        ensures
            r.spec_program() == program,
            r.slots_taken() == 0,
    {
        ActiveShader { program, num_textures: 0 }
    }

    /// Allocates the next free texture slot: returns 0, 1, 2, ... on
    /// successive calls after construction or after `reset_textures`.
    pub fn new_texture_slot(&mut self) -> (slot: u32)
        requires
            old(self).slots_taken() < u32::MAX,
        ensures
            slot == old(self).slots_taken(),
            final(self).slots_taken() == old(self).slots_taken() + 1,
            final(self).spec_program() == old(self).spec_program(),
    {
        let slot = self.num_textures;
        self.num_textures = self.num_textures + 1;
        slot
    }

    /// Rewinds the slot counter to 0, so the next draw call's textures reuse
    /// the units already consumed by the previous one.
    pub fn reset_textures(&mut self)
        ensures
            final(self).slots_taken() == 0,
            final(self).spec_program() == old(self).spec_program(),
    {
        self.num_textures = 0;
    }

    /// The program handle this activation was created from.
    pub fn program(&self) -> (r: u32)
        ensures
            r == self.spec_program(),
    {
        self.program
    }

    /// Binds `value` under `name`, appending the resulting GPU commands to
    /// `out` and advancing the texture-slot counter by the number of
    /// textures the value contains.
    pub fn bind_uniform(&mut self, name: &str, value: &UniformValue, out: &mut Vec<GlCommand>)
        requires
            old(self).slots_taken() + slots_of(*value) <= u32::MAX,
        ensures
            final(self).spec_program() == old(self).spec_program(),
            final(self).slots_taken() == old(self).slots_taken() + slots_of(*value),
            final(out).deep_view() == old(out).deep_view() + bind_cmds(
                name@,
                *value,
                old(self).slots_taken() as nat,
            ),
        decreases *value, 1nat,
    {
        let ghost prev = out.deep_view();
        match value {
            UniformValue::Int(x) => {
                push_cmd(out, GlCommand::UniformInt { name: name.to_owned(), value: *x });
                proof {
                    assert(out.deep_view() =~= prev + bind_cmds(
                        name@,
                        *value,
                        old(self).slots_taken() as nat,
                    ));
                }
            },
            UniformValue::Uint(x) => {
                push_cmd(out, GlCommand::UniformUint { name: name.to_owned(), value: *x });
                proof {
                    assert(out.deep_view() =~= prev + bind_cmds(
                        name@,
                        *value,
                        old(self).slots_taken() as nat,
                    ));
                }
            },
            UniformValue::Float(bits) => {
                push_cmd(out, GlCommand::UniformFloat { name: name.to_owned(), bits: *bits });
                proof {
                    assert(out.deep_view() =~= prev + bind_cmds(
                        name@,
                        *value,
                        old(self).slots_taken() as nat,
                    ));
                }
            },
            UniformValue::Vector2(v) => {
                push_cmd(out, GlCommand::UniformVec2 { name: name.to_owned(), v: *v });
                proof {
                    assert(out.deep_view() =~= prev + bind_cmds(
                        name@,
                        *value,
                        old(self).slots_taken() as nat,
                    ));
                }
            },
            UniformValue::Vector3(v) => {
                push_cmd(out, GlCommand::UniformVec3 { name: name.to_owned(), v: *v });
                proof {
                    assert(out.deep_view() =~= prev + bind_cmds(
                        name@,
                        *value,
                        old(self).slots_taken() as nat,
                    ));
                }
            },
            UniformValue::Vector4(v) => {
                push_cmd(out, GlCommand::UniformVec4 { name: name.to_owned(), v: *v });
                proof {
                    assert(out.deep_view() =~= prev + bind_cmds(
                        name@,
                        *value,
                        old(self).slots_taken() as nat,
                    ));
                }
            },
            UniformValue::Matrix3(m) => {
                push_cmd(out, GlCommand::UniformMat3 { name: name.to_owned(), m: *m });
                proof {
                    assert(out.deep_view() =~= prev + bind_cmds(
                        name@,
                        *value,
                        old(self).slots_taken() as nat,
                    ));
                }
            },
            UniformValue::Matrix4(m) => {
                push_cmd(out, GlCommand::UniformMat4 { name: name.to_owned(), m: *m });
                proof {
                    assert(out.deep_view() =~= prev + bind_cmds(
                        name@,
                        *value,
                        old(self).slots_taken() as nat,
                    ));
                }
            },
            UniformValue::Texture(target, texture) => {
                let slot = self.new_texture_slot();
                push_cmd(out, GlCommand::UniformInt { name: name.to_owned(), value: slot as i32 });
                push_cmd(out, GlCommand::ActiveTexture { slot });
                push_cmd(out, GlCommand::BindTexture { target: *target, texture: *texture });
                proof {
                    assert(out.deep_view() =~= prev + bind_cmds(
                        name@,
                        *value,
                        old(self).slots_taken() as nat,
                    ));
                }
            },
            UniformValue::BlockRef(binding) => {
                push_cmd(out, GlCommand::BindBlock { name: name.to_owned(), binding: *binding });
                proof {
                    assert(out.deep_view() =~= prev + bind_cmds(
                        name@,
                        *value,
                        old(self).slots_taken() as nat,
                    ));
                }
            },
            UniformValue::Composite(fields) => {
                proof {
                    assert(fields@.skip(0) =~= fields@);
                }
                self.bind_fields(name, fields, 0, out);
            },
            UniformValue::Collection(items) => {
                let n = items.len();
                let k = if n <= UNIFORM_ARRAY_CAPACITY {
                    n
                } else {
                    UNIFORM_ARRAY_CAPACITY
                };
                proof {
                    assert(items@.skip(0) =~= items@);
                }
                push_cmd(
                    out,
                    GlCommand::UniformInt { name: make_len_name(name), value: k as i32 },
                );
                self.bind_items(name, items, 0, k, out);
                proof {
                    assert(out.deep_view() =~= prev + bind_cmds(
                        name@,
                        *value,
                        old(self).slots_taken() as nat,
                    ));
                }
            },
        }
    }

    /// Binds the fields of a composite from index `i` on, in declaration
    /// order.
    fn bind_fields(
        &mut self,
        prefix: &str,
        fields: &Vec<(String, UniformValue)>,
        i: usize,
        out: &mut Vec<GlCommand>,
    )
        requires
            i <= fields@.len(),
            old(self).slots_taken() + slots_of_fields(fields@.skip(i as int)) <= u32::MAX,
        ensures
            final(self).spec_program() == old(self).spec_program(),
            final(self).slots_taken() == old(self).slots_taken() + slots_of_fields(
                fields@.skip(i as int),
            ),
            final(out).deep_view() == old(out).deep_view() + bind_field_cmds(
                prefix@,
                fields@.skip(i as int),
                old(self).slots_taken() as nat,
            ),
        decreases fields@, 3nat, fields@.len() - i,
    {
        if i < fields.len() {
            proof {
                assert(fields@.skip(i as int)[0] == fields@[i as int]);
                assert(fields@.skip(i as int).drop_first() =~= fields@.skip(i as int + 1));
            }
            let pair = &fields[i];
            let child = make_field_name(prefix, pair.0.as_str());
            self.bind_uniform(child.as_str(), &pair.1, out);
            self.bind_fields(prefix, fields, i + 1, out);
        } else {
            proof {
                assert(fields@.skip(i as int) =~= Seq::<(String, UniformValue)>::empty());
            }
        }
    }

    /// Binds elements `i..k` of a collection under their per-index names.
    fn bind_items(
        &mut self,
        prefix: &str,
        items: &Vec<UniformValue>,
        i: usize,
        k: usize,
        out: &mut Vec<GlCommand>,
    )
        requires
            i <= k,
            k == bound_count(items@.len()),
            old(self).slots_taken() + slots_of_items(
                items@.skip(i as int),
                (k - i) as nat,
            ) <= u32::MAX,
        ensures
            final(self).spec_program() == old(self).spec_program(),
            final(self).slots_taken() == old(self).slots_taken() + slots_of_items(
                items@.skip(i as int),
                (k - i) as nat,
            ),
            final(out).deep_view() == old(out).deep_view() + bind_item_cmds(
                prefix@,
                items@.skip(i as int),
                i as nat,
                (k - i) as nat,
                old(self).slots_taken() as nat,
            ),
        decreases items@, 3nat, k - i,
    {
        if i < k {
            proof {
                assert(items@.skip(i as int)[0] == items@[i as int]);
                assert(items@.skip(i as int).drop_first() =~= items@.skip(i as int + 1));
                assert(decreases_to!(items@ => items@[i as int]));
            }
            let child = make_index_name(prefix, i);
            self.bind_uniform(child.as_str(), &items[i], out);
            self.bind_items(prefix, items, i + 1, k, out);
        }
    }
}

} // verus!
