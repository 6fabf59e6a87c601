use vstd::prelude::*;
use vstd::string::StringExecFns;
use crate::command::{CmdV, GlCommand, TexTarget};
use crate::reflect::{struct_decl, struct_decl_text, FieldKind, FieldTable, GlslPrim};
use crate::shader::{bind_cmds, bind_field_cmds, field_name, slot_as_i32, slots_of, slots_of_fields, ActiveShader, ShaderTypeDef, UniformValue};
use crate::texture::{T2d, Texture};

verus! {

/// A surface material: a diffuse and a specular texture plus a scalar
/// shininess (an IEEE-754 bit pattern). Cloning shares the GPU texture
/// handles.
#[derive(Clone)]
pub struct Material {
    pub diffuse: Texture<T2d>,
    pub specular: Texture<T2d>,
    pub shininess: u32,
}

/// The uniform value of a material: its fields in declaration order.
pub open spec fn is_material_value(m: Material, v: UniformValue) -> bool {
    &&& v matches UniformValue::Composite(fs)
    &&& fs@.len() == 3
    &&& fs@[0].0@ == "diffuse"@ && fs@[0].1 == UniformValue::Texture(
        TexTarget::D2,
        m.diffuse.spec_texture(),
    )
    &&& fs@[1].0@ == "specular"@ && fs@[1].1 == UniformValue::Texture(
        TexTarget::D2,
        m.specular.spec_texture(),
    )
    &&& fs@[2].0@ == "shininess"@ && fs@[2].1 == UniformValue::Float(m.shininess)
}

/// The exact command stream of binding a material under the uniform name
/// `"material"`, when the next free texture slot is `slot`: the diffuse
/// texture takes `slot`, the specular texture `slot + 1`, then the scalar
/// shininess is written.
pub open spec fn material_bind_cmds(m: Material, slot: nat) -> Seq<CmdV> {
    seq![
        CmdV::UniformInt { name: "material.diffuse"@, value: slot_as_i32(slot) },
        CmdV::ActiveTexture { slot: slot as u32 },
        CmdV::BindTexture { target: TexTarget::D2, texture: m.diffuse.spec_texture() },
        CmdV::UniformInt { name: "material.specular"@, value: slot_as_i32(slot + 1) },
        CmdV::ActiveTexture { slot: (slot + 1) as u32 },
        CmdV::BindTexture { target: TexTarget::D2, texture: m.specular.spec_texture() },
        CmdV::UniformFloat { name: "material.shininess"@, bits: m.shininess },
    ]
}

impl Material {
    /// The material as a bindable composite uniform value.
    pub fn uniform_value(&self) -> (r: UniformValue)
        ensures
            is_material_value(*self, r),
    {
        let mut fields: Vec<(String, UniformValue)> = Vec::new();
        fields.push(("diffuse".to_owned(), self.diffuse.uniform_value()));
        fields.push(("specular".to_owned(), self.specular.uniform_value()));
        fields.push(("shininess".to_owned(), UniformValue::Float(self.shininess)));
        UniformValue::Composite(fields)
    }

    /// Binds the material under the uniform name `"material"`, consuming two
    /// texture slots.
    pub fn bind(&self, shader: &mut ActiveShader, out: &mut Vec<GlCommand>)
        requires
            old(shader).slots_taken() + 2 <= u32::MAX,
        ensures
            final(shader).spec_program() == old(shader).spec_program(),
            final(shader).slots_taken() == old(shader).slots_taken() + 2,
            final(out).deep_view() == old(out).deep_view() + material_bind_cmds(
                *self,
                old(shader).slots_taken() as nat,
            ),
    {
        let value = self.uniform_value();
        proof {
            lemma_material_bind(*self, value, old(shader).slots_taken() as nat);
        }
        shader.bind_uniform("material", &value, out);
    }
}

/// Binding a material's composite value produces exactly the flat command
/// stream `material_bind_cmds`.
proof fn lemma_material_bind(m: Material, v: UniformValue, slot: nat)
    requires
        is_material_value(m, v),
    ensures
        slots_of(v) == 2,
        bind_cmds("material"@, v, slot) == material_bind_cmds(m, slot),
{
    let fs = v->Composite_0;
    reveal_strlit("material");
    reveal_strlit("material.diffuse");
    reveal_strlit("material.specular");
    reveal_strlit("material.shininess");
    reveal_strlit("diffuse");
    reveal_strlit("specular");
    reveal_strlit("shininess");
    reveal_strlit(".");
    let f1 = fs@.drop_first();
    let f2 = f1.drop_first();
    let f3 = f2.drop_first();
    assert(f3 =~= Seq::<(String, UniformValue)>::empty());
    assert(f2[0] == fs@[2]);
    assert(f1[0] == fs@[1]);
    assert(slots_of_fields(f3) == 0);
    assert(slots_of(fs@[2].1) == 0);
    assert(slots_of_fields(f2) == 0);
    assert(slots_of(fs@[1].1) == 1);
    assert(slots_of_fields(f1) == 1);
    assert(slots_of(fs@[0].1) == 1);
    assert(slots_of_fields(fs@) == 2);
    assert(field_name("material"@, fs@[0].0@) =~= "material.diffuse"@);
    assert(field_name("material"@, fs@[1].0@) =~= "material.specular"@);
    assert(field_name("material"@, fs@[2].0@) =~= "material.shininess"@);
    assert(bind_field_cmds("material"@, f3, slot + 2) =~= Seq::<CmdV>::empty());
    assert(bind_cmds(field_name("material"@, fs@[2].0@), fs@[2].1, slot + 2) =~= seq![
        CmdV::UniformFloat { name: "material.shininess"@, bits: m.shininess },
    ]);
    assert(bind_field_cmds("material"@, f2, slot + 2) =~= seq![
        CmdV::UniformFloat { name: "material.shininess"@, bits: m.shininess },
    ]);
    assert(bind_cmds(field_name("material"@, fs@[1].0@), fs@[1].1, slot + 1) =~= seq![
        CmdV::UniformInt { name: "material.specular"@, value: slot_as_i32(slot + 1) },
        CmdV::ActiveTexture { slot: (slot + 1) as u32 },
        CmdV::BindTexture { target: TexTarget::D2, texture: m.specular.spec_texture() },
    ]);
    assert(bind_field_cmds("material"@, f1, slot + 1) =~= seq![
        CmdV::UniformInt { name: "material.specular"@, value: slot_as_i32(slot + 1) },
        CmdV::ActiveTexture { slot: (slot + 1) as u32 },
        CmdV::BindTexture { target: TexTarget::D2, texture: m.specular.spec_texture() },
        CmdV::UniformFloat { name: "material.shininess"@, bits: m.shininess },
    ]);
    assert(bind_cmds(field_name("material"@, fs@[0].0@), fs@[0].1, slot) =~= seq![
        CmdV::UniformInt { name: "material.diffuse"@, value: slot_as_i32(slot) },
        CmdV::ActiveTexture { slot: slot as u32 },
        CmdV::BindTexture { target: TexTarget::D2, texture: m.diffuse.spec_texture() },
    ]);
    assert(bind_cmds("material"@, v, slot) =~= material_bind_cmds(m, slot));
}

/// The reflected field table of a material.
pub open spec fn material_fields() -> FieldTable {
    seq![
        ("diffuse"@, FieldKind::Scalar(GlslPrim::Sampler2d)),
        ("specular"@, FieldKind::Scalar(GlslPrim::Sampler2d)),
        ("shininess"@, FieldKind::Scalar(GlslPrim::Float)),
    ]
}

impl ShaderTypeDef for Material {
    open spec fn spec_type_def() -> Seq<char> {
        struct_decl_text("Material"@, material_fields())
    }

    fn type_def() -> (r: String)
        ensures
            r@ == Self::spec_type_def(),
    {
        let mut fields: Vec<(String, FieldKind)> = Vec::new();
        fields.push(("diffuse".to_owned(), FieldKind::Scalar(GlslPrim::Sampler2d)));
        fields.push(("specular".to_owned(), FieldKind::Scalar(GlslPrim::Sampler2d)));
        fields.push(("shininess".to_owned(), FieldKind::Scalar(GlslPrim::Float)));
        proof {
            assert(fields.deep_view() =~= material_fields());
        }
        struct_decl("Material", &fields)
    }
}

} // verus!
