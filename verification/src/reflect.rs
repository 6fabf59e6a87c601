use vstd::prelude::*;
use vstd::string::StringExecFns;

verus! {

/// The GLSL primitive a host field maps onto.
#[derive(Clone, Copy, PartialEq, Eq, Structural, Debug)]
pub enum GlslPrim {
    /// `float`
    Float,
    /// `vec2`
    Vec2,
    /// `vec3`
    Vec3,
    /// `vec4`
    Vec4,
    /// `mat4`
    Mat4,
    /// `sampler2D`
    Sampler2d,
    /// `samplerCube`
    SamplerCube,
}

/// The kind of one field of a reflected host type.
#[derive(Clone, Copy, PartialEq, Eq, Structural, Debug)]
pub enum FieldKind {
    /// A single primitive: declared as `"{prim} {name};"`.
    Scalar(GlslPrim),
    /// A dynamic collection: declared as a fixed-capacity array
    /// `"{prim} {name}[4];"` plus a companion `"int {name}_len;"`, since
    /// GLSL uniform arrays require a compile-time size.
    Array(GlslPrim),
}

impl View for FieldKind {
    type V = FieldKind;

    open spec fn view(&self) -> FieldKind {
        *self
    }
}

impl DeepView for FieldKind {
    type V = FieldKind;

    open spec fn deep_view(&self) -> FieldKind {
        *self
    }
}

/// A reflected host type: its GLSL name and its fields in declaration order.
pub type FieldTable = Seq<(Seq<char>, FieldKind)>;

/// The GLSL spelling of a primitive.
pub open spec fn prim_text(p: GlslPrim) -> Seq<char> {
    match p {
        GlslPrim::Float => "float"@,
        GlslPrim::Vec2 => "vec2"@,
        GlslPrim::Vec3 => "vec3"@,
        GlslPrim::Vec4 => "vec4"@,
        GlslPrim::Mat4 => "mat4"@,
        GlslPrim::Sampler2d => "sampler2D"@,
        GlslPrim::SamplerCube => "samplerCube"@,
    }
}

/// The declaration text of one field.
pub open spec fn field_decl_text(name: Seq<char>, kind: FieldKind) -> Seq<char> {
    match kind {
        FieldKind::Scalar(p) => prim_text(p) + " "@ + name + ";"@,
        FieldKind::Array(p) => prim_text(p) + " "@ + name + "[4]; int "@ + name + "_len;"@,
    }
}

/// The field declarations joined by newlines, in declaration order.
pub open spec fn fields_text(fields: FieldTable) -> Seq<char>
    decreases fields,
{
    if fields.len() == 0 {
        Seq::empty()
    } else if fields.len() == 1 {
        field_decl_text(fields[0].0, fields[0].1)
    } else {
        field_decl_text(fields[0].0, fields[0].1) + "\n"@ + fields_text(fields.drop_first())
    }
}

/// The full GLSL `struct` declaration of a reflected type.
pub open spec fn struct_decl_text(name: Seq<char>, fields: FieldTable) -> Seq<char> {
    "struct "@ + name + " { \n  "@ + fields_text(fields) + " \n};"@
}

/// The full `layout (std140) uniform` block declaration of a reflected type.
pub open spec fn block_decl_text(name: Seq<char>, fields: FieldTable) -> Seq<char> {
    "layout (std140) uniform "@ + name + " { \n  "@ + fields_text(fields) + " \n};"@
}

/// The GLSL spelling of a primitive.
pub fn prim_glsl(p: GlslPrim) -> (r: &'static str)
    ensures
        r@ == prim_text(p),
{
    match p {
        GlslPrim::Float => "float",
        GlslPrim::Vec2 => "vec2",
        GlslPrim::Vec3 => "vec3",
        GlslPrim::Vec4 => "vec4",
        GlslPrim::Mat4 => "mat4",
        GlslPrim::Sampler2d => "sampler2D",
        GlslPrim::SamplerCube => "samplerCube",
    }
}

/// Renders the declaration of one field.
pub fn field_decl(name: &str, kind: FieldKind) -> (r: String)
    ensures
        r@ == field_decl_text(name@, kind),
{
    match kind {
        FieldKind::Scalar(p) => {
            let mut s = prim_glsl(p).to_owned();
            s.append(" ");
            s.append(name);
            s.append(";");
            s
        },
        FieldKind::Array(p) => {
            let mut s = prim_glsl(p).to_owned();
            s.append(" ");
            s.append(name);
            s.append("[4]; int ");
            s.append(name);
            s.append("_len;");
            s
        },
    }
}

/// Renders the field declarations from index `i` on, joined by newlines.
fn fields_decl_from(fields: &Vec<(String, FieldKind)>, i: usize) -> (r: String)
    requires
        i <= fields@.len(),
    ensures
        r@ == fields_text(fields.deep_view().skip(i as int)),
    decreases fields@.len() - i,
{
    proof {
        assert(fields.deep_view().len() == fields@.len());
    }
    if i == fields.len() {
        proof {
            assert(fields.deep_view().skip(i as int) =~= Seq::empty());
        }
        String::new()
    } else {
        proof {
            assert(fields.deep_view().skip(i as int)[0] == fields.deep_view()[i as int]);
            assert(fields.deep_view()[i as int].0 == fields@[i as int].0@);
            assert(fields.deep_view()[i as int].1 == fields@[i as int].1);
            assert(fields.deep_view().skip(i as int).drop_first() =~= fields.deep_view().skip(
                i as int + 1,
            ));
        }
        let pair = &fields[i];
        let mut s = field_decl(pair.0.as_str(), pair.1);
        if i + 1 < fields.len() {
            s.append("\n");
            let rest = fields_decl_from(fields, i + 1);
            s.append(rest.as_str());
        } else {
            proof {
                assert(fields.deep_view().skip(i as int).len() == 1);
            }
        }
        s
    }
}

/// Renders the GLSL `struct` declaration of a reflected type: the field
/// order matches host declaration order.
pub fn struct_decl(name: &str, fields: &Vec<(String, FieldKind)>) -> (r: String)
    ensures
        r@ == struct_decl_text(name@, fields.deep_view()),
{
    let mut s = "struct ".to_owned();
    s.append(name);
    s.append(" { \n  ");
    proof {
        assert(fields.deep_view().skip(0) =~= fields.deep_view());
    }
    let body = fields_decl_from(fields, 0);
    s.append(body.as_str());
    s.append(" \n};");
    s
}

/// Renders the `layout (std140) uniform` block declaration of a reflected
/// type.
pub fn block_decl(name: &str, fields: &Vec<(String, FieldKind)>) -> (r: String)
    ensures
        r@ == block_decl_text(name@, fields.deep_view()),
{
    let mut s = "layout (std140) uniform ".to_owned();
    s.append(name);
    s.append(" { \n  ");
    proof {
        assert(fields.deep_view().skip(0) =~= fields.deep_view());
    }
    let body = fields_decl_from(fields, 0);
    s.append(body.as_str());
    s.append(" \n};");
    s
}

} // verus!
