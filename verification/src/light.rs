use vstd::prelude::*;
use vstd::string::StringExecFns;
use crate::math::Vec3Bits;
use crate::reflect::{struct_decl, struct_decl_text, FieldKind, FieldTable, GlslPrim};
use crate::shader::{ShaderTypeDef, UniformValue};

verus! {

/// A directional light: parallel rays from a fixed direction.
#[derive(Clone, Copy, PartialEq, Eq, Structural, Debug)]
pub struct DirLight {
    pub direction: Vec3Bits,
    pub ambient: Vec3Bits,
    pub diffuse: Vec3Bits,
    pub specular: Vec3Bits,
}

/// A point light with distance attenuation.
#[derive(Clone, Copy, PartialEq, Eq, Structural, Debug)]
pub struct PointLight {
    pub position: Vec3Bits,
    pub ambient: Vec3Bits,
    pub diffuse: Vec3Bits,
    pub specular: Vec3Bits,
    pub constant: u32,
    pub linear: u32,
    pub quadratic: u32,
}

/// A spot light: a cone from a position along a direction.
#[derive(Clone, Copy, PartialEq, Eq, Structural, Debug)]
pub struct SpotLight {
    pub position: Vec3Bits,
    pub direction: Vec3Bits,
    pub inner_cut_off: u32,
    pub outer_cut_off: u32,
    pub diffuse: Vec3Bits,
    pub specular: Vec3Bits,
    pub constant: u32,
    pub linear: u32,
    pub quadratic: u32,
}

/// The uniform value of a directional light: its fields in declaration
/// order.
pub open spec fn is_dir_light_value(l: DirLight, v: UniformValue) -> bool {
    &&& v matches UniformValue::Composite(fs)
    &&& fs@.len() == 4
    &&& fs@[0].0@ == "direction"@ && fs@[0].1 == UniformValue::Vector3(l.direction)
    &&& fs@[1].0@ == "ambient"@ && fs@[1].1 == UniformValue::Vector3(l.ambient)
    &&& fs@[2].0@ == "diffuse"@ && fs@[2].1 == UniformValue::Vector3(l.diffuse)
    &&& fs@[3].0@ == "specular"@ && fs@[3].1 == UniformValue::Vector3(l.specular)
}

/// The uniform value of a point light: its fields in declaration order.
pub open spec fn is_point_light_value(l: PointLight, v: UniformValue) -> bool {
    &&& v matches UniformValue::Composite(fs)
    &&& fs@.len() == 7
    &&& fs@[0].0@ == "position"@ && fs@[0].1 == UniformValue::Vector3(l.position)
    &&& fs@[1].0@ == "ambient"@ && fs@[1].1 == UniformValue::Vector3(l.ambient)
    &&& fs@[2].0@ == "diffuse"@ && fs@[2].1 == UniformValue::Vector3(l.diffuse)
    &&& fs@[3].0@ == "specular"@ && fs@[3].1 == UniformValue::Vector3(l.specular)
    &&& fs@[4].0@ == "constant"@ && fs@[4].1 == UniformValue::Float(l.constant)
    &&& fs@[5].0@ == "linear"@ && fs@[5].1 == UniformValue::Float(l.linear)
    &&& fs@[6].0@ == "quadratic"@ && fs@[6].1 == UniformValue::Float(l.quadratic)
}

/// The uniform value of a spot light: its fields in declaration order.
pub open spec fn is_spot_light_value(l: SpotLight, v: UniformValue) -> bool {
    &&& v matches UniformValue::Composite(fs)
    &&& fs@.len() == 9
    &&& fs@[0].0@ == "position"@ && fs@[0].1 == UniformValue::Vector3(l.position)
    &&& fs@[1].0@ == "direction"@ && fs@[1].1 == UniformValue::Vector3(l.direction)
    &&& fs@[2].0@ == "inner_cut_off"@ && fs@[2].1 == UniformValue::Float(l.inner_cut_off)
    &&& fs@[3].0@ == "outer_cut_off"@ && fs@[3].1 == UniformValue::Float(l.outer_cut_off)
    &&& fs@[4].0@ == "diffuse"@ && fs@[4].1 == UniformValue::Vector3(l.diffuse)
    &&& fs@[5].0@ == "specular"@ && fs@[5].1 == UniformValue::Vector3(l.specular)
    &&& fs@[6].0@ == "constant"@ && fs@[6].1 == UniformValue::Float(l.constant)
    &&& fs@[7].0@ == "linear"@ && fs@[7].1 == UniformValue::Float(l.linear)
    &&& fs@[8].0@ == "quadratic"@ && fs@[8].1 == UniformValue::Float(l.quadratic)
}

impl DirLight {
    /// The light as a bindable composite uniform value.
    pub fn uniform_value(&self) -> (r: UniformValue)
        ensures
            is_dir_light_value(*self, r),
    {
        let mut fields: Vec<(String, UniformValue)> = Vec::new();
        fields.push(("direction".to_owned(), UniformValue::Vector3(self.direction)));
        fields.push(("ambient".to_owned(), UniformValue::Vector3(self.ambient)));
        fields.push(("diffuse".to_owned(), UniformValue::Vector3(self.diffuse)));
        fields.push(("specular".to_owned(), UniformValue::Vector3(self.specular)));
        UniformValue::Composite(fields)
    }
}

impl PointLight {
    /// The light as a bindable composite uniform value.
    pub fn uniform_value(&self) -> (r: UniformValue)
        ensures
            is_point_light_value(*self, r),
    {
        let mut fields: Vec<(String, UniformValue)> = Vec::new();
        fields.push(("position".to_owned(), UniformValue::Vector3(self.position)));
        fields.push(("ambient".to_owned(), UniformValue::Vector3(self.ambient)));
        fields.push(("diffuse".to_owned(), UniformValue::Vector3(self.diffuse)));
        fields.push(("specular".to_owned(), UniformValue::Vector3(self.specular)));
        fields.push(("constant".to_owned(), UniformValue::Float(self.constant)));
        fields.push(("linear".to_owned(), UniformValue::Float(self.linear)));
        fields.push(("quadratic".to_owned(), UniformValue::Float(self.quadratic)));
        UniformValue::Composite(fields)
    }
}

impl SpotLight {
    /// The light as a bindable composite uniform value.
    pub fn uniform_value(&self) -> (r: UniformValue)
        ensures
            is_spot_light_value(*self, r),
    {
        let mut fields: Vec<(String, UniformValue)> = Vec::new();
        fields.push(("position".to_owned(), UniformValue::Vector3(self.position)));
        fields.push(("direction".to_owned(), UniformValue::Vector3(self.direction)));
        fields.push(("inner_cut_off".to_owned(), UniformValue::Float(self.inner_cut_off)));
        fields.push(("outer_cut_off".to_owned(), UniformValue::Float(self.outer_cut_off)));
        fields.push(("diffuse".to_owned(), UniformValue::Vector3(self.diffuse)));
        fields.push(("specular".to_owned(), UniformValue::Vector3(self.specular)));
        fields.push(("constant".to_owned(), UniformValue::Float(self.constant)));
        fields.push(("linear".to_owned(), UniformValue::Float(self.linear)));
        fields.push(("quadratic".to_owned(), UniformValue::Float(self.quadratic)));
        UniformValue::Composite(fields)
    }
}

/// The reflected field table of a directional light.
pub open spec fn dir_light_fields() -> FieldTable {
    seq![
        ("direction"@, FieldKind::Scalar(GlslPrim::Vec3)),
        ("ambient"@, FieldKind::Scalar(GlslPrim::Vec3)),
        ("diffuse"@, FieldKind::Scalar(GlslPrim::Vec3)),
        ("specular"@, FieldKind::Scalar(GlslPrim::Vec3)),
    ]
}

/// The reflected field table of a point light.
pub open spec fn point_light_fields() -> FieldTable {
    seq![
        ("position"@, FieldKind::Scalar(GlslPrim::Vec3)),
        ("ambient"@, FieldKind::Scalar(GlslPrim::Vec3)),
        ("diffuse"@, FieldKind::Scalar(GlslPrim::Vec3)),
        ("specular"@, FieldKind::Scalar(GlslPrim::Vec3)),
        ("constant"@, FieldKind::Scalar(GlslPrim::Float)),
        ("linear"@, FieldKind::Scalar(GlslPrim::Float)),
        ("quadratic"@, FieldKind::Scalar(GlslPrim::Float)),
    ]
}

/// The reflected field table of a spot light.
pub open spec fn spot_light_fields() -> FieldTable {
    seq![
        ("position"@, FieldKind::Scalar(GlslPrim::Vec3)),
        ("direction"@, FieldKind::Scalar(GlslPrim::Vec3)),
        ("inner_cut_off"@, FieldKind::Scalar(GlslPrim::Float)),
        ("outer_cut_off"@, FieldKind::Scalar(GlslPrim::Float)),
        ("diffuse"@, FieldKind::Scalar(GlslPrim::Vec3)),
        ("specular"@, FieldKind::Scalar(GlslPrim::Vec3)),
        ("constant"@, FieldKind::Scalar(GlslPrim::Float)),
        ("linear"@, FieldKind::Scalar(GlslPrim::Float)),
        ("quadratic"@, FieldKind::Scalar(GlslPrim::Float)),
    ]
}

impl ShaderTypeDef for DirLight {
    open spec fn spec_type_def() -> Seq<char> {
        struct_decl_text("DirLight"@, dir_light_fields())
    }

    fn type_def() -> (r: String)
        ensures
            r@ == Self::spec_type_def(),
    {
        let mut fields: Vec<(String, FieldKind)> = Vec::new();
        fields.push(("direction".to_owned(), FieldKind::Scalar(GlslPrim::Vec3)));
        fields.push(("ambient".to_owned(), FieldKind::Scalar(GlslPrim::Vec3)));
        fields.push(("diffuse".to_owned(), FieldKind::Scalar(GlslPrim::Vec3)));
        fields.push(("specular".to_owned(), FieldKind::Scalar(GlslPrim::Vec3)));
        proof {
            assert(fields.deep_view() =~= dir_light_fields());
        }
        struct_decl("DirLight", &fields)
    }
}

impl ShaderTypeDef for PointLight {
    open spec fn spec_type_def() -> Seq<char> {
        struct_decl_text("PointLight"@, point_light_fields())
    }

    fn type_def() -> (r: String)
        ensures
            r@ == Self::spec_type_def(),
    {
        let mut fields: Vec<(String, FieldKind)> = Vec::new();
        fields.push(("position".to_owned(), FieldKind::Scalar(GlslPrim::Vec3)));
        fields.push(("ambient".to_owned(), FieldKind::Scalar(GlslPrim::Vec3)));
        fields.push(("diffuse".to_owned(), FieldKind::Scalar(GlslPrim::Vec3)));
        fields.push(("specular".to_owned(), FieldKind::Scalar(GlslPrim::Vec3)));
        fields.push(("constant".to_owned(), FieldKind::Scalar(GlslPrim::Float)));
        fields.push(("linear".to_owned(), FieldKind::Scalar(GlslPrim::Float)));
        fields.push(("quadratic".to_owned(), FieldKind::Scalar(GlslPrim::Float)));
        proof {
            assert(fields.deep_view() =~= point_light_fields());
        }
        struct_decl("PointLight", &fields)
    }
}

impl ShaderTypeDef for SpotLight {
    open spec fn spec_type_def() -> Seq<char> {
        struct_decl_text("SpotLight"@, spot_light_fields())
    }

    fn type_def() -> (r: String)
        ensures
            r@ == Self::spec_type_def(),
    {
        let mut fields: Vec<(String, FieldKind)> = Vec::new();
        fields.push(("position".to_owned(), FieldKind::Scalar(GlslPrim::Vec3)));
        fields.push(("direction".to_owned(), FieldKind::Scalar(GlslPrim::Vec3)));
        fields.push(("inner_cut_off".to_owned(), FieldKind::Scalar(GlslPrim::Float)));
        fields.push(("outer_cut_off".to_owned(), FieldKind::Scalar(GlslPrim::Float)));
        fields.push(("diffuse".to_owned(), FieldKind::Scalar(GlslPrim::Vec3)));
        fields.push(("specular".to_owned(), FieldKind::Scalar(GlslPrim::Vec3)));
        fields.push(("constant".to_owned(), FieldKind::Scalar(GlslPrim::Float)));
        fields.push(("linear".to_owned(), FieldKind::Scalar(GlslPrim::Float)));
        fields.push(("quadratic".to_owned(), FieldKind::Scalar(GlslPrim::Float)));
        proof {
            assert(fields.deep_view() =~= spot_light_fields());
        }
        struct_decl("SpotLight", &fields)
    }
}

} // verus!
