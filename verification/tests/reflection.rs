use renderer::light::{DirLight, PointLight};
use renderer::material::Material;
use renderer::camera::CameraBlock;
use renderer::reflect::{field_decl, struct_decl, FieldKind, GlslPrim};
use renderer::shader::{preprocess_source, ShaderBlockDef, ShaderTypeDef};
use renderer::scene::standard_defs;

#[test]
fn dir_light_declaration_matches_field_order() {
    let def = DirLight::type_def();
    assert_eq!(
        def,
        "struct DirLight { \n  vec3 direction;\nvec3 ambient;\nvec3 diffuse;\nvec3 specular; \n};"
    );
}

#[test]
fn point_light_declaration_mixes_vectors_and_floats() {
    let def = PointLight::type_def();
    assert!(def.starts_with("struct PointLight { \n  vec3 position;"));
    assert!(def.contains("float constant;\nfloat linear;\nfloat quadratic;"));
}

#[test]
fn material_declaration_uses_samplers() {
    let def = Material::type_def();
    assert_eq!(
        def,
        "struct Material { \n  sampler2D diffuse;\nsampler2D specular;\nfloat shininess; \n};"
    );
}

#[test]
fn camera_block_is_declared_as_std140_uniform() {
    let def = CameraBlock::block_def();
    assert_eq!(
        def,
        "layout (std140) uniform CameraBlock { \n  vec3 view_pos;\nmat4 view;\nmat4 projection; \n};"
    );
}

#[test]
fn array_fields_get_a_fixed_capacity_and_a_length() {
    let decl = field_decl("dir_lights", FieldKind::Array(GlslPrim::Vec3));
    assert_eq!(decl, "vec3 dir_lights[4]; int dir_lights_len;");
}

#[test]
fn struct_decl_of_no_fields_is_empty_bodied() {
    let fields: Vec<(String, FieldKind)> = Vec::new();
    assert_eq!(struct_decl("Empty", &fields), "struct Empty { \n   \n};");
}

#[test]
fn preprocess_prepends_header_and_defs() {
    let out = preprocess_source("#version 330 core", "struct X { \n  float a; \n};", "void main() {}");
    assert_eq!(out, "#version 330 core\nstruct X { \n  float a; \n};\nvoid main() {}");
}

#[test]
fn standard_defs_contains_every_registered_type() {
    let defs = standard_defs();
    assert!(defs.contains("uniform CameraBlock"));
    assert!(defs.contains("struct Material"));
    assert!(defs.contains("struct PointLight"));
    assert!(defs.contains("struct DirLight"));
    assert!(defs.contains("struct SpotLight"));
}
