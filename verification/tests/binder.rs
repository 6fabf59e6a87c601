use renderer::command::{GlCommand, TexTarget};
use renderer::shader::{ActiveShader, Shader, UniformValue, UNIFORM_ARRAY_CAPACITY};

fn names_of(cmds: &[GlCommand]) -> Vec<String> {
    cmds.iter()
        .map(|c| match c {
            GlCommand::UniformInt { name, .. } => name.clone(),
            GlCommand::UniformUint { name, .. } => name.clone(),
            GlCommand::UniformFloat { name, .. } => name.clone(),
            GlCommand::UniformVec3 { name, .. } => name.clone(),
            _ => String::new(),
        })
        .collect()
}

#[test]
fn composite_visits_fields_in_declaration_order() {
    let value = UniformValue::Composite(vec![
        ("alpha".to_string(), UniformValue::Float(1)),
        ("beta".to_string(), UniformValue::Int(2)),
        ("gamma".to_string(), UniformValue::Uint(3)),
    ]);
    let mut binder = ActiveShader::new(7);
    let mut out = Vec::new();
    binder.bind_uniform("thing", &value, &mut out);
    assert_eq!(names_of(&out), vec!["thing.alpha", "thing.beta", "thing.gamma"]);
    assert!(matches!(out[0], GlCommand::UniformFloat { bits: 1, .. }));
    assert!(matches!(out[1], GlCommand::UniformInt { value: 2, .. }));
    assert!(matches!(out[2], GlCommand::UniformUint { value: 3, .. }));
}

#[test]
fn collection_below_capacity_writes_len_then_elements() {
    let items = vec![
        UniformValue::Float(10),
        UniformValue::Float(11),
        UniformValue::Float(12),
    ];
    let value = UniformValue::Collection(items);
    let mut binder = ActiveShader::new(1);
    let mut out = Vec::new();
    binder.bind_uniform("xs", &value, &mut out);
    assert_eq!(out.len(), 4);
    assert!(matches!(&out[0], GlCommand::UniformInt { name, value: 3 } if name == "xs_len"));
    assert!(matches!(&out[1], GlCommand::UniformFloat { name, bits: 10 } if name == "xs[0]"));
    assert!(matches!(&out[2], GlCommand::UniformFloat { name, bits: 11 } if name == "xs[1]"));
    assert!(matches!(&out[3], GlCommand::UniformFloat { name, bits: 12 } if name == "xs[2]"));
}

#[test]
fn collection_above_capacity_truncates_and_reports_capacity() {
    let items = (0..6).map(UniformValue::Float).collect::<Vec<_>>();
    let value = UniformValue::Collection(items);
    let mut binder = ActiveShader::new(1);
    let mut out = Vec::new();
    binder.bind_uniform("xs", &value, &mut out);
    assert_eq!(UNIFORM_ARRAY_CAPACITY, 4);
    assert_eq!(out.len(), 1 + UNIFORM_ARRAY_CAPACITY);
    assert!(matches!(&out[0], GlCommand::UniformInt { name, value: 4 } if name == "xs_len"));
    assert!(matches!(&out[4], GlCommand::UniformFloat { name, bits: 3 } if name == "xs[3]"));
}

#[test]
fn texture_slots_count_up_and_reset() {
    let mut binder = ActiveShader::new(3);
    assert_eq!(binder.new_texture_slot(), 0);
    assert_eq!(binder.new_texture_slot(), 1);
    assert_eq!(binder.new_texture_slot(), 2);
    binder.reset_textures();
    assert_eq!(binder.new_texture_slot(), 0);
}

#[test]
fn slot_counters_are_per_activation_not_global() {
    let shader_a = Shader::new(10);
    let shader_b = Shader::new(11);
    let mut out = Vec::new();
    let mut binding_a = shader_a.activate(&mut out);
    let texture = UniformValue::Texture(TexTarget::D2, 99);
    binding_a.bind_uniform("tex", &texture, &mut out);
    // Shader A consumed slot 0; activating B without resetting must still
    // hand B's first texture slot 0.
    let mut binding_b = shader_b.activate(&mut out);
    assert_eq!(binding_b.new_texture_slot(), 0);
}

#[test]
fn binding_a_texture_writes_slot_and_binds_the_unit() {
    let mut binder = ActiveShader::new(5);
    let mut out = Vec::new();
    let texture = UniformValue::Texture(TexTarget::Cube, 42);
    binder.bind_uniform("skybox", &texture, &mut out);
    assert_eq!(out.len(), 3);
    assert!(matches!(&out[0], GlCommand::UniformInt { name, value: 0 } if name == "skybox"));
    assert!(matches!(out[1], GlCommand::ActiveTexture { slot: 0 }));
    assert!(matches!(out[2], GlCommand::BindTexture { target: TexTarget::Cube, texture: 42 }));
}
