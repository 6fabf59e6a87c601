use core::marker::PhantomData;
use renderer::camera::CameraBlock;
use renderer::command::{BufferUsage, Capability, GlCommand, TexTarget};
use renderer::material::Material;
use renderer::math::{Mat4Cols, Vec2Bits, Vec3Bits, Vec4Bits};
use renderer::mesh::{Mesh, Vertex};
use renderer::scene::{Entity, Scene};
use renderer::screen_capture::{cycle_effect, Framebuffer, ScreenCapture, NUM_EFFECTS};
use renderer::shader::{ActiveShader, Shader};
use renderer::std140::UniformBlock;
use renderer::text::{BrushUpdate, Font, Text};
use renderer::texture::{Texture, RGBA};

fn quad_vertices() -> Vec<Vertex> {
    let v = |x: u32| Vertex {
        position: Vec3Bits { x, y: 0, z: 0 },
        normal: Vec3Bits { x: 0, y: 0, z: 0 },
        tex_coords: Vec2Bits { x: 0, y: 0 },
    };
    vec![v(1), v(2), v(3)]
}

fn texture(id: u32) -> Texture<renderer::texture::T2d> {
    Texture { texture: id, format: RGBA, marker: PhantomData }
}

fn plain_mesh(vao: u32, material: Option<Material>) -> Mesh {
    let mut setup = Vec::new();
    Mesh::new(quad_vertices(), vec![0, 1, 2], material, vao, vao + 1, vao + 2, &mut setup)
}

fn identity() -> Mat4Cols {
    let one = 0x3F80_0000;
    Mat4Cols {
        c0: Vec4Bits { x: one, y: 0, z: 0, w: 0 },
        c1: Vec4Bits { x: 0, y: one, z: 0, w: 0 },
        c2: Vec4Bits { x: 0, y: 0, z: one, w: 0 },
        c3: Vec4Bits { x: 0, y: 0, z: 0, w: one },
    }
}

#[test]
fn from_flat_array_groups_eight_words_per_vertex() {
    let flat: Vec<u32> = (0..16).collect();
    let vertices = Vertex::from_flat_array(&flat);
    assert_eq!(vertices.len(), 2);
    assert_eq!(vertices[0].position, Vec3Bits { x: 0, y: 1, z: 2 });
    assert_eq!(vertices[0].normal, Vec3Bits { x: 3, y: 4, z: 5 });
    assert_eq!(vertices[0].tex_coords, Vec2Bits { x: 6, y: 7 });
    assert_eq!(vertices[1].position, Vec3Bits { x: 8, y: 9, z: 10 });
}

#[test]
fn mesh_new_uploads_little_endian_index_bytes() {
    let mut out = Vec::new();
    let _mesh = Mesh::new(quad_vertices(), vec![0x01020304, 5], None, 1, 2, 3, &mut out);
    let index_bytes = out.iter().find_map(|c| match c {
        GlCommand::BufferData { bytes, usage: BufferUsage::Static, .. } => Some(bytes.clone()),
        _ => None,
    });
    assert_eq!(index_bytes.unwrap(), vec![0x04, 0x03, 0x02, 0x01, 5, 0, 0, 0]);
}

#[test]
fn mesh_draw_binds_material_at_slots_zero_and_one_then_resets() {
    let material = Material { diffuse: texture(7), specular: texture(8), shininess: 16 };
    let mesh = plain_mesh(40, Some(material));
    let mut binder = ActiveShader::new(1);
    let mut out = Vec::new();
    mesh.draw(&mut binder, &mut out);
    assert!(matches!(&out[0], GlCommand::UniformInt { name, value: 0 } if name == "material.diffuse"));
    assert!(matches!(out[2], GlCommand::BindTexture { target: TexTarget::D2, texture: 7 }));
    assert!(matches!(&out[3], GlCommand::UniformInt { name, value: 1 } if name == "material.specular"));
    assert!(matches!(&out[6], GlCommand::UniformFloat { name, bits: 16 } if name == "material.shininess"));
    assert!(matches!(out[8], GlCommand::DrawElements { count: 3 }));
    // Texture slots are rewound after every mesh draw.
    assert_eq!(binder.new_texture_slot(), 0);
}

#[test]
fn effect_selector_cycles_both_ways() {
    assert_eq!(cycle_effect(0, false), 1);
    assert_eq!(cycle_effect(NUM_EFFECTS - 1, false), 0);
    assert_eq!(cycle_effect(0, true), NUM_EFFECTS - 1);
    assert_eq!(cycle_effect(3, true), 2);
}

#[test]
fn replay_draws_the_captured_frame_with_the_chosen_effect() {
    let mut setup = Vec::new();
    let framebuffer = Framebuffer::new(640, 480, 2, 3, 4, &mut setup);
    let capture = ScreenCapture {
        framebuffer,
        screen_shader: Shader::new(50),
        screen_geom: plain_mesh(60, None),
    };
    let mut out = Vec::new();
    capture.record(&mut out);
    assert!(matches!(out[0], GlCommand::BindFramebuffer { fbo: 2 }));
    capture.replay(4, &mut out);
    assert!(out.iter().any(|c| matches!(c, GlCommand::UnbindFramebuffer)));
    assert!(out
        .iter()
        .any(|c| matches!(c, GlCommand::UniformInt { name, value: 4 } if name == "effect")));
    assert!(out
        .iter()
        .any(|c| matches!(c, GlCommand::Disable { cap: Capability::DepthTest })));
}

#[test]
fn scene_draws_passes_in_order_and_grasses_back_to_front() {
    let entity = |vao: u32, tag: u32| {
        let mut t = [0u32; 16];
        t[15] = tag;
        Entity { model: plain_mesh(vao, None).to_model(), transform: t }
    };
    let mut setup = Vec::new();
    let camera_ubo = UniformBlock::new(0, 70, 144, &mut setup);
    let mut scene = Scene {
        floor: entity(10, 100),
        cubes: vec![entity(20, 200)],
        grasses: vec![entity(30, 300), entity(31, 301), entity(32, 302)],
        exploder: entity(40, 400),
        light_shader: Shader::new(80),
        point_lights: vec![],
        spot_lights: vec![],
        dir_lights: vec![],
        text_shader: Shader::new(81),
        text: Text::new("hi".to_string(), "mono".to_string(), 48, Vec4Bits { x: 0, y: 0, z: 0, w: 0 }, Vec2Bits { x: 0, y: 0 }),
        font: Font {
            name: "mono".to_string(),
            texture: texture(90),
            vertex_array: 91,
            vertex_buffer: 92,
            vertex_count: 0,
        },
        camera_ubo,
        skybox_shader: Shader::new(82),
        skybox: plain_mesh(50, None),
        skybox_texture: Texture { texture: 95, format: RGBA, marker: PhantomData },
    };
    let block = CameraBlock { view_pos: Vec3Bits { x: 0, y: 0, z: 0 }, view: identity(), projection: identity() };
    // Grass entities at distances [5, 1, 3] from the camera.
    let keys = vec![25u64, 1, 9];
    let mut out = Vec::new();
    scene.draw(&block, 0, &keys, &vec![], &BrushUpdate::Keep, &[0u32; 16], &mut out);
    // The shaders are activated in pass order.
    let programs: Vec<u32> = out
        .iter()
        .filter_map(|c| match c {
            GlCommand::UseProgram { program } => Some(*program),
            _ => None,
        })
        .collect();
    assert_eq!(programs, vec![80, 82, 81]);
    // Entities are drawn with their transforms: floor, cube, exploder, then
    // the grasses farthest first ([5, 3, 1] means tags 300, 302, 301).
    let tags: Vec<u32> = out
        .iter()
        .filter_map(|c| match c {
            GlCommand::UniformMat4 { name, m } if name == "model" => Some(m[15]),
            _ => None,
        })
        .collect();
    assert_eq!(tags, vec![100, 200, 400, 300, 302, 301, 0]);
    // The explode switch is raised exactly around the exploder.
    let switches: Vec<i32> = out
        .iter()
        .filter_map(|c| match c {
            GlCommand::UniformInt { name, value } if name == "should_explode" => Some(*value),
            _ => None,
        })
        .collect();
    assert_eq!(switches, vec![0, 1, 0]);
}

#[test]
fn font_draw_streams_new_quads_and_draws_instanced() {
    let mut font = Font {
        name: "mono".to_string(),
        texture: texture(9),
        vertex_array: 1,
        vertex_buffer: 2,
        vertex_count: 0,
    };
    let quad = renderer::text::TextVertex {
        left_top: Vec2Bits { x: 1, y: 2 },
        right_bottom: Vec2Bits { x: 3, y: 4 },
        tex_left_top: Vec2Bits { x: 5, y: 6 },
        tex_right_bottom: Vec2Bits { x: 7, y: 8 },
        z: 9,
        color: Vec4Bits { x: 10, y: 11, z: 12, w: 13 },
    };
    let mut out = Vec::new();
    let _binder = font.draw(
        &Shader::new(33),
        &vec![],
        &BrushUpdate::Draw(vec![quad, quad]),
        &[0u32; 16],
        &mut out,
    );
    assert_eq!(font.vertex_count, 2);
    assert!(out
        .iter()
        .any(|c| matches!(c, GlCommand::DrawArraysInstanced { instances: 2 })));
    let streamed = out.iter().find_map(|c| match c {
        GlCommand::BufferData { bytes, usage: BufferUsage::Dynamic, .. } => Some(bytes.len()),
        _ => None,
    });
    // Two quads of thirteen 32-bit words each.
    assert_eq!(streamed.unwrap(), 2 * 13 * 4);
}
