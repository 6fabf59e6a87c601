use core::marker::PhantomData;
use renderer::command::{GlCommand, TexImageTarget, TexTarget};
use renderer::img::ImageData;
use renderer::texture::{
    Texture, TextureBuilder, CLAMP_TO_EDGE, LINEAR, RED, RGB, RGBA, TEXTURE_MAG_FILTER,
    TEXTURE_WRAP_S,
};

#[test]
fn build_flips_rows_by_default() {
    // A 1x2 RGBA image: top row [1,2,3,4], bottom row [5,6,7,8].
    let image = ImageData { width: 1, height: 2, pixels: vec![1, 2, 3, 4, 5, 6, 7, 8] };
    let mut out = Vec::new();
    let texture = TextureBuilder::new().build(&image, 9, &mut out);
    assert_eq!(texture.texture, 9);
    let uploaded = out.iter().find_map(|c| match c {
        GlCommand::TexImage2d { pixels: Some(p), width, height, .. } => {
            Some((p.clone(), *width, *height))
        }
        _ => None,
    });
    let (pixels, w, h) = uploaded.unwrap();
    assert_eq!((w, h), (1, 2));
    // Bottom row first after the vertical flip.
    assert_eq!(pixels, vec![5, 6, 7, 8, 1, 2, 3, 4]);
}

#[test]
fn rgb_format_drops_the_alpha_byte() {
    let image = ImageData { width: 2, height: 1, pixels: vec![1, 2, 3, 250, 4, 5, 6, 251] };
    let mut out = Vec::new();
    let _texture = TextureBuilder::new().with_format(RGB).with_flip(false).build(&image, 1, &mut out);
    let uploaded = out.iter().find_map(|c| match c {
        GlCommand::TexImage2d { pixels: Some(p), .. } => Some(p.clone()),
        _ => None,
    });
    assert_eq!(uploaded.unwrap(), vec![1, 2, 3, 4, 5, 6]);
}

#[test]
fn with_tex_parameter_overrides_a_default() {
    let mut out = Vec::new();
    let image = ImageData { width: 1, height: 1, pixels: vec![0, 0, 0, 0] };
    let _texture = TextureBuilder::new()
        .with_tex_parameter(TEXTURE_WRAP_S, CLAMP_TO_EDGE)
        .build(&image, 1, &mut out);
    let wrap_s: Vec<u32> = out
        .iter()
        .filter_map(|c| match c {
            GlCommand::TexParameter { parameter, value, .. } if *parameter == TEXTURE_WRAP_S => {
                Some(*value)
            }
            _ => None,
        })
        .collect();
    assert_eq!(wrap_s, vec![CLAMP_TO_EDGE]);
}

#[test]
fn cubemap_build_uploads_six_faces_in_order() {
    let face = |v: u8| ImageData { width: 1, height: 1, pixels: vec![v, v, v, v] };
    let images = vec![face(0), face(1), face(2), face(3), face(4), face(5)];
    let mut out = Vec::new();
    let builder = TextureBuilder::new().as_cubemap();
    let texture = builder.build(&images, 3, &mut out);
    assert_eq!(texture.texture, 3);
    let faces: Vec<(u32, u8)> = out
        .iter()
        .filter_map(|c| match c {
            GlCommand::TexImage2d { target: TexImageTarget::CubeFace(i), pixels: Some(p), .. } => {
                Some((*i, p[0]))
            }
            _ => None,
        })
        .collect();
    assert_eq!(faces, vec![(0, 0), (1, 1), (2, 2), (3, 3), (4, 4), (5, 5)]);
}

#[test]
fn render_texture_allocates_storage_without_pixels() {
    let mut out = Vec::new();
    let texture = TextureBuilder::new()
        .with_format(RED)
        .with_tex_parameter(TEXTURE_MAG_FILTER, LINEAR)
        .render_texture(64, 32, 5, &mut out);
    assert_eq!(texture.format, RED);
    assert!(out.iter().any(|c| matches!(
        c,
        GlCommand::TexImage2d { pixels: None, width: 64, height: 32, .. }
    )));
}

#[test]
fn sub_image_updates_a_region_of_an_existing_texture() {
    let texture: Texture<renderer::texture::T2d> =
        Texture { texture: 8, format: RGBA, marker: PhantomData };
    let mut out = Vec::new();
    texture.sub_image(2, 3, 4, 5, vec![9, 9], &mut out);
    assert!(matches!(out[0], GlCommand::BindTexture { target: TexTarget::D2, texture: 8 }));
    assert!(matches!(
        &out[1],
        GlCommand::TexSubImage2d { x: 2, y: 3, width: 4, height: 5, .. }
    ));
}
