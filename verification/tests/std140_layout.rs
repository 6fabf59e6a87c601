use renderer::math::{Vec3Bits, Vec4Bits};
use renderer::std140::{std140_encode_bytes, Std140Value, UniformBlock};
use renderer::command::GlCommand;

#[test]
fn float_is_padded_to_a_sixteen_byte_struct() {
    let one = 0x3F80_0000u32; // 1.0f32
    let bytes = std140_encode_bytes(&vec![Std140Value::Float(one)]);
    assert_eq!(bytes.len(), 16);
    assert_eq!(&bytes[0..4], &[0x00, 0x00, 0x80, 0x3F]);
    assert_eq!(&bytes[4..16], &[0u8; 12]);
}

#[test]
fn vec3_then_float_packs_into_the_tail() {
    let v = Vec3Bits { x: 1, y: 2, z: 3 };
    let bytes = std140_encode_bytes(&vec![Std140Value::Vec3(v), Std140Value::Float(4)]);
    // vec3 at offset 0 (12 bytes), float fits right after at offset 12.
    assert_eq!(bytes.len(), 16);
    assert_eq!(bytes[0], 1);
    assert_eq!(bytes[4], 2);
    assert_eq!(bytes[8], 3);
    assert_eq!(bytes[12], 4);
}

#[test]
fn camera_shaped_block_is_144_bytes() {
    let col = |a: u32| Vec4Bits { x: a, y: a + 1, z: a + 2, w: a + 3 };
    let fields = vec![
        Std140Value::Vec3(Vec3Bits { x: 7, y: 8, z: 9 }),
        Std140Value::Mat4(col(10), col(20), col(30), col(40)),
        Std140Value::Mat4(col(50), col(60), col(70), col(80)),
    ];
    let bytes = std140_encode_bytes(&fields);
    assert_eq!(bytes.len(), 144);
    // The first mat4 column starts at offset 16 after the padded vec3.
    assert_eq!(bytes[16], 10);
    // The second matrix starts at offset 80.
    assert_eq!(bytes[80], 50);
}

#[test]
fn upload_stores_exactly_the_encoded_bytes() {
    let mut out: Vec<GlCommand> = Vec::new();
    let mut block = UniformBlock::new(0, 77, 16, &mut out);
    let value = vec![Std140Value::Float(0x4048_F5C3)]; // 3.14f32
    block.upload(&value, &mut out);
    let expected = std140_encode_bytes(&value);
    // A raw read of the buffer yields the std140 encoding of the value.
    assert_eq!(block.read_back().as_slice(), expected.as_slice());
    let uploaded = out.iter().find_map(|c| match c {
        GlCommand::BufferSubData { bytes, .. } => Some(bytes.clone()),
        _ => None,
    });
    assert_eq!(uploaded.unwrap(), expected);
}
