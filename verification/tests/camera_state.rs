use renderer::camera::{Camera, PITCH_LIMIT_MDEG};
use renderer::math::{Mat4Cols, Vec3Bits, Vec4Bits};

fn identity() -> Mat4Cols {
    let z = |x: u32, y: u32, zz: u32, w: u32| Vec4Bits { x, y, z: zz, w };
    let one = 0x3F80_0000;
    Mat4Cols {
        c0: z(one, 0, 0, 0),
        c1: z(0, one, 0, 0),
        c2: z(0, 0, one, 0),
        c3: z(0, 0, 0, one),
    }
}

#[test]
fn pitch_is_clamped_no_matter_how_far_the_mouse_moves() {
    let pos = Vec3Bits { x: 0, y: 0, z: 0 };
    let mut camera = Camera::new(pos, identity(), 0, 0);
    for _ in 0..100 {
        camera.update(0, -10_000);
    }
    assert_eq!(camera.pitch, -PITCH_LIMIT_MDEG);
    for _ in 0..500 {
        camera.update(0, 7_000);
    }
    assert_eq!(camera.pitch, PITCH_LIMIT_MDEG);
}

#[test]
fn yaw_accumulates_without_clamping() {
    let pos = Vec3Bits { x: 0, y: 0, z: 0 };
    let mut camera = Camera::new(pos, identity(), 90_000, 0);
    camera.update(270_000, 0);
    assert_eq!(camera.yaw, 360_000);
    camera.update(45_000, 0);
    assert_eq!(camera.yaw, 405_000);
}

#[test]
fn initial_pitch_is_clamped_too() {
    let pos = Vec3Bits { x: 0, y: 0, z: 0 };
    let camera = Camera::new(pos, identity(), 0, 1_000_000);
    assert_eq!(camera.pitch, PITCH_LIMIT_MDEG);
}

#[test]
fn camera_block_carries_position_view_and_projection() {
    let pos = Vec3Bits { x: 1, y: 2, z: 3 };
    let camera = Camera::new(pos, identity(), 0, 0);
    let block = camera.uniform_block(identity());
    assert_eq!(block.view_pos, pos);
    assert_eq!(block.projection, identity());
}
