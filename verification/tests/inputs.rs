use renderer::user_inputs::{InputEvent, UserInputs};

#[test]
fn keys_toggle_and_just_pressed_fires_once() {
    let mut inputs = UserInputs::default();
    const W: u8 = 17;
    assert!(!inputs.pressed(W));
    inputs.update(&InputEvent::KeyPressed(W));
    assert!(inputs.pressed(W));
    assert!(inputs.just_pressed(W));
    inputs.update(&InputEvent::Other);
    assert!(inputs.pressed(W));
    assert!(!inputs.just_pressed(W));
    inputs.update(&InputEvent::KeyReleased(W));
    assert!(!inputs.pressed(W));
}

#[test]
fn mouse_delta_resets_when_no_motion_arrives() {
    let mut inputs = UserInputs::default();
    let dx = 0x3F80_0000; // 1.0f32
    let dy = 0x4000_0000; // 2.0f32
    inputs.update(&InputEvent::MouseMotion { dx_bits: dx, dy_bits: dy });
    assert_eq!(inputs.mouse_delta, (dx, dy));
    inputs.update(&InputEvent::Other);
    assert_eq!(inputs.mouse_delta, (0, 0));
}
