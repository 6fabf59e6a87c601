use renderer::screen_capture::{check_framebuffer_status, FRAMEBUFFER_COMPLETE};
use renderer::shader::{check_compile_status, check_link_status, ShaderError, ShaderStage};
use renderer::std140::{GlmStd140Ext, Std140Value};
use renderer::math::Vec3Bits;

#[test]
fn compile_failures_carry_the_stage_and_the_driver_log() {
    assert!(check_compile_status(ShaderStage::Vertex, true, String::new()).is_ok());
    let err = check_compile_status(ShaderStage::Fragment, false, "bad token".to_string());
    assert_eq!(
        err.unwrap_err(),
        ShaderError::Compile(ShaderStage::Fragment, "bad token".to_string())
    );
}

#[test]
fn link_failures_carry_the_driver_log() {
    assert!(check_link_status(true, String::new()).is_ok());
    assert_eq!(
        check_link_status(false, "undefined symbol".to_string()).unwrap_err(),
        ShaderError::Link("undefined symbol".to_string())
    );
}

#[test]
fn incomplete_framebuffers_are_rejected() {
    assert!(check_framebuffer_status(FRAMEBUFFER_COMPLETE).is_ok());
    assert!(check_framebuffer_status(0).is_err());
}

#[test]
fn vectors_convert_to_their_block_fields() {
    let v = Vec3Bits { x: 1, y: 2, z: 3 };
    assert_eq!(v.to_std140(), Std140Value::Vec3(v));
}
