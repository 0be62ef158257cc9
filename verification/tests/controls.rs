use quadengine::camera::CameraOrthographic;
use quadengine::controller::{clamp, lerp, CameraController};
use quadengine::input::{InputEvent, InputSystem, KEY_A, KEY_W, KEY_Z};

fn press(input: &mut InputSystem, key: u32) {
    input.on_event(&InputEvent::Key { code: key, pressed: true });
}

#[test]
fn interpolation_in_thousandths() {
    assert_eq!(lerp(0, 1000, 500), 500);
    assert_eq!(lerp(1000, 0, 250), 750);
    assert_eq!(lerp(200, 200, 700), 200);
    // truncation toward zero in both directions
    assert_eq!(lerp(0, 5, 300), 1);
    assert_eq!(lerp(5, 0, 300), 4);
    // the endpoints bound the result
    assert_eq!(lerp(100, 900, 1000), 900);
    assert_eq!(lerp(100, 900, 0), 100);
}

#[test]
fn clamping() {
    assert_eq!(clamp(5, 0, 10), 5);
    assert_eq!(clamp(-5, 0, 10), 0);
    assert_eq!(clamp(15, 0, 10), 10);
}

#[test]
fn movement_scales_with_time_and_zoom() {
    let camera = CameraOrthographic::new(800, 600);
    let mut c = CameraController::new(camera);
    let mut input = InputSystem::new();
    press(&mut input, KEY_W);
    // one second at unit zoom moves one world unit up
    c.on_update(&input, 1000);
    assert_eq!(c.pos_y, 1000);
    assert_eq!(c.pos_x, 0);
    // at half zoom the same tick moves half as far
    c.camera.set_zoom(-500);
    c.on_update(&input, 1000);
    assert_eq!(c.pos_y, 1500);
}

#[test]
fn opposite_keys_cancel() {
    let camera = CameraOrthographic::new(800, 600);
    let mut c = CameraController::new(camera);
    let mut input = InputSystem::new();
    press(&mut input, KEY_A);
    c.on_update(&input, 500);
    assert_eq!(c.pos_x, -500);
    press(&mut input, quadengine::input::KEY_D);
    c.on_update(&input, 500);
    assert_eq!(c.pos_x, -500);
}

#[test]
fn scroll_moves_zoom_toward_target_outside_deadzone() {
    let camera = CameraOrthographic::new(800, 600);
    let mut c = CameraController::new(camera);
    let mut input = InputSystem::new();
    input.on_event(&InputEvent::Scroll { x_sign: 0, y_sign: -1 });
    // first step: target 1080, within the deadzone of 100 — no change
    c.on_update(&input, 100);
    assert_eq!(c.zoom_target, 1080);
    assert_eq!(c.camera.zoom, 1000);
    // second step: target 1160, outside the deadzone — interpolate by 3*100/1000
    c.on_update(&input, 100);
    assert_eq!(c.zoom_target, 1160);
    assert_eq!(c.camera.zoom, 1048);
}

#[test]
fn zoom_never_overshoots_its_target() {
    let camera = CameraOrthographic::new(800, 600);
    let mut c = CameraController::new(camera);
    let mut input = InputSystem::new();
    input.on_event(&InputEvent::Scroll { x_sign: 0, y_sign: -1 });
    for _ in 0..200 {
        c.on_update(&input, 400);
        assert!(c.camera.zoom <= c.zoom_target);
        assert!(c.zoom_target <= 5000);
    }
}

#[test]
fn reset_key_restores_base_zoom() {
    let camera = CameraOrthographic::new(800, 600);
    let mut c = CameraController::new(camera);
    let mut input = InputSystem::new();
    input.on_event(&InputEvent::Scroll { x_sign: 0, y_sign: 1 });
    c.on_update(&input, 100);
    c.on_update(&input, 100);
    assert!(c.camera.zoom != 1000 || c.zoom_target != 1000);
    press(&mut input, KEY_Z);
    c.on_update(&input, 100);
    assert_eq!(c.camera.zoom, 1000);
    assert_eq!(c.zoom_target, 1000);
}

#[test]
fn view_projection_translates_by_camera_position() {
    let camera = CameraOrthographic::new(800, 600);
    let mut c = CameraController::new(camera);
    let mut input = InputSystem::new();
    press(&mut input, KEY_A);
    c.on_update(&input, 2000);
    assert_eq!(c.pos_x, -2000);
    let m = c.view_projection_matrix();
    // tx = sx * 2 exactly: (600000 * 2000) / (800000 * 1000)
    assert_eq!(m.tx.num, 600_000 * 2000);
    assert_eq!(m.tx.den, 800_000 * 1000);
    // tz folds the camera's z position (2 units) into the depth mapping
    assert_eq!(m.tz.num, -10_100 * 1000 + 2000 * 2000);
    assert_eq!(m.tz.den, 9900 * 1000);
}
