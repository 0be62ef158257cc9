use quadengine::input::{InputEvent, InputSystem, KEY_Q, KEY_W};

#[test]
fn keys_start_released() {
    let s = InputSystem::new();
    assert!(!s.is_key_pressed(KEY_W));
    assert!(s.is_key_released(KEY_W));
}

#[test]
fn press_and_release_are_tracked() {
    let mut s = InputSystem::new();
    s.on_event(&InputEvent::Key { code: KEY_W, pressed: true });
    assert!(s.is_key_pressed(KEY_W));
    assert!(!s.is_key_released(KEY_W));
    assert!(!s.is_key_pressed(KEY_Q));
    s.on_event(&InputEvent::Key { code: KEY_W, pressed: false });
    assert!(!s.is_key_pressed(KEY_W));
    assert!(s.is_key_released(KEY_W));
}

#[test]
fn out_of_range_codes_are_ignored() {
    let mut s = InputSystem::new();
    s.on_event(&InputEvent::Key { code: 4096, pressed: true });
    assert!(!s.is_key_pressed(4096));
    assert!(s.is_key_released(4096));
}

#[test]
fn focus_loss_clears_everything() {
    let mut s = InputSystem::new();
    s.on_event(&InputEvent::Key { code: KEY_W, pressed: true });
    s.on_event(&InputEvent::Scroll { x_sign: 1, y_sign: -1 });
    s.on_event(&InputEvent::FocusLost);
    assert!(!s.is_key_pressed(KEY_W));
    assert_eq!(s.mouse_scoll_x(), 0);
    assert_eq!(s.mouse_scoll_y(), 0);
}

#[test]
fn scroll_keeps_sign_until_reset() {
    let mut s = InputSystem::new();
    s.on_event(&InputEvent::Scroll { x_sign: 0, y_sign: 1 });
    assert_eq!(s.mouse_scoll_x(), 0);
    assert_eq!(s.mouse_scoll_y(), 1);
    // a zero component leaves the axis alone
    s.on_event(&InputEvent::Scroll { x_sign: -1, y_sign: 0 });
    assert_eq!(s.mouse_scoll_x(), -1);
    assert_eq!(s.mouse_scoll_y(), 1);
    s.reset();
    assert_eq!(s.mouse_scoll_x(), 0);
    assert_eq!(s.mouse_scoll_y(), 0);
    // key state survives the per-tick reset
    s.on_event(&InputEvent::Key { code: KEY_W, pressed: true });
    s.reset();
    assert!(s.is_key_pressed(KEY_W));
}
