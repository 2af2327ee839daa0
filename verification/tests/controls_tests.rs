use terrain_gen::controls::{route_key, CameraController, Key, KeyCommand, MouseButton};

#[test]
fn commands_on_press_only() {
    assert_eq!(route_key(Key::Escape, true), KeyCommand::Exit);
    assert_eq!(route_key(Key::KeyV, true), KeyCommand::Verify);
    assert_eq!(route_key(Key::KeyO, true), KeyCommand::NextPipeline);
    assert_eq!(route_key(Key::F11, true), KeyCommand::ToggleFullscreen);
    assert_eq!(route_key(Key::KeyF, true), KeyCommand::ToggleFullscreen);
    assert_eq!(route_key(Key::KeyW, true), KeyCommand::Camera);
    assert_eq!(route_key(Key::Other, true), KeyCommand::Camera);
    for k in [Key::Escape, Key::KeyV, Key::KeyO, Key::F11, Key::KeyF] {
        assert_eq!(route_key(k, false), KeyCommand::Camera);
    }
}

#[test]
fn movement_keys() {
    let mut c = CameraController::new();
    assert_eq!(c.movement_axes(), (0, 0, 0));
    assert!(c.handle_key(Key::KeyW, true));
    assert_eq!(c.movement_axes(), (1, 0, 0));
    assert!(c.handle_key(Key::ArrowDown, true));
    assert_eq!(c.movement_axes(), (0, 0, 0));
    assert!(c.handle_key(Key::KeyW, false));
    assert_eq!(c.movement_axes(), (-1, 0, 0));
    assert!(c.handle_key(Key::KeyD, true));
    assert!(c.handle_key(Key::Space, true));
    assert_eq!(c.movement_axes(), (-1, 1, 1));
    assert!(c.handle_key(Key::ArrowLeft, true));
    assert!(c.handle_key(Key::ShiftLeft, true));
    assert_eq!(c.movement_axes(), (-1, 0, 0));
}

#[test]
fn other_keys_not_consumed() {
    let mut c = CameraController::new();
    c.handle_key(Key::KeyA, true);
    let before = c;
    assert!(!c.handle_key(Key::Escape, true));
    assert!(!c.handle_key(Key::KeyO, false));
    assert!(!c.handle_key(Key::Other, true));
    assert_eq!(c, before);
}

#[test]
fn press_twice_then_release() {
    let mut c = CameraController::new();
    c.handle_key(Key::KeyS, true);
    c.handle_key(Key::KeyS, true);
    assert!(c.backward);
    c.handle_key(Key::KeyS, false);
    assert!(!c.backward);
}

#[test]
fn right_button_toggles_mouse_look() {
    let mut c = CameraController::new();
    assert!(!c.mouse_look_active);
    assert!(!c.handle_mouse_button(MouseButton::Left, true));
    assert!(!c.mouse_look_active);
    assert!(c.handle_mouse_button(MouseButton::Right, true));
    assert!(c.mouse_look_active);
    assert!(c.handle_mouse_button(MouseButton::Right, false));
    assert!(!c.mouse_look_active);
}
