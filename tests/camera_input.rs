use minima::camera_input::{CameraKey, MoveIntent};

#[test]
fn new_intent_holds_nothing() {
    let i = MoveIntent::new();
    assert_eq!(i.axes(), (0, 0, 0));
    assert!(!i.is_moving());
    assert_eq!(i.speed_factor(), 1);
}

#[test]
fn press_and_release_follow_the_key() {
    let mut i = MoveIntent::new();
    i.handle_key(CameraKey::Forward, true, false);
    assert!(i.forward);
    assert_eq!(i.axes(), (1, 0, 0));
    i.handle_key(CameraKey::Forward, false, false);
    assert!(!i.forward);
    assert_eq!(i.axes(), (0, 0, 0));
}

#[test]
fn auto_repeat_is_ignored() {
    let mut i = MoveIntent::new();
    i.handle_key(CameraKey::Left, true, true);
    assert_eq!(i, MoveIntent::new());
    i.handle_key(CameraKey::Left, true, false);
    i.handle_key(CameraKey::Left, false, true);
    assert!(i.left);
}

#[test]
fn opposite_keys_cancel_and_axes_stay_unit() {
    let mut i = MoveIntent::new();
    i.handle_key(CameraKey::Forward, true, false);
    i.handle_key(CameraKey::Back, true, false);
    i.handle_key(CameraKey::Right, true, false);
    i.handle_key(CameraKey::Down, true, false);
    assert_eq!(i.axes(), (0, 1, -1));
    i.handle_key(CameraKey::Left, true, false);
    i.handle_key(CameraKey::Up, true, false);
    assert_eq!(i.axes(), (0, 0, 0));
    assert!(!i.is_moving());
}

#[test]
fn diagonal_input_steps_one_unit_per_axis() {
    let mut i = MoveIntent::new();
    i.handle_key(CameraKey::Forward, true, false);
    i.handle_key(CameraKey::Right, true, false);
    assert_eq!(i.axes(), (1, 1, 0));
    assert!(i.is_moving());
}

#[test]
fn boost_multiplies_speed_by_five() {
    let mut i = MoveIntent::new();
    i.handle_key(CameraKey::Boost, true, false);
    assert_eq!(i.speed_factor(), 5);
    assert_eq!(i.axes(), (0, 0, 0));
    i.handle_key(CameraKey::Boost, false, false);
    assert_eq!(i.speed_factor(), 1);
}
