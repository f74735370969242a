use player::input::{CameraAction, ControlScheme, Key, MouseButton, PlayerFightAction, PlayerMoveAction, UserInput};

#[test]
fn default_scheme_binds_movement() {
    let s = ControlScheme::default();
    assert_eq!(s.move_input.len(), 8);
    assert_eq!(s.move_action(UserInput::Key(Key::W)), Some(PlayerMoveAction::Forward));
    assert_eq!(s.move_action(UserInput::Key(Key::LShift)), Some(PlayerMoveAction::Sprint));
    assert_eq!(s.move_action(UserInput::MouseMotionX), Some(PlayerMoveAction::Yaw));
    assert_eq!(s.move_action(UserInput::MouseMotionY), None);
}

#[test]
fn default_scheme_binds_fight_and_camera() {
    let s = ControlScheme::default();
    assert_eq!(s.fight_input.len(), 13);
    assert_eq!(s.fight_action(UserInput::Mouse(MouseButton::Right)), Some(PlayerFightAction::Secondary));
    assert_eq!(s.fight_action(UserInput::Key(Key::Key0)), Some(PlayerFightAction::Hotbar0));
    assert_eq!(s.fight_action(UserInput::MouseMotionY), Some(PlayerFightAction::Pitch));
    assert_eq!(s.camera_action(UserInput::Key(Key::C)), Some(CameraAction::SwitchPerspective));
    assert_eq!(s.camera_action(UserInput::Key(Key::H)), Some(CameraAction::SwitchShoulder));
}

#[test]
fn unbound_input_gives_no_action() {
    let s = ControlScheme::default();
    assert_eq!(s.camera_action(UserInput::Key(Key::W)), None);
    assert_eq!(s.fight_action(UserInput::Key(Key::Space)), None);
    assert_eq!(s.move_action(UserInput::Mouse(MouseButton::Left)), None);
}
