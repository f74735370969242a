use player::camera::{cycle_camera, CameraRig, Location, Offset};
use player::input::ButtonState;

#[test]
fn perspective_toggles_between_first_person_and_right_shoulder() {
    let mut rig = CameraRig::new();
    assert_eq!(rig.location, Location::FirstPerson);
    assert!(cycle_camera(&mut rig, true, false));
    assert_eq!(rig.location, Location::RightShoulder);
    assert_eq!(rig.translation, Offset { x: 1500, y: 300, z: 5000 });
    assert!(cycle_camera(&mut rig, true, false));
    assert_eq!(rig.location, Location::FirstPerson);
    assert_eq!(rig.translation, Offset { x: 0, y: 0, z: 0 });
}

#[test]
fn shoulder_switch_alternates_and_never_reaches_first_person() {
    let mut rig = CameraRig::new();
    assert!(!cycle_camera(&mut rig, false, true));
    assert_eq!(rig.location, Location::FirstPerson);
    cycle_camera(&mut rig, true, false);
    assert!(cycle_camera(&mut rig, false, true));
    assert_eq!(rig.location, Location::LeftShoulder);
    assert_eq!(rig.translation, Offset { x: -1500, y: 300, z: 5000 });
    for _ in 0..5 {
        assert!(cycle_camera(&mut rig, false, true));
        assert_eq!(rig.location, Location::RightShoulder);
        assert!(cycle_camera(&mut rig, false, true));
        assert_eq!(rig.location, Location::LeftShoulder);
    }
    assert!(cycle_camera(&mut rig, true, false));
    assert_eq!(rig.location, Location::FirstPerson);
}

#[test]
fn both_switches_on_one_tick() {
    let mut rig = CameraRig::new();
    assert!(cycle_camera(&mut rig, true, true));
    assert_eq!(rig.location, Location::LeftShoulder);
    assert!(cycle_camera(&mut rig, true, true));
    assert_eq!(rig.location, Location::FirstPerson);
    assert_eq!(rig.translation, Location::FirstPerson.offset());
}

#[test]
fn holding_switch_perspective_switches_once() {
    let mut rig = CameraRig::new();
    let mut button = ButtonState::Released;
    for _ in 0..10 {
        button = button.update(true);
        cycle_camera(&mut rig, button.just_pressed(), false);
        assert_eq!(rig.location, Location::RightShoulder);
    }
    button = button.update(false);
    assert!(!button.pressed());
    button = button.update(true);
    cycle_camera(&mut rig, button.just_pressed(), false);
    assert_eq!(rig.location, Location::FirstPerson);
}

#[test]
fn button_states() {
    let b = ButtonState::Released.update(true);
    assert_eq!(b, ButtonState::JustPressed);
    assert!(b.pressed() && b.just_pressed());
    let b = b.update(true);
    assert_eq!(b, ButtonState::Pressed);
    assert!(b.pressed() && !b.just_pressed());
    assert_eq!(b.update(false), ButtonState::Released);
    assert!(!ButtonState::Released.pressed());
}
