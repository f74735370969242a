use player::aim::{player_aim, AimError, AimPose, AimTurn, Look, Viewport};

const VIEW: Viewport = Viewport { width: 1000, height: 500 };

#[test]
fn motion_is_scaled_by_the_viewport() {
    let mut pose = AimPose::new();
    let r = player_aim(&mut pose, Look { yaw_mpx: 1000, pitch_mpx: 1000 }, Some(VIEW));
    assert_eq!(r, Ok(AimTurn { yaw: 999_000, pitch: 999_000 }));
    assert_eq!(pose, AimPose { yaw: 999_000, pitch: 999_000 });
    let r = player_aim(&mut pose, Look { yaw_mpx: -250_000, pitch_mpx: -125_000 }, Some(VIEW));
    assert_eq!(r, Ok(AimTurn { yaw: 250_000, pitch: 125_000 }));
    assert_eq!(pose, AimPose { yaw: 249_000, pitch: 124_000 });
}

#[test]
fn full_width_is_a_full_turn() {
    let mut pose = AimPose { yaw: 123, pitch: 0 };
    let r = player_aim(&mut pose, Look { yaw_mpx: 1_000_000, pitch_mpx: 0 }, Some(VIEW));
    assert_eq!(r, Ok(AimTurn { yaw: 0, pitch: 0 }));
    assert_eq!(pose, AimPose { yaw: 123, pitch: 0 });
    let r = player_aim(&mut pose, Look { yaw_mpx: 0, pitch_mpx: -500_000 }, Some(VIEW));
    assert_eq!(r, Ok(AimTurn { yaw: 0, pitch: 500_000 }));
}

#[test]
fn no_motion_needs_no_viewport() {
    let mut pose = AimPose { yaw: 5, pitch: 7 };
    assert_eq!(player_aim(&mut pose, Look { yaw_mpx: 0, pitch_mpx: 0 }, None), Ok(AimTurn { yaw: 0, pitch: 0 }));
    assert_eq!(pose, AimPose { yaw: 5, pitch: 7 });
}

#[test]
fn motion_without_viewport_is_an_error() {
    let mut pose = AimPose::new();
    let r = player_aim(&mut pose, Look { yaw_mpx: 3, pitch_mpx: 0 }, None);
    assert_eq!(r, Err(AimError::MissingViewport));
    assert_eq!(pose, AimPose::new());
}

#[test]
fn empty_viewport_is_an_error() {
    let mut pose = AimPose::new();
    let r = player_aim(&mut pose, Look { yaw_mpx: 0, pitch_mpx: 9 }, Some(Viewport { width: 800, height: 0 }));
    assert_eq!(r, Err(AimError::EmptyViewport));
    assert_eq!(pose, AimPose::new());
}

#[test]
fn yaw_and_pitch_ticks_commute() {
    let start = AimPose { yaw: 10, pitch: 999_990 };
    let mut a = start;
    player_aim(&mut a, Look { yaw_mpx: 4321, pitch_mpx: 0 }, Some(VIEW)).unwrap();
    player_aim(&mut a, Look { yaw_mpx: 0, pitch_mpx: -777 }, Some(VIEW)).unwrap();
    let mut b = start;
    player_aim(&mut b, Look { yaw_mpx: 0, pitch_mpx: -777 }, Some(VIEW)).unwrap();
    player_aim(&mut b, Look { yaw_mpx: 4321, pitch_mpx: 0 }, Some(VIEW)).unwrap();
    assert_eq!(a, b);
    let mut c = start;
    player_aim(&mut c, Look { yaw_mpx: 4321, pitch_mpx: -777 }, Some(VIEW)).unwrap();
    assert_eq!(a, c);
    assert_eq!(a, AimPose { yaw: 995_689, pitch: 767 });
}

#[test]
fn extreme_motion_still_wraps_into_one_turn() {
    let mut pose = AimPose::new();
    let r = player_aim(&mut pose, Look { yaw_mpx: i64::MIN, pitch_mpx: i64::MAX }, Some(Viewport { width: 1, height: 1 }));
    assert_eq!(r, Ok(AimTurn { yaw: 808_000, pitch: 96_500 }));
    assert_eq!(pose, AimPose { yaw: 808_000, pitch: 96_500 });
}

#[test]
fn zero_height_still_turns_the_body() {
    let mut pose = AimPose::new();
    let r = player_aim(&mut pose, Look { yaw_mpx: 1000, pitch_mpx: 5 }, Some(Viewport { width: 1000, height: 0 }));
    assert_eq!(r, Ok(AimTurn { yaw: 999_000, pitch: 0 }));
    assert_eq!(pose, AimPose { yaw: 999_000, pitch: 0 });
}

#[test]
fn zero_width_still_tilts_the_aim() {
    let mut pose = AimPose::new();
    let r = player_aim(&mut pose, Look { yaw_mpx: 7, pitch_mpx: -1000 }, Some(Viewport { width: 0, height: 500 }));
    assert_eq!(r, Ok(AimTurn { yaw: 0, pitch: 1000 }));
    assert_eq!(pose, AimPose { yaw: 0, pitch: 1000 });
}

#[test]
fn motion_only_on_an_empty_axis_is_an_error() {
    let mut pose = AimPose { yaw: 1, pitch: 2 };
    let r = player_aim(&mut pose, Look { yaw_mpx: 7, pitch_mpx: 0 }, Some(Viewport { width: 0, height: 500 }));
    assert_eq!(r, Err(AimError::EmptyViewport));
    let r = player_aim(&mut pose, Look { yaw_mpx: 7, pitch_mpx: 3 }, Some(Viewport { width: 0, height: 0 }));
    assert_eq!(r, Err(AimError::EmptyViewport));
    assert_eq!(pose, AimPose { yaw: 1, pitch: 2 });
}
