//! The camera rig's perspective state machine.
use vstd::prelude::*;

use crate::input::{next_button, ButtonState};

verus! {

/// Sideways distance of a shoulder view from the aim socket, in millimetres.
pub const SHOULDER_SIDE_MM: i64 = 1500;

/// Height of a shoulder view above the aim socket, in millimetres.
pub const SHOULDER_UP_MM: i64 = 300;

/// Distance of a shoulder view behind the aim socket, in millimetres.
pub const SHOULDER_BACK_MM: i64 = 5000;

/// Where the camera rig sits relative to the aim socket.
#[derive(Clone, Copy, Debug, PartialEq, Eq, Structural)]
pub enum Location {
    FirstPerson,
    LeftShoulder,
    RightShoulder,
}

/// A camera-local translation, in millimetres.
#[derive(Clone, Copy, Debug, PartialEq, Eq, Structural)]
pub struct Offset {
    pub x: i64,
    pub y: i64,
    pub z: i64,
}

/// The fixed translation that belongs to each location.
pub open spec fn offset_of(l: Location) -> Offset {
    match l {
        Location::FirstPerson => Offset { x: 0, y: 0, z: 0 },
        Location::LeftShoulder => Offset { x: (-SHOULDER_SIDE_MM) as i64, y: SHOULDER_UP_MM, z: SHOULDER_BACK_MM },
        Location::RightShoulder => Offset { x: SHOULDER_SIDE_MM, y: SHOULDER_UP_MM, z: SHOULDER_BACK_MM },
    }
}

/// The location after a perspective switch.
pub open spec fn after_perspective(l: Location) -> Location {
    match l {
        Location::FirstPerson => Location::RightShoulder,
        _ => Location::FirstPerson,
    }
}

/// The location after a shoulder switch; first person is left alone.
pub open spec fn after_shoulder(l: Location) -> Location {
    match l {
        Location::LeftShoulder => Location::RightShoulder,
        Location::RightShoulder => Location::LeftShoulder,
        Location::FirstPerson => Location::FirstPerson,
    }
}

/// One tick of the state machine: the perspective switch is handled before
/// the shoulder switch; each fires only on the tick its action was just pressed.
pub open spec fn camera_step(l: Location, switch_perspective: bool, switch_shoulder: bool) -> Location {
    let mid = if switch_perspective { after_perspective(l) } else { l };
    if switch_shoulder { after_shoulder(mid) } else { mid }
}

impl Location {
    /// The camera-local translation of this location.
    pub fn offset(&self) -> (r: Offset)
        ensures
            r == offset_of(*self),
    {
        match self {
            Location::FirstPerson => Offset { x: 0, y: 0, z: 0 },
            Location::LeftShoulder => Offset { x: (-SHOULDER_SIDE_MM) as i64, y: SHOULDER_UP_MM, z: SHOULDER_BACK_MM },
            Location::RightShoulder => Offset { x: SHOULDER_SIDE_MM, y: SHOULDER_UP_MM, z: SHOULDER_BACK_MM },
        }
    }

    pub open spec fn is_third_person(self) -> bool {
        self != Location::FirstPerson
    }
}

/// The camera rig: its location and the translation it currently holds.
#[derive(Clone, Copy, Debug, PartialEq, Eq, Structural)]
pub struct CameraRig {
    pub location: Location,
    pub translation: Offset,
}

impl CameraRig {
    /// The translation always matches the location.
    pub open spec fn wf(self) -> bool {
        self.translation == offset_of(self.location)
    }

    /// A rig in first person, which is where every camera starts.
    pub fn new() -> (r: CameraRig)
        ensures
            r.wf(),
            r.location == Location::FirstPerson,
    {
        CameraRig { location: Location::FirstPerson, translation: Offset { x: 0, y: 0, z: 0 } }
    }
}

/// Runs one tick of the perspective state machine on `rig`, given whether
/// `SwitchPerspective` and `SwitchShoulder` were just pressed this tick.
/// Returns whether the location (and so the translation) was reassigned.
pub fn cycle_camera(rig: &mut CameraRig, switch_perspective: bool, switch_shoulder: bool) -> (moved: bool)
    requires
        old(rig).wf(),
    ensures
        final(rig).wf(),
        final(rig).location == camera_step(old(rig).location, switch_perspective, switch_shoulder),
        moved == (switch_perspective || (switch_shoulder
            && camera_step(old(rig).location, switch_perspective, false).is_third_person())),
        !moved ==> *final(rig) == *old(rig),
{
    let mut moved = false;
    if switch_perspective {
        let next = match rig.location {
            Location::FirstPerson => Location::RightShoulder,
            _ => Location::FirstPerson,
        };
        rig.location = next;
        rig.translation = next.offset();
        moved = true;
    }
    if switch_shoulder {
        match rig.location {
            Location::LeftShoulder => {
                rig.location = Location::RightShoulder;
                rig.translation = Location::RightShoulder.offset();
                moved = true;
            },
            Location::RightShoulder => {
                rig.location = Location::LeftShoulder;
                rig.translation = Location::LeftShoulder.offset();
                moved = true;
            },
            Location::FirstPerson => {},
        }
    }
    moved
}

/// The location after holding the `SwitchPerspective` input down for
/// `n` ticks, starting from button state `s`, with no shoulder switch.
pub open spec fn hold_perspective(l: Location, s: ButtonState, n: nat) -> Location
    decreases n,
{
    if n == 0 {
        l
    } else {
        let s2 = next_button(s, true);
        hold_perspective(camera_step(l, s2 == ButtonState::JustPressed, false), s2, (n - 1) as nat)
    }
}

/// A tick on which neither switch was just pressed leaves the camera where
/// it is; so holding `SwitchPerspective` down switches once, on the first
/// tick, however long it is held.
pub proof fn lemma_held_switch_fires_once(l: Location, n: nat)
    requires
        n >= 1,
    ensures
        camera_step(l, false, false) == l,
        hold_perspective(l, ButtonState::Released, n) == camera_step(l, true, false),
{
    lemma_hold_pressed(camera_step(l, true, false), (n - 1) as nat);
}

proof fn lemma_hold_pressed(l: Location, n: nat)
    ensures
        hold_perspective(l, ButtonState::JustPressed, n) == l,
        hold_perspective(l, ButtonState::Pressed, n) == l,
    decreases n,
{
    if n > 0 {
        lemma_hold_pressed(l, (n - 1) as nat);
    }
}

/// Switching perspective toggles first person and the right shoulder;
/// switching shoulder alternates the two shoulders and never reaches (or
/// leaves) first person.
pub proof fn lemma_camera_cycle(l: Location)
    ensures
        camera_step(Location::FirstPerson, true, false) == Location::RightShoulder,
        camera_step(Location::RightShoulder, true, false) == Location::FirstPerson,
        camera_step(Location::LeftShoulder, true, false) == Location::FirstPerson,
        camera_step(Location::RightShoulder, false, true) == Location::LeftShoulder,
        camera_step(Location::LeftShoulder, false, true) == Location::RightShoulder,
        camera_step(Location::FirstPerson, false, true) == Location::FirstPerson,
        camera_step(camera_step(l, false, true), false, true) == l,
        l.is_third_person() == camera_step(l, false, true).is_third_person(),
{
}

} // verus!
