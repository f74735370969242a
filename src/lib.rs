//! Gameplay logic of a first/third-person character: locomotion under
//! gravity, mouse aiming, camera perspective switching and input bindings,
//! in exact fixed-point arithmetic.
use vstd::prelude::*;

pub mod aim;
pub mod camera;
pub mod input;
pub mod locomotion;
pub mod weapon;

verus! {

/// Marks the root entity of the player.
#[derive(Clone, Copy, Debug, PartialEq, Eq, Structural)]
pub struct PlayerBase;

/// Marks the focal point of the player's aim.
#[derive(Clone, Copy, Debug, PartialEq, Eq, Structural)]
pub struct PlayerAim;

} // verus!
