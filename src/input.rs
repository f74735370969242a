//! Logical input actions and the per-tick signals read from them.
use vstd::prelude::*;

verus! {

/// Actions that move and turn the player body.
#[derive(Clone, Copy, Debug, PartialEq, Eq, Structural)]
pub enum PlayerMoveAction {
    Forward,
    Backward,
    Left,
    Right,
    Jump,
    Crouch,
    Sprint,
    Yaw,
}

/// Actions of the aim socket: attacks, hotbar slots and pitch.
#[derive(Clone, Copy, Debug, PartialEq, Eq, Structural)]
pub enum PlayerFightAction {
    Primary,
    Secondary,
    Hotbar1,
    Hotbar2,
    Hotbar3,
    Hotbar4,
    Hotbar5,
    Hotbar6,
    Hotbar7,
    Hotbar8,
    Hotbar9,
    Hotbar0,
    Pitch,
}

/// Actions of the camera rig. `Freecam` and `SwitchShoulder` do nothing in
/// first person.
#[derive(Clone, Copy, Debug, PartialEq, Eq, Structural)]
pub enum CameraAction {
    SwitchPerspective,
    Freecam,
    SwitchShoulder,
}

/// The keyboard keys the control scheme binds.
#[derive(Clone, Copy, Debug, PartialEq, Eq, Structural)]
pub enum Key {
    W,
    S,
    A,
    D,
    Space,
    LControl,
    LShift,
    Key1,
    Key2,
    Key3,
    Key4,
    Key5,
    Key6,
    Key7,
    Key8,
    Key9,
    Key0,
    C,
    F,
    H,
}

/// The mouse buttons the control scheme binds.
#[derive(Clone, Copy, Debug, PartialEq, Eq, Structural)]
pub enum MouseButton {
    Left,
    Right,
}

/// A physical input: a key, a mouse button, or relative mouse motion along
/// one axis.
#[derive(Clone, Copy, Debug, PartialEq, Eq, Structural)]
pub enum UserInput {
    Key(Key),
    Mouse(MouseButton),
    MouseMotionX,
    MouseMotionY,
}

/// The physical-to-logical bindings of each action set, fixed for a session.
pub struct ControlScheme {
    pub move_input: Vec<(UserInput, PlayerMoveAction)>,
    pub fight_input: Vec<(UserInput, PlayerFightAction)>,
    pub camera_input: Vec<(UserInput, CameraAction)>,
}

pub open spec fn default_move_bindings() -> Seq<(UserInput, PlayerMoveAction)> {
    seq![
        (UserInput::Key(Key::W), PlayerMoveAction::Forward),
        (UserInput::Key(Key::S), PlayerMoveAction::Backward),
        (UserInput::Key(Key::A), PlayerMoveAction::Left),
        (UserInput::Key(Key::D), PlayerMoveAction::Right),
        (UserInput::Key(Key::Space), PlayerMoveAction::Jump),
        (UserInput::Key(Key::LControl), PlayerMoveAction::Crouch),
        (UserInput::Key(Key::LShift), PlayerMoveAction::Sprint),
        (UserInput::MouseMotionX, PlayerMoveAction::Yaw),
    ]
}

pub open spec fn default_fight_bindings() -> Seq<(UserInput, PlayerFightAction)> {
    seq![
        (UserInput::Mouse(MouseButton::Left), PlayerFightAction::Primary),
        (UserInput::Mouse(MouseButton::Right), PlayerFightAction::Secondary),
        (UserInput::Key(Key::Key1), PlayerFightAction::Hotbar1),
        (UserInput::Key(Key::Key2), PlayerFightAction::Hotbar2),
        (UserInput::Key(Key::Key3), PlayerFightAction::Hotbar3),
        (UserInput::Key(Key::Key4), PlayerFightAction::Hotbar4),
        (UserInput::Key(Key::Key5), PlayerFightAction::Hotbar5),
        (UserInput::Key(Key::Key6), PlayerFightAction::Hotbar6),
        (UserInput::Key(Key::Key7), PlayerFightAction::Hotbar7),
        (UserInput::Key(Key::Key8), PlayerFightAction::Hotbar8),
        (UserInput::Key(Key::Key9), PlayerFightAction::Hotbar9),
        (UserInput::Key(Key::Key0), PlayerFightAction::Hotbar0),
        (UserInput::MouseMotionY, PlayerFightAction::Pitch),
    ]
}

pub open spec fn default_camera_bindings() -> Seq<(UserInput, CameraAction)> {
    seq![
        (UserInput::Key(Key::C), CameraAction::SwitchPerspective),
        (UserInput::Key(Key::F), CameraAction::Freecam),
        (UserInput::Key(Key::H), CameraAction::SwitchShoulder),
    ]
}

/// No physical input is bound twice within one set.
pub open spec fn inputs_distinct<A>(b: Seq<(UserInput, A)>) -> bool {
    forall|i: int, j: int| 0 <= i < j < b.len() ==> #[trigger] b[i].0 != #[trigger] b[j].0
}

/// The action `input` is bound to in `b`, if any.
pub open spec fn bound_action<A>(b: Seq<(UserInput, A)>, input: UserInput) -> Option<A>
    decreases b.len(),
{
    if b.len() == 0 {
        None
    } else if b[0].0 == input {
        Some(b[0].1)
    } else {
        bound_action(b.drop_first(), input)
    }
}

fn lookup<A: Copy>(b: &Vec<(UserInput, A)>, input: UserInput) -> (r: Option<A>)
    ensures
        r == bound_action(b@, input),
{
    let mut i: usize = 0;
    assert(b@.skip(0) =~= b@);
    while i < b.len()
        invariant
            0 <= i <= b.len(),
            bound_action(b@, input) == bound_action(b@.skip(i as int), input),
        decreases b.len() - i,
    {
        assert(b@.skip(i as int).drop_first() =~= b@.skip(i + 1));
        if b[i].0 == input {
            return Some(b[i].1);
        }
        i += 1;
    }
    None
}

impl ControlScheme {
    pub open spec fn wf(&self) -> bool {
        &&& inputs_distinct(self.move_input@)
        &&& inputs_distinct(self.fight_input@)
        &&& inputs_distinct(self.camera_input@)
    }

    /// The movement action `input` is bound to; an unbound input gives `None`.
    pub fn move_action(&self, input: UserInput) -> (r: Option<PlayerMoveAction>)
        ensures
            r == bound_action(self.move_input@, input),
    {
        lookup(&self.move_input, input)
    }

    /// The fight action `input` is bound to; an unbound input gives `None`.
    pub fn fight_action(&self, input: UserInput) -> (r: Option<PlayerFightAction>)
        ensures
            r == bound_action(self.fight_input@, input),
    {
        lookup(&self.fight_input, input)
    }

    /// The camera action `input` is bound to; an unbound input gives `None`.
    pub fn camera_action(&self, input: UserInput) -> (r: Option<CameraAction>)
        ensures
            r == bound_action(self.camera_input@, input),
    {
        lookup(&self.camera_input, input)
    }
}

impl Default for ControlScheme {
    /// WASD to walk, space to jump, left control to crouch, left shift to
    /// sprint and horizontal mouse motion to turn; mouse buttons to attack,
    /// the number row for the hotbar and vertical mouse motion to aim; C to
    /// switch perspective, F for the free camera and H to switch shoulder.
    fn default() -> (r: ControlScheme)
        ensures
            r.move_input@ == default_move_bindings(),
            r.fight_input@ == default_fight_bindings(),
            r.camera_input@ == default_camera_bindings(),
            r.wf(),
    {
        let move_input = vec![
            (UserInput::Key(Key::W), PlayerMoveAction::Forward),
            (UserInput::Key(Key::S), PlayerMoveAction::Backward),
            (UserInput::Key(Key::A), PlayerMoveAction::Left),
            (UserInput::Key(Key::D), PlayerMoveAction::Right),
            (UserInput::Key(Key::Space), PlayerMoveAction::Jump),
            (UserInput::Key(Key::LControl), PlayerMoveAction::Crouch),
            (UserInput::Key(Key::LShift), PlayerMoveAction::Sprint),
            (UserInput::MouseMotionX, PlayerMoveAction::Yaw),
        ];
        let fight_input = vec![
            (UserInput::Mouse(MouseButton::Left), PlayerFightAction::Primary),
            (UserInput::Mouse(MouseButton::Right), PlayerFightAction::Secondary),
            (UserInput::Key(Key::Key1), PlayerFightAction::Hotbar1),
            (UserInput::Key(Key::Key2), PlayerFightAction::Hotbar2),
            (UserInput::Key(Key::Key3), PlayerFightAction::Hotbar3),
            (UserInput::Key(Key::Key4), PlayerFightAction::Hotbar4),
            (UserInput::Key(Key::Key5), PlayerFightAction::Hotbar5),
            (UserInput::Key(Key::Key6), PlayerFightAction::Hotbar6),
            (UserInput::Key(Key::Key7), PlayerFightAction::Hotbar7),
            (UserInput::Key(Key::Key8), PlayerFightAction::Hotbar8),
            (UserInput::Key(Key::Key9), PlayerFightAction::Hotbar9),
            (UserInput::Key(Key::Key0), PlayerFightAction::Hotbar0),
            (UserInput::MouseMotionY, PlayerFightAction::Pitch),
        ];
        let camera_input = vec![
            (UserInput::Key(Key::C), CameraAction::SwitchPerspective),
            (UserInput::Key(Key::F), CameraAction::Freecam),
            (UserInput::Key(Key::H), CameraAction::SwitchShoulder),
        ];
        assert(move_input@ =~= default_move_bindings());
        assert(fight_input@ =~= default_fight_bindings());
        assert(camera_input@ =~= default_camera_bindings());
        ControlScheme { move_input, fight_input, camera_input }
    }
}

/// Which movement actions are held this tick.
#[derive(Clone, Copy, Debug, PartialEq, Eq, Structural)]
pub struct MoveInput {
    pub forward: bool,
    pub backward: bool,
    pub left: bool,
    pub right: bool,
    pub jump: bool,
    pub sprint: bool,
}

/// The per-tick state of a binary action.
#[derive(Clone, Copy, Debug, PartialEq, Eq, Structural)]
pub enum ButtonState {
    Released,
    /// Pressed this tick, having been released the tick before.
    JustPressed,
    /// Pressed this tick and the tick before.
    Pressed,
}

/// The state after a tick in which the bound input is `down` or not:
/// just-pressed comes only on the tick a press begins.
pub open spec fn next_button(s: ButtonState, down: bool) -> ButtonState {
    if !down {
        ButtonState::Released
    } else if s == ButtonState::Released {
        ButtonState::JustPressed
    } else {
        ButtonState::Pressed
    }
}

impl ButtonState {
    /// The state for this tick, given the previous tick's state and whether
    /// the bound input is down now.
    pub fn update(self, down: bool) -> (r: ButtonState)
        ensures
            r == next_button(self, down),
    {
        if !down {
            ButtonState::Released
        } else {
            match self {
                ButtonState::Released => ButtonState::JustPressed,
                _ => ButtonState::Pressed,
            }
        }
    }

    pub fn pressed(&self) -> (r: bool)
        ensures
            r == (*self != ButtonState::Released),
    {
        !matches!(self, ButtonState::Released)
    }

    pub fn just_pressed(&self) -> (r: bool)
        ensures
            r == (*self == ButtonState::JustPressed),
    {
        matches!(self, ButtonState::JustPressed)
    }
}

} // verus!
