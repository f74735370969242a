//! The locomotion integrator: horizontal walking and vertical jump/fall.
//!
//! Units are fixed point: elapsed time in milliseconds, speeds in
//! micrometres per second, gravity in millimetres per second squared and
//! displacements in nanometres, so every product below is exact.
use vstd::prelude::*;

use crate::input::MoveInput;

verus! {

/// Walking speed, in micrometres per second.
pub const SPEED: i64 = 3_000_000;

/// Sprinting speed, in micrometres per second.
pub const SPRINT_SPEED: i64 = 6_000_000;

/// Upward velocity given by a jump, in micrometres per second.
pub const JUMP_FORCE: i64 = 5_000_000;

/// The lowest vertical velocity a fall reaches, in micrometres per second.
pub const TERMINAL_VELOCITY: i64 = -15_000_000;

/// Vertical acceleration, in millimetres per second squared
/// (equivalently micrometres per second gained each millisecond).
pub const GRAVITY: i64 = -9820;

/// A requested displacement in the body's horizontal frame plus world up,
/// in nanometres.
#[derive(Clone, Copy, Debug, PartialEq, Eq, Structural)]
pub struct Displacement {
    pub forward: i64,
    pub left: i64,
    pub up: i64,
}

/// +1, -1 or 0 for a pair of opposing directional actions.
pub open spec fn axis(pos: bool, neg: bool) -> int {
    (if pos { 1int } else { 0int }) - (if neg { 1int } else { 0int })
}

pub open spec fn speed_of(sprint: bool) -> int {
    if sprint { SPRINT_SPEED as int } else { SPEED as int }
}

/// Distance covered along one axis during `delta_ms`, in nanometres.
pub open spec fn travel(sprint: bool, delta_ms: int) -> int {
    speed_of(sprint) * delta_ms
}

/// `d` is each leg of a diagonal move of length `m`: the largest whole
/// number with `d * sqrt(2) <= m`.
pub open spec fn is_diagonal_leg(m: int, d: int) -> bool {
    0 <= d && 2 * (d * d) <= m * m && m * m < 2 * ((d + 1) * (d + 1))
}

/// Horizontal displacement for one tick: opposing actions cancel, the
/// remaining direction is normalised and scaled by the tick's travel.
pub open spec fn horizontal_matches(input: MoveInput, delta_ms: int, r: Displacement) -> bool {
    let a = axis(input.forward, input.backward);
    let b = axis(input.left, input.right);
    let m = travel(input.sprint, delta_ms);
    &&& r.up == 0
    &&& (a == 0 || b == 0) ==> r.forward == a * m && r.left == b * m
    &&& (a != 0 && b != 0) ==> is_diagonal_leg(m, a * r.forward) && b * r.left == a * r.forward
}

/// The largest `d` with `2 * d * d <= m * m`, by binary search.
fn diagonal_leg(m: i64) -> (d: i64)
    requires
        0 <= m <= SPRINT_SPEED * 0xffff_ffff,
    ensures
        is_diagonal_leg(m as int, d as int),
{
    assert(m * m <= 0x1_0000_0000_0000_0000_0000_0000_0000) by (nonlinear_arith)
        requires
            0 <= m <= SPRINT_SPEED * 0xffff_ffff,
    ;
    let mm: u128 = (m as u128) * (m as u128);
    let mut lo: u128 = 0;
    let mut hi: u128 = m as u128 + 1;
    assert(2 * ((m + 1) * (m + 1)) > m * m) by (nonlinear_arith)
        requires
            m >= 0,
    ;
    while hi - lo > 1
        invariant
            lo < hi <= m + 1,
            mm == m * m,
            2 * (lo * lo) <= mm,
            mm < 2 * (hi * hi),
            0 <= m <= SPRINT_SPEED * 0xffff_ffff,
        decreases hi - lo,
    {
        let mid: u128 = lo + (hi - lo) / 2;
        assert(mid * mid <= (m + 1) * (m + 1)) by (nonlinear_arith)
            requires
                0 <= mid <= m + 1,
        ;
        assert((m + 1) * (m + 1) <= 0x1_0000_0000_0000_0000_0000_0000_0000) by (nonlinear_arith)
            requires
                0 <= m <= SPRINT_SPEED * 0xffff_ffff,
        ;
        if 2 * (mid * mid) <= mm {
            lo = mid;
        } else {
            hi = mid;
        }
    }
    assert(hi == lo + 1);
    lo as i64
}

/// The horizontal displacement requested by one tick of `input` lasting
/// `delta_ms` milliseconds. A diagonal is no longer than a single axis, and
/// no move is longer than sprinting along one axis.
pub fn player_movement(input: &MoveInput, delta_ms: u32) -> (r: Displacement)
    ensures
        horizontal_matches(*input, delta_ms as int, r),
        r.forward * r.forward + r.left * r.left <= travel(input.sprint, delta_ms as int) * travel(
            input.sprint,
            delta_ms as int,
        ),
        r.forward * r.forward + r.left * r.left <= (SPRINT_SPEED * delta_ms as int) * (
        SPRINT_SPEED * delta_ms as int),
{
    let speed: i64 = if input.sprint { SPRINT_SPEED } else { SPEED };
    let a: i64 = (if input.forward { 1i64 } else { 0i64 }) - (if input.backward { 1i64 } else { 0i64 });
    let b: i64 = (if input.left { 1i64 } else { 0i64 }) - (if input.right { 1i64 } else { 0i64 });
    assert(0 <= speed * (delta_ms as int) <= SPRINT_SPEED * 0xffff_ffff) by (nonlinear_arith)
        requires
            0 <= speed <= SPRINT_SPEED,
            0 <= delta_ms <= 0xffff_ffff,
    ;
    let m: i64 = speed * (delta_ms as i64);
    let ghost s: int = SPRINT_SPEED * delta_ms;
    assert(m * m <= s * s) by (nonlinear_arith)
        requires
            0 <= m <= s,
    ;
    if a == 0 || b == 0 {
        let r = Displacement { forward: a * m, left: b * m, up: 0 };
        assert(r.forward * r.forward + r.left * r.left <= m * m) by (nonlinear_arith)
            requires
                r.forward == a * m,
                r.left == b * m,
                a == 0 || b == 0,
                -1 <= a <= 1,
                -1 <= b <= 1,
        ;
        r
    } else {
        let d = diagonal_leg(m);
        assert(d <= m) by (nonlinear_arith)
            requires
                is_diagonal_leg(m as int, d as int),
                m >= 0,
        ;
        let r = Displacement { forward: a * d, left: b * d, up: 0 };
        assert(a * r.forward == d && b * r.left == d) by (nonlinear_arith)
            requires
                r.forward == a * d,
                r.left == b * d,
                a == 1 || a == -1,
                b == 1 || b == -1,
        ;
        assert(r.forward * r.forward + r.left * r.left == 2 * (d * d)) by (nonlinear_arith)
            requires
                r.forward == a * d,
                r.left == b * d,
                a == 1 || a == -1,
                b == 1 || b == -1,
        ;
        r
    }
}

/// The velocity a tick starts from: a grounded body takes the jump
/// impulse when `Jump` is held and stands still otherwise; an airborne body
/// keeps the velocity it had.
pub open spec fn launch_velocity(v: int, grounded: bool, jump: bool) -> int {
    if grounded {
        if jump { JUMP_FORCE as int } else { 0 }
    } else {
        v
    }
}

/// The velocity carried to the next tick: gravity applied for `delta_ms`,
/// never below terminal velocity.
pub open spec fn fallen_velocity(v: int, delta_ms: int) -> int {
    let w = v + GRAVITY * delta_ms;
    if w < TERMINAL_VELOCITY { TERMINAL_VELOCITY as int } else { w }
}

/// Vertical speed of the player body, in micrometres per second; it
/// persists from one tick to the next.
#[derive(Clone, Copy, Debug, PartialEq, Eq, Structural)]
pub struct VerticalVelocity {
    pub um_per_s: i64,
}

impl VerticalVelocity {
    /// Never below terminal velocity, never above a jump.
    pub open spec fn wf(self) -> bool {
        TERMINAL_VELOCITY <= self.um_per_s <= JUMP_FORCE
    }

    /// At rest.
    pub fn new() -> (r: VerticalVelocity)
        ensures
            r.wf(),
            r.um_per_s == 0,
    {
        VerticalVelocity { um_per_s: 0 }
    }
}

/// One tick of vertical integration. `grounded` is the ground contact the
/// kinematic mover reported after the previous move. The displacement uses
/// the velocity before gravity is applied; the velocity kept for the next
/// tick has gravity applied and is clamped at terminal velocity.
/// Returns the upward displacement in nanometres.
pub fn player_jump(vel: &mut VerticalVelocity, grounded: bool, jump: bool, delta_ms: u32) -> (up: i64)
    requires
        old(vel).wf(),
    ensures
        final(vel).wf(),
        up == launch_velocity(old(vel).um_per_s as int, grounded, jump) * delta_ms,
        final(vel).um_per_s == fallen_velocity(
            launch_velocity(old(vel).um_per_s as int, grounded, jump),
            delta_ms as int,
        ),
{
    let mut v: i64 = vel.um_per_s;
    if grounded {
        if jump {
            v = JUMP_FORCE;
        } else {
            v = 0;
        }
    }
    assert(TERMINAL_VELOCITY * 0xffff_ffff <= v * delta_ms <= JUMP_FORCE * 0xffff_ffff) by (nonlinear_arith)
        requires
            TERMINAL_VELOCITY <= v <= JUMP_FORCE,
            0 <= delta_ms <= 0xffff_ffff,
    ;
    let up: i64 = v * (delta_ms as i64);
    let fall: i64 = GRAVITY * (delta_ms as i64);
    let w: i64 = v + fall;
    vel.um_per_s = if w < TERMINAL_VELOCITY { TERMINAL_VELOCITY } else { w };
    up
}

/// One tick of the integrator: the horizontal move of [`player_movement`]
/// with the vertical displacement of [`player_jump`], which also carries the
/// vertical velocity on to the next tick.
pub fn locomotion_tick(input: &MoveInput, vel: &mut VerticalVelocity, grounded: bool, delta_ms: u32) -> (r: Displacement)
    requires
        old(vel).wf(),
    ensures
        final(vel).wf(),
        horizontal_matches(*input, delta_ms as int, Displacement { up: 0, ..r }),
        r.up == launch_velocity(old(vel).um_per_s as int, grounded, input.jump) * delta_ms,
        final(vel).um_per_s == fallen_velocity(
            launch_velocity(old(vel).um_per_s as int, grounded, input.jump),
            delta_ms as int,
        ),
{
    let h = player_movement(input, delta_ms);
    let up = player_jump(vel, grounded, input.jump, delta_ms);
    Displacement { forward: h.forward, left: h.left, up }
}

/// One airborne or grounded tick: whether the body was grounded, whether
/// `Jump` was held, and how many milliseconds it lasted.
pub struct Tick {
    pub grounded: bool,
    pub jump: bool,
    pub delta_ms: nat,
}

/// The velocity after a run of ticks.
pub open spec fn velocity_after(v: int, ticks: Seq<Tick>) -> int
    decreases ticks.len(),
{
    if ticks.len() == 0 {
        v
    } else {
        let t = ticks[0];
        velocity_after(
            fallen_velocity(launch_velocity(v, t.grounded, t.jump), t.delta_ms as int),
            ticks.drop_first(),
        )
    }
}

/// However long the body falls, its velocity never drops below terminal
/// velocity; a grounded tick with `Jump` held starts at the jump impulse, and
/// one without starts at exactly zero.
pub proof fn lemma_vertical_velocity(v: int, ticks: Seq<Tick>)
    requires
        TERMINAL_VELOCITY <= v,
    ensures
        velocity_after(v, ticks) >= TERMINAL_VELOCITY,
        launch_velocity(v, true, true) == JUMP_FORCE,
        launch_velocity(v, true, false) == 0,
    decreases ticks.len(),
{
    if ticks.len() > 0 {
        let t = ticks[0];
        lemma_vertical_velocity(
            fallen_velocity(launch_velocity(v, t.grounded, t.jump), t.delta_ms as int),
            ticks.drop_first(),
        );
    }
}

/// Whether `d` can be added to the pending displacement without leaving `i64`.
pub open spec fn can_add(pending: Option<Displacement>, d: Displacement) -> bool {
    let p = match pending { Some(p) => p, None => Displacement { forward: 0, left: 0, up: 0 } };
    &&& i64::MIN <= p.forward + d.forward <= i64::MAX
    &&& i64::MIN <= p.left + d.left <= i64::MAX
    &&& i64::MIN <= p.up + d.up <= i64::MAX
}

/// The pending displacement with `d` added; nothing pending counts as zero.
pub open spec fn added(pending: Option<Displacement>, d: Displacement) -> Displacement {
    let p = match pending { Some(p) => p, None => Displacement { forward: 0, left: 0, up: 0 } };
    Displacement {
        forward: (p.forward + d.forward) as i64,
        left: (p.left + d.left) as i64,
        up: (p.up + d.up) as i64,
    }
}

/// Adds `d` to the displacement the kinematic mover will apply this tick.
/// Returns false, and leaves `pending` alone, when the sum does not fit.
pub fn add_translation(pending: &mut Option<Displacement>, d: Displacement) -> (ok: bool)
    ensures
        ok == can_add(*old(pending), d),
        ok ==> *final(pending) == Some(added(*old(pending), d)),
        !ok ==> *final(pending) == *old(pending),
{
    let p = match pending {
        Some(p) => *p,
        None => Displacement { forward: 0, left: 0, up: 0 },
    };
    match (p.forward.checked_add(d.forward), p.left.checked_add(d.left), p.up.checked_add(d.up)) {
        (Some(forward), Some(left), Some(up)) => {
            *pending = Some(Displacement { forward, left, up });
            true
        },
        _ => false,
    }
}

} // verus!
