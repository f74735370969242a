//! The aim integrator: mouse motion turns the body (yaw) and tilts the
//! aim socket (pitch), each on its own, scaled by the viewport's extent.
//!
//! Angles are counted in millionths of a full turn; mouse motion in
//! thousandths of a pixel.
use vstd::prelude::*;
use vstd::arithmetic::div_mod::{lemma_fundamental_div_mod, lemma_fundamental_div_mod_converse};

verus! {

/// Angle units in one full turn.
pub const TURN: i64 = 1_000_000;

/// Mouse motion read this tick: horizontal motion turns the body, vertical
/// motion tilts the aim.
#[derive(Clone, Copy, Debug, PartialEq, Eq, Structural)]
pub struct Look {
    pub yaw_mpx: i64,
    pub pitch_mpx: i64,
}

/// The size of the primary viewport, in pixels.
#[derive(Clone, Copy, Debug, PartialEq, Eq, Structural)]
pub struct Viewport {
    pub width: u32,
    pub height: u32,
}

/// Why a tick with mouse motion could not be turned into rotation.
#[derive(Clone, Copy, Debug, PartialEq, Eq, Structural)]
pub enum AimError {
    /// No primary viewport was supplied.
    MissingViewport,
    /// The viewport has no width or no height.
    EmptyViewport,
}

/// Body yaw and aim pitch, each in `[0, TURN)`.
#[derive(Clone, Copy, Debug, PartialEq, Eq, Structural)]
pub struct AimPose {
    pub yaw: i64,
    pub pitch: i64,
}

/// The rotation applied by one tick: a yaw about world up pre-multiplied
/// onto the body, a pitch about local X post-multiplied onto the aim socket.
/// Each is in `[0, TURN)`.
#[derive(Clone, Copy, Debug, PartialEq, Eq, Structural)]
pub struct AimTurn {
    pub yaw: i64,
    pub pitch: i64,
}

/// An angle brought into `[0, TURN)`.
pub open spec fn wrapped(a: int) -> int {
    a % (TURN as int)
}

/// The turn for `motion` across a viewport `extent` thousandths of a pixel
/// long that stands for one full turn; moving right or down turns negatively.
pub open spec fn turn_of(motion: int, extent: int) -> int {
    wrapped((-motion * TURN) / extent)
}

/// Horizontal motion across the whole width is a full turn.
pub open spec fn yaw_extent(v: Viewport) -> int {
    v.width * 1000
}

/// Vertical motion across the whole height is half a turn.
pub open spec fn pitch_extent(v: Viewport) -> int {
    v.height * 2000
}

/// The yaw turned by `look` on `v`: nothing while the viewport has no width.
pub open spec fn yaw_turn(look: Look, v: Viewport) -> int {
    if v.width > 0 { turn_of(look.yaw_mpx as int, yaw_extent(v)) } else { 0 }
}

/// The pitch turned by `look` on `v`: nothing while the viewport has no height.
pub open spec fn pitch_turn(look: Look, v: Viewport) -> int {
    if v.height > 0 { turn_of(look.pitch_mpx as int, pitch_extent(v)) } else { 0 }
}

/// Some axis that has motion has an extent to scale it by.
pub open spec fn turns_on(look: Look, v: Viewport) -> bool {
    (look.yaw_mpx != 0 && v.width > 0) || (look.pitch_mpx != 0 && v.height > 0)
}

/// The pose after a tick of `look` on viewport `v`; each axis is scaled by
/// its own extent alone.
pub open spec fn aimed(p: AimPose, look: Look, v: Viewport) -> AimPose {
    AimPose {
        yaw: wrapped(p.yaw + yaw_turn(look, v)) as i64,
        pitch: wrapped(p.pitch + pitch_turn(look, v)) as i64,
    }
}

impl AimPose {
    pub open spec fn wf(self) -> bool {
        0 <= self.yaw < TURN && 0 <= self.pitch < TURN
    }

    /// Facing straight ahead, level.
    pub fn new() -> (r: AimPose)
        ensures
            r.wf(),
            r.yaw == 0,
            r.pitch == 0,
    {
        AimPose { yaw: 0, pitch: 0 }
    }
}

/// Rounds `n / d` down.
fn div_floor(n: i128, d: i128) -> (q: i128)
    requires
        d > 0,
        n > i128::MIN,
    ensures
        q == n / d,
        n >= 0 ==> 0 <= q <= n,
        n < 0 ==> n <= q < 0,
{
    if n >= 0 {
        assert(0 <= n / d <= n) by (nonlinear_arith)
            requires
                n >= 0,
                d > 0,
        ;
        n / d
    } else {
        let m: i128 = -n - 1;
        let qm: i128 = m / d;
        let rm: i128 = m % d;
        proof {
            lemma_fundamental_div_mod(m as int, d as int);
            assert(n == (-qm - 1) * d + (d - rm - 1)) by (nonlinear_arith)
                requires
                    m == d * qm + rm,
                    n == -m - 1,
            ;
            assert(0 <= qm <= m) by (nonlinear_arith)
                requires
                    m >= 0,
                    d > 0,
                    qm == m / d,
            ;
            lemma_fundamental_div_mod_converse(n as int, d as int, -qm - 1, d - rm - 1);
        }
        -qm - 1
    }
}

/// `a` brought into `[0, TURN)`.
fn wrap(a: i128) -> (r: i64)
    requires
        -0x1_0000_0000_0000_0000_0000_0000 <= a <= 0x1_0000_0000_0000_0000_0000_0000,
    ensures
        r == wrapped(a as int),
        0 <= r < TURN,
{
    let q = div_floor(a, TURN as i128);
    proof {
        lemma_fundamental_div_mod(a as int, TURN as int);
    }
    (a - q * (TURN as i128)) as i64
}

/// The turn for `motion` across `extent` thousandths of a pixel; none
/// where the extent is empty.
fn axis_turn(motion: i64, extent: i128) -> (r: i64)
    requires
        0 <= extent <= 0x1_0000_0000_0000,
    ensures
        r == (if extent > 0 { turn_of(motion as int, extent as int) } else { 0 }),
        0 <= r < TURN,
{
    if extent == 0 {
        return 0;
    }
    let t: i128 = TURN as i128;
    let dm: i128 = -(motion as i128);
    assert(-0x1_0000_0000_0000_0000 * TURN <= dm * t <= 0x1_0000_0000_0000_0000 * TURN)
        by (nonlinear_arith)
        requires
            -0x1_0000_0000_0000_0000 <= dm <= 0x1_0000_0000_0000_0000,
            t == TURN,
    ;
    wrap(div_floor(dm * t, extent))
}

/// Reads one tick of mouse motion. Without motion nothing turns and no
/// viewport is needed. With motion the viewport must be present; horizontal
/// motion turns the body by the width's measure and vertical motion tilts the
/// aim by the height's, each only where its extent is non-zero. If no axis
/// with motion can be scaled, the pose is left alone and the error returned.
pub fn player_aim(pose: &mut AimPose, look: Look, viewport: Option<Viewport>) -> (r: Result<
    AimTurn,
    AimError,
>)
    requires
        old(pose).wf(),
    ensures
        final(pose).wf(),
        look.yaw_mpx == 0 && look.pitch_mpx == 0 ==> r == Ok::<AimTurn, AimError>(
            AimTurn { yaw: 0, pitch: 0 },
        ) && *final(pose) == *old(pose),
        (look.yaw_mpx != 0 || look.pitch_mpx != 0) && viewport is None ==> r == Err::<
            AimTurn,
            AimError,
        >(AimError::MissingViewport) && *final(pose) == *old(pose),
        (look.yaw_mpx != 0 || look.pitch_mpx != 0) && viewport is Some && !turns_on(
            look,
            viewport->0,
        ) ==> r == Err::<AimTurn, AimError>(AimError::EmptyViewport) && *final(pose)
            == *old(pose),
        viewport is Some && turns_on(look, viewport->0) ==> r == Ok::<AimTurn, AimError>(
            AimTurn {
                yaw: yaw_turn(look, viewport->0) as i64,
                pitch: pitch_turn(look, viewport->0) as i64,
            },
        ) && *final(pose) == aimed(*old(pose), look, viewport->0),
{
    if look.yaw_mpx == 0 && look.pitch_mpx == 0 {
        return Ok(AimTurn { yaw: 0, pitch: 0 });
    }
    let v = match viewport {
        Some(v) => v,
        None => {
            return Err(AimError::MissingViewport);
        },
    };
    if !((look.yaw_mpx != 0 && v.width > 0) || (look.pitch_mpx != 0 && v.height > 0)) {
        return Err(AimError::EmptyViewport);
    }
    let yaw = axis_turn(look.yaw_mpx, (v.width as i128) * 1000);
    let pitch = axis_turn(look.pitch_mpx, (v.height as i128) * 2000);
    pose.yaw = wrap(pose.yaw as i128 + yaw as i128);
    pose.pitch = wrap(pose.pitch as i128 + pitch as i128);
    Ok(AimTurn { yaw, pitch })
}

/// Yaw and pitch do not interfere: a tick of pure yaw followed by a tick of
/// pure pitch gives the same pose as the reverse order, and the same as
/// one tick carrying both.
pub proof fn lemma_yaw_pitch_commute(p: AimPose, yaw_mpx: i64, pitch_mpx: i64, v: Viewport)
    requires
        p.wf(),
    ensures
        aimed(aimed(p, Look { yaw_mpx, pitch_mpx: 0 }, v), Look { yaw_mpx: 0, pitch_mpx }, v)
            == aimed(aimed(p, Look { yaw_mpx: 0, pitch_mpx }, v), Look { yaw_mpx, pitch_mpx: 0 }, v),
        aimed(aimed(p, Look { yaw_mpx, pitch_mpx: 0 }, v), Look { yaw_mpx: 0, pitch_mpx }, v)
            == aimed(p, Look { yaw_mpx, pitch_mpx }, v),
{
    assert(yaw_turn(Look { yaw_mpx: 0, pitch_mpx }, v) == 0);
    assert(pitch_turn(Look { yaw_mpx, pitch_mpx: 0 }, v) == 0);
    lemma_wrapped_in_range(p.yaw + yaw_turn(Look { yaw_mpx, pitch_mpx }, v));
    lemma_wrapped_in_range(p.pitch + pitch_turn(Look { yaw_mpx, pitch_mpx }, v));
}

proof fn lemma_wrapped_in_range(a: int)
    ensures
        0 <= wrapped(a) < TURN,
        wrapped(wrapped(a)) == wrapped(a),
{
    lemma_fundamental_div_mod(wrapped(a), TURN as int);
    lemma_fundamental_div_mod_converse(wrapped(a), TURN as int, 0, wrapped(a));
}

} // verus!
