//! Per-frame locomotion mapping.
//!
//! Each simulation tick, a raw 2D movement intent (held keys or an analog
//! stick) is combined with the active reference frame — the flat camera's
//! forward vector, or the headset pose — to produce one
//! [`LocomotionCommand`]: a world-space desired velocity, the float-height
//! set-point and an optional jump trigger.  Exactly one reference frame is
//! authoritative per frame.  A frame whose reference cannot be resolved
//! (no headset pose, or a camera looking straight up or down so that the
//! flattened forward vanishes) yields no command at all; it is skipped,
//! never replaced by a zero command.

use vstd::prelude::*;

verus! {

use crate::actions::ActionState;
use crate::geom::{
    flat_norm,
    lemma_mul_magnitude,
    lemma_square_bounds,
    norm2_xz,
    rotate,
    rotated_num,
    QuatFx,
    Vec3Fx,
    NORM_BOUND,
    QUAT_BOUND,
    ROTATED_BOUND,
};
use crate::look::MouseSettings;
use crate::math::{
    div_towards_zero,
    div_trunc,
    lemma_div_towards_zero_denom,
    lemma_sqrt_floor_bounds,
    lemma_sqrt_floor_pos,
    sqrt_floor,
    wide_mul,
    wide_mul128,
    MAX_FIXED,
    SCALE,
};

/// Largest locomotion speed the mapper accepts: one thousand units per
/// second, in fixed-point steps.
pub const SPEED_BOUND: i64 = 1_000_000_000;

/// Magnitude bound on the camera-forward coordinates handed to the flat
/// resolver: twice a unit vector, leaving room for fixed-point error.
pub const FORWARD_BOUND: i64 = 2_000_000;

/// The keys that drive desktop locomotion, as sampled for one frame.
#[derive(Clone, Copy, PartialEq, Eq, Structural, Debug)]
pub struct HeldKeys {
    pub forward: bool,
    pub back: bool,
    pub left: bool,
    pub right: bool,
    pub jump: bool,
}

/// A raw, camera-independent 2D movement intent: `x` is the leftward
/// contribution, `z` the forward contribution, both in fixed-point units.
#[derive(Clone, Copy, PartialEq, Eq, Structural, Debug)]
pub struct MovementIntent {
    pub x: i64,
    pub z: i64,
}

/// One digital axis: a unit contribution per held key, opposing keys
/// cancelling.
pub open spec fn key_axis(pos: bool, neg: bool) -> int {
    (if pos {
        SCALE as int
    } else {
        0
    }) - (if neg {
        SCALE as int
    } else {
        0
    })
}

/// The intent the held keys describe.
pub open spec fn keys_intent(keys: HeldKeys) -> MovementIntent {
    MovementIntent {
        x: key_axis(keys.left, keys.right) as i64,
        z: key_axis(keys.forward, keys.back) as i64,
    }
}

/// The intent a 2D analog axis sample `(ax, ay)` describes: `ay` grows
/// towards the player, so forward is `-ay`.
pub open spec fn axis_intent(ax: i64, ay: i64) -> MovementIntent {
    MovementIntent { x: ax, z: (-(ay as int)) as i64 }
}

impl MovementIntent {
    /// Both coordinates within one unit.
    pub open spec fn bounded(self) -> bool {
        &&& -SCALE <= self.x <= SCALE
        &&& -SCALE <= self.z <= SCALE
    }

    /// Sum the unit contributions of the held directional keys.  The sum
    /// is deliberately not normalised: diagonal key pairs yield a longer
    /// intent than a single key.
    pub fn from_keys(keys: &HeldKeys) -> (m: MovementIntent)
        ensures
            m == keys_intent(*keys),
            m.bounded(),
    {
        let x: i64 = (if keys.left {
            SCALE
        } else {
            0
        }) - (if keys.right {
            SCALE
        } else {
            0
        });
        let z: i64 = (if keys.forward {
            SCALE
        } else {
            0
        }) - (if keys.back {
            SCALE
        } else {
            0
        });
        MovementIntent { x, z }
    }

    /// Take an analog 2D axis sample, each coordinate in `[-1, +1]`.
    pub fn from_axis(ax: i64, ay: i64) -> (m: MovementIntent)
        requires
            -SCALE <= ax <= SCALE,
            -SCALE <= ay <= SCALE,
        ensures
            m == axis_intent(ax, ay),
            m.bounded(),
    {
        MovementIntent { x: ax, z: -ay }
    }
}

/// The resolved yaw-only reference basis: the horizontal part of the
/// authoritative forward vector.  Never the zero vector.
#[derive(Clone, Copy, PartialEq, Eq, Structural, Debug)]
pub struct ReferenceBasis {
    pub x: i64,
    pub z: i64,
}

impl ReferenceBasis {
    pub open spec fn wf(self) -> bool {
        &&& -NORM_BOUND <= self.x <= NORM_BOUND
        &&& -NORM_BOUND <= self.z <= NORM_BOUND
        &&& !(self.x == 0 && self.z == 0)
    }

    /// Flatten a forward vector: drop its vertical component.  Fails
    /// exactly when nothing horizontal is left (the camera looks straight
    /// up or down).
    pub fn from_forward(forward: &Vec3Fx) -> (r: Option<ReferenceBasis>)
        requires
            forward.bounded(NORM_BOUND as int),
        ensures
            (r is Some) <==> !(forward.x == 0 && forward.z == 0),
            r matches Some(b) ==> b == (ReferenceBasis { x: forward.x, z: forward.z })
                && b.wf(),
    {
        if forward.x == 0 && forward.z == 0 {
            None
        } else {
            Some(ReferenceBasis { x: forward.x, z: forward.z })
        }
    }
}

/// Numerator of the `x` coordinate of the intent rotated so that world
/// `+Z` aligns with the basis forward; the true coordinate is this value
/// divided by the basis length.
pub open spec fn aligned_x(b: ReferenceBasis, m: MovementIntent) -> int {
    (m.x as int) * (b.z as int) + (m.z as int) * (b.x as int)
}

/// Numerator of the `z` coordinate of the aligned intent.
pub open spec fn aligned_z(b: ReferenceBasis, m: MovementIntent) -> int {
    (m.z as int) * (b.z as int) - (m.x as int) * (b.x as int)
}

/// The basis length, rounded down.
pub open spec fn basis_norm(b: ReferenceBasis) -> int {
    sqrt_floor(norm2_xz(b.x as int, b.z as int))
}

/// The horizontal desired velocity in flat-camera mode: the aligned
/// intent, normalised by the basis length and scaled by the speed.
pub open spec fn flat_velocity(b: ReferenceBasis, m: MovementIntent, speed: int) -> (int, int) {
    (
        div_towards_zero(speed * aligned_x(b, m), basis_norm(b) * (SCALE as int)),
        div_towards_zero(speed * aligned_z(b, m), basis_norm(b) * (SCALE as int)),
    )
}

/// The world direction a headset pose gives to an intent: the intent,
/// embedded in the ground plane, rotated by the pose, flattened again.
pub open spec fn headset_dir(q: QuatFx, m: MovementIntent) -> (int, int) {
    let rn = rotated_num(q, (Vec3Fx { x: m.x, y: 0, z: m.z }));
    (
        div_towards_zero(rn.0, (SCALE as int) * (SCALE as int)),
        div_towards_zero(rn.2, (SCALE as int) * (SCALE as int)),
    )
}

/// The length of the raw intent, rounded down.
pub open spec fn intent_len(m: MovementIntent) -> int {
    sqrt_floor(norm2_xz(m.x as int, m.z as int))
}

/// The horizontal desired velocity in headset mode: the flattened rotated
/// direction, renormalised, rescaled by the raw intent's own length (so
/// flattening does not shrink the speed), and scaled by the speed.  A
/// direction with no horizontal part yields zero velocity.
pub open spec fn headset_velocity(q: QuatFx, m: MovementIntent, speed: int) -> (int, int) {
    let d = headset_dir(q, m);
    if d.0 == 0 && d.1 == 0 {
        (0, 0)
    } else {
        let den = sqrt_floor(norm2_xz(d.0, d.1)) * (SCALE as int);
        (
            div_towards_zero(speed * (intent_len(m) * d.0), den),
            div_towards_zero(speed * (intent_len(m) * d.1), den),
        )
    }
}

/// Startup-only configuration: mouse settings, locomotion speed, float
/// height and jump height, all fixed-point.
#[derive(Clone, Copy, PartialEq, Eq, Structural, Debug)]
pub struct Config {
    pub mouse: MouseSettings,
    pub max_speed: i64,
    pub float_height: i64,
    pub jump_height: i64,
}

impl Config {
    pub open spec fn wf(self) -> bool {
        &&& self.mouse.wf()
        &&& 0 <= self.max_speed <= SPEED_BOUND
        &&& 0 <= self.float_height <= MAX_FIXED
        &&& 0 <= self.jump_height <= MAX_FIXED
    }

    /// Build a configuration, rejecting values outside the exact range.
    pub fn new(mouse: MouseSettings, max_speed: i64, float_height: i64, jump_height: i64) -> (r:
        Option<Config>)
        ensures
            (r is Some) <==> (mouse.wf() && 0 <= max_speed <= SPEED_BOUND && 0 <= float_height
                <= MAX_FIXED && 0 <= jump_height <= MAX_FIXED),
            r matches Some(c) ==> c == (Config { mouse, max_speed, float_height, jump_height }),
    {
        if -MAX_FIXED <= mouse.sensitivity && mouse.sensitivity <= MAX_FIXED && 0
            <= mouse.pitch_limit && mouse.pitch_limit <= MAX_FIXED && 0 <= max_speed && max_speed
            <= SPEED_BOUND && 0 <= float_height && float_height <= MAX_FIXED && 0 <= jump_height
            && jump_height <= MAX_FIXED {
            Some(Config { mouse, max_speed, float_height, jump_height })
        } else {
            None
        }
    }
}

/// The per-frame output contract handed to the external character
/// controller.
#[derive(Clone, Copy, PartialEq, Eq, Debug)]
pub struct LocomotionCommand {
    pub desired_velocity: Vec3Fx,
    pub float_height: i64,
    pub jump: Option<i64>,
}

/// The jump trigger for one frame: the configured height while the jump
/// input is held, nothing otherwise (debouncing is the external
/// controller's business).
pub open spec fn jump_request(jump_held: bool, cfg: Config) -> Option<i64> {
    if jump_held {
        Some(cfg.jump_height)
    } else {
        None
    }
}

/// The authoritative reference frame for one tick.  New input modalities
/// become further variants here without touching the mapper.
#[derive(Clone, Copy, PartialEq, Eq, Debug)]
pub enum ReferenceFrame {
    /// A flat-screen camera: its current forward vector.
    Flat { forward: Vec3Fx },
    /// A head-mounted display: the first view pose of the frame, when one
    /// is available.
    Headset { pose: Option<QuatFx> },
}

impl ReferenceFrame {
    pub open spec fn wf(self) -> bool {
        match self {
            ReferenceFrame::Flat { forward } => forward.bounded(FORWARD_BOUND as int),
            ReferenceFrame::Headset { pose } => pose matches Some(q) ==> q.bounded(
                QUAT_BOUND as int,
            ),
        }
    }
}

/// Map an intent through the flat-camera basis:
/// `desired_velocity = rotation(basis) * intent * max_speed`, where the
/// rotation takes world `+Z` to the basis forward.
pub fn map_to_world(b: &ReferenceBasis, m: &MovementIntent, max_speed: i64) -> (v: Vec3Fx)
    requires
        b.wf(),
        m.bounded(),
        0 <= max_speed <= SPEED_BOUND,
    ensures
        v.x == flat_velocity(*b, *m, max_speed as int).0,
        v.y == 0,
        v.z == flat_velocity(*b, *m, max_speed as int).1,
{
    proof {
        lemma_mul_magnitude(m.x as int, b.z as int, SCALE as int, NORM_BOUND as int);
        lemma_mul_magnitude(m.z as int, b.x as int, SCALE as int, NORM_BOUND as int);
        lemma_mul_magnitude(m.z as int, b.z as int, SCALE as int, NORM_BOUND as int);
        lemma_mul_magnitude(m.x as int, b.x as int, SCALE as int, NORM_BOUND as int);
        assert(SCALE as int * NORM_BOUND as int == 3_000_000_000_000_000);
    }
    let ax: i128 = wide_mul(m.x, b.z) + wide_mul(m.z, b.x);
    let az: i128 = wide_mul(m.z, b.z) - wide_mul(m.x, b.x);
    let n: u64 = flat_norm(b.x, b.z);
    proof {
        assert(b.x != 0 ==> (b.x as int) * (b.x as int) >= 1) by (nonlinear_arith);
        assert(b.z != 0 ==> (b.z as int) * (b.z as int) >= 1) by (nonlinear_arith);
        lemma_square_bounds(b.x as int, NORM_BOUND as int);
        lemma_square_bounds(b.z as int, NORM_BOUND as int);
        lemma_sqrt_floor_pos(norm2_xz(b.x as int, b.z as int));
    }
    let den: i128 = wide_mul128(n as i128, SCALE as i128);
    let nx: i128 = wide_mul128(max_speed as i128, ax);
    let nz: i128 = wide_mul128(max_speed as i128, az);
    proof {
        assert(den >= SCALE) by (nonlinear_arith)
            requires
                den == (n as int) * (SCALE as int),
                n >= 1,
        ;
        lemma_mul_magnitude(max_speed as int, ax as int, SPEED_BOUND as int, 6_000_000_000_000_000);
        lemma_mul_magnitude(max_speed as int, az as int, SPEED_BOUND as int, 6_000_000_000_000_000);
        assert(SPEED_BOUND as int * 6_000_000_000_000_000 == 6_000_000_000_000_000_000_000_000);
        lemma_div_towards_zero_denom(nx as int, den as int, 6_000_000_000_000_000_000_000_000, SCALE as int);
        lemma_div_towards_zero_denom(nz as int, den as int, 6_000_000_000_000_000_000_000_000, SCALE as int);
        vstd::arithmetic::div_mod::lemma_div_multiples_vanish(6_000_000_000_000_000_000, SCALE as int);
        assert(SCALE as int * 6_000_000_000_000_000_000 == 6_000_000_000_000_000_000_000_000);
    }
    let vx: i128 = div_trunc(nx, den);
    let vz: i128 = div_trunc(nz, den);
    Vec3Fx { x: vx as i64, y: 0, z: vz as i64 }
}

/// Map an intent through a headset pose: rotate the intent into world
/// space, flatten it, renormalise, and rescale by the intent's own length
/// and the speed.
pub fn map_headset(q: &QuatFx, m: &MovementIntent, max_speed: i64) -> (v: Vec3Fx)
    requires
        q.bounded(QUAT_BOUND as int),
        m.bounded(),
        0 <= max_speed <= SPEED_BOUND,
    ensures
        v.x == headset_velocity(*q, *m, max_speed as int).0,
        v.y == 0,
        v.z == headset_velocity(*q, *m, max_speed as int).1,
{
    let world = rotate(q, &Vec3Fx { x: m.x, y: 0, z: m.z });
    if world.x == 0 && world.z == 0 {
        return Vec3Fx { x: 0, y: 0, z: 0 };
    }
    let len: u64 = flat_norm(m.x, m.z);
    let nd: u64 = flat_norm(world.x, world.z);
    proof {
        lemma_square_bounds(m.x as int, SCALE as int);
        lemma_square_bounds(m.z as int, SCALE as int);
        lemma_sqrt_floor_bounds(norm2_xz(m.x as int, m.z as int));
        assert(len <= 1_500_000) by (nonlinear_arith)
            requires
                (len as int) * (len as int) <= 2_000_000_000_000,
                0 <= len,
        ;
        assert(world.x != 0 ==> (world.x as int) * (world.x as int) >= 1) by (nonlinear_arith);
        assert(world.z != 0 ==> (world.z as int) * (world.z as int) >= 1) by (nonlinear_arith);
        lemma_square_bounds(world.x as int, ROTATED_BOUND as int);
        lemma_square_bounds(world.z as int, ROTATED_BOUND as int);
        lemma_sqrt_floor_pos(norm2_xz(world.x as int, world.z as int));
    }
    let den: i128 = wide_mul128(nd as i128, SCALE as i128);
    let lx: i128 = wide_mul128(len as i128, world.x as i128);
    let lz: i128 = wide_mul128(len as i128, world.z as i128);
    proof {
        lemma_mul_magnitude(len as int, world.x as int, 1_500_000, ROTATED_BOUND as int);
        lemma_mul_magnitude(len as int, world.z as int, 1_500_000, ROTATED_BOUND as int);
        assert(1_500_000 * (ROTATED_BOUND as int) == 150_000_000_000_000);
    }
    let nx: i128 = wide_mul128(max_speed as i128, lx);
    let nz: i128 = wide_mul128(max_speed as i128, lz);
    proof {
        assert(den >= SCALE) by (nonlinear_arith)
            requires
                den == (nd as int) * (SCALE as int),
                nd >= 1,
        ;
        lemma_mul_magnitude(max_speed as int, lx as int, SPEED_BOUND as int, 150_000_000_000_000);
        lemma_mul_magnitude(max_speed as int, lz as int, SPEED_BOUND as int, 150_000_000_000_000);
        assert(SPEED_BOUND as int * 150_000_000_000_000 == 150_000_000_000_000_000_000_000);
        lemma_div_towards_zero_denom(nx as int, den as int, 150_000_000_000_000_000_000_000, SCALE as int);
        lemma_div_towards_zero_denom(nz as int, den as int, 150_000_000_000_000_000_000_000, SCALE as int);
        vstd::arithmetic::div_mod::lemma_div_multiples_vanish(150_000_000_000_000_000, SCALE as int);
        assert(SCALE as int * 150_000_000_000_000_000 == 150_000_000_000_000_000_000_000);
    }
    let vx: i128 = div_trunc(nx, den);
    let vz: i128 = div_trunc(nz, den);
    Vec3Fx { x: vx as i64, y: 0, z: vz as i64 }
}

/// Emit the locomotion command for one tick, from whichever reference
/// frame is authoritative.  A command is emitted every frame the frame
/// resolves — zero intent included, because the downstream controller
/// needs continuous feeding — and skipped exactly when resolution fails.
pub fn emit_command(
    frame: &ReferenceFrame,
    intent: &MovementIntent,
    jump_held: bool,
    cfg: &Config,
) -> (r: Option<LocomotionCommand>)
    requires
        frame.wf(),
        intent.bounded(),
        cfg.wf(),
    ensures
        (*frame) matches ReferenceFrame::Flat { forward } ==> {
            if forward.x == 0 && forward.z == 0 {
                r is None
            } else {
                r matches Some(c) && c.desired_velocity.x == flat_velocity(
                    (ReferenceBasis { x: forward.x, z: forward.z }),
                    *intent,
                    cfg.max_speed as int,
                ).0 && c.desired_velocity.y == 0 && c.desired_velocity.z == flat_velocity(
                    (ReferenceBasis { x: forward.x, z: forward.z }),
                    *intent,
                    cfg.max_speed as int,
                ).1 && c.float_height == cfg.float_height && c.jump == jump_request(
                    jump_held,
                    *cfg,
                )
            }
        },
        (*frame) matches ReferenceFrame::Headset { pose: None } ==> r is None,
        (*frame) matches ReferenceFrame::Headset { pose: Some(q) } ==> (r matches Some(c)
            && c.desired_velocity.x == headset_velocity(q, *intent, cfg.max_speed as int).0
            && c.desired_velocity.y == 0 && c.desired_velocity.z == headset_velocity(
            q,
            *intent,
            cfg.max_speed as int,
        ).1 && c.float_height == cfg.float_height && c.jump == jump_request(jump_held, *cfg)),
{
    match frame {
        ReferenceFrame::Flat { forward } => {
            match ReferenceBasis::from_forward(forward) {
                None => None,
                Some(b) => {
                    let v = map_to_world(&b, intent, cfg.max_speed);
                    Some(
                        LocomotionCommand {
                            desired_velocity: v,
                            float_height: cfg.float_height,
                            jump: if jump_held {
                                Some(cfg.jump_height)
                            } else {
                                None
                            },
                        },
                    )
                },
            }
        },
        ReferenceFrame::Headset { pose } => {
            match pose {
                None => None,
                Some(q) => {
                    let v = map_headset(q, intent, cfg.max_speed);
                    Some(
                        LocomotionCommand {
                            desired_velocity: v,
                            float_height: cfg.float_height,
                            jump: if jump_held {
                                Some(cfg.jump_height)
                            } else {
                                None
                            },
                        },
                    )
                },
            }
        },
    }
}

/// One desktop tick: held keys plus the camera's forward vector.
pub fn flat_frame(keys: &HeldKeys, camera_forward: &Vec3Fx, cfg: &Config) -> (r: Option<
    LocomotionCommand,
>)
    requires
        camera_forward.bounded(FORWARD_BOUND as int),
        cfg.wf(),
    ensures
        camera_forward.x == 0 && camera_forward.z == 0 ==> r is None,
        !(camera_forward.x == 0 && camera_forward.z == 0) ==> (r matches Some(c)
            && c.desired_velocity.x == flat_velocity(
            (ReferenceBasis { x: camera_forward.x, z: camera_forward.z }),
            keys_intent(*keys),
            cfg.max_speed as int,
        ).0 && c.desired_velocity.y == 0 && c.desired_velocity.z == flat_velocity(
            (ReferenceBasis { x: camera_forward.x, z: camera_forward.z }),
            keys_intent(*keys),
            cfg.max_speed as int,
        ).1 && c.float_height == cfg.float_height && c.jump == jump_request(keys.jump, *cfg)),
{
    let intent = MovementIntent::from_keys(keys);
    let frame = ReferenceFrame::Flat { forward: *camera_forward };
    emit_command(&frame, &intent, keys.jump, cfg)
}

/// One headset tick: the resolved state of the logical flight action plus
/// the first available view pose.  A malformed action state (not a 2D
/// vector) or a missing pose yields no command.
pub fn headset_frame(state: &Option<ActionState>, pose: &Option<QuatFx>, cfg: &Config) -> (r:
    Option<LocomotionCommand>)
    requires
        cfg.wf(),
        (*pose) matches Some(q) ==> q.bounded(QUAT_BOUND as int),
        (*state) matches Some(ActionState::Vector2(ax, ay)) ==> -SCALE <= ax <= SCALE && -SCALE <= ay
            <= SCALE,
    ensures
        (*state) is None ==> r is None,
        (*state) matches Some(ActionState::Bool(_)) ==> r is None,
        (*state) matches Some(ActionState::Float(_)) ==> r is None,
        (*state) matches Some(ActionState::Vector2(ax, ay)) ==> ((*pose) is None ==> r is None),
        (*state) matches Some(ActionState::Vector2(ax, ay)) ==> ((*pose) matches Some(q) ==> (r matches Some(
            c,
        ) && c.desired_velocity.x == headset_velocity(q, axis_intent(ax, ay), cfg.max_speed as int).0
            && c.desired_velocity.y == 0 && c.desired_velocity.z == headset_velocity(
            q,
            axis_intent(ax, ay),
            cfg.max_speed as int,
        ).1 && c.float_height == cfg.float_height && (c.jump is None))),
{
    match state {
        Some(ActionState::Vector2(ax, ay)) => {
            let intent = MovementIntent::from_axis(*ax, *ay);
            let frame = ReferenceFrame::Headset { pose: *pose };
            emit_command(&frame, &intent, false, cfg)
        },
        _ => None,
    }
}

/// Aligning an intent with a basis scales its squared length by exactly
/// the basis's own squared length: before the division by the basis norm,
/// `|aligned|^2 == |intent|^2 * |basis|^2`.  The basis rotation therefore
/// never stretches one direction over another — in particular a diagonal
/// two-key intent keeps squared length `2`, i.e. magnitude `sqrt(2)`
/// times a single key's.
#[verifier::rlimit(50)]
pub proof fn lemma_alignment_preserves_norm2(b: ReferenceBasis, m: MovementIntent)
    ensures
        aligned_x(b, m) * aligned_x(b, m) + aligned_z(b, m) * aligned_z(b, m) == norm2_xz(
            m.x as int,
            m.z as int,
        ) * norm2_xz(b.x as int, b.z as int),
{
    let mx = m.x as int;
    let mz = m.z as int;
    let bx = b.x as int;
    let bz = b.z as int;
    let t1 = mx * bz;
    let t2 = mz * bx;
    let t3 = mz * bz;
    let t4 = mx * bx;
    assert((t1 + t2) * (t1 + t2) == t1 * t1 + 2 * (t1 * t2) + t2 * t2) by (nonlinear_arith);
    assert((t3 - t4) * (t3 - t4) == t3 * t3 - 2 * (t3 * t4) + t4 * t4) by (nonlinear_arith);
    assert((mx * bz) * (mz * bx) == (mz * bz) * (mx * bx)) by (nonlinear_arith);
    assert((mx * bz) * (mx * bz) == (mx * mx) * (bz * bz)) by (nonlinear_arith);
    assert((mz * bx) * (mz * bx) == (mz * mz) * (bx * bx)) by (nonlinear_arith);
    assert((mz * bz) * (mz * bz) == (mz * mz) * (bz * bz)) by (nonlinear_arith);
    assert((mx * bx) * (mx * bx) == (mx * mx) * (bx * bx)) by (nonlinear_arith);
    assert((mx * mx + mz * mz) * (bx * bx + bz * bz) == (mx * mx) * (bx * bx) + (mx * mx) * (bz
        * bz) + (mz * mz) * (bx * bx) + (mz * mz) * (bz * bz)) by (nonlinear_arith);
}

/// Sign selection: whatever side of world `+Z` the basis forward lies on,
/// a forward-only intent aligns to an exact nonnegative multiple of the
/// basis forward itself — the rotation maps the forward key onto the
/// camera's actual forward direction.
pub proof fn lemma_forward_intent_aligns(b: ReferenceBasis, k: i64)
    ensures
        aligned_x(b, (MovementIntent { x: 0, z: k })) == (k as int) * (b.x as int),
        aligned_z(b, (MovementIntent { x: 0, z: k })) == (k as int) * (b.z as int),
{
}

/// Headset magnitude preservation: rescaling the flattened direction `d`
/// by the intent length `len` gives a vector whose squared length is
/// exactly `len^2 * |d|^2` — so after the division by `|d|` the result
/// has magnitude exactly `len`, the raw intent's length.
pub proof fn lemma_rescale_preserves_norm2(len: int, dx: int, dz: int)
    ensures
        (len * dx) * (len * dx) + (len * dz) * (len * dz) == (len * len) * norm2_xz(dx, dz),
{
    assert((len * dx) * (len * dx) + (len * dz) * (len * dz) == (len * len) * (dx * dx + dz * dz))
        by (nonlinear_arith);
}

/// With the camera already facing world `+Z`, the basis rotation is the
/// identity: each cardinal key maps to its own world axis scaled by the
/// speed, exactly.
pub proof fn lemma_cardinal_keys_identity_basis(speed: int)
    requires
        0 <= speed,
    ensures
        flat_velocity((ReferenceBasis { x: 0, z: SCALE }), (MovementIntent { x: 0, z: SCALE }), speed).0
            == 0,
        flat_velocity((ReferenceBasis { x: 0, z: SCALE }), (MovementIntent { x: 0, z: SCALE }), speed).1
            == speed,
        flat_velocity((ReferenceBasis { x: 0, z: SCALE }), (MovementIntent { x: 0, z: ((-SCALE) as i64) }), speed).0
            == 0,
        flat_velocity((ReferenceBasis { x: 0, z: SCALE }), (MovementIntent { x: 0, z: ((-SCALE) as i64) }), speed).1
            == -speed,
        flat_velocity((ReferenceBasis { x: 0, z: SCALE }), (MovementIntent { x: SCALE, z: 0 }), speed).0
            == speed,
        flat_velocity((ReferenceBasis { x: 0, z: SCALE }), (MovementIntent { x: SCALE, z: 0 }), speed).1
            == 0,
        flat_velocity((ReferenceBasis { x: 0, z: SCALE }), (MovementIntent { x: ((-SCALE) as i64), z: 0 }), speed).0
            == -speed,
        flat_velocity((ReferenceBasis { x: 0, z: SCALE }), (MovementIntent { x: ((-SCALE) as i64), z: 0 }), speed).1
            == 0,
{
    let b = ReferenceBasis { x: 0, z: SCALE };
    lemma_identity_basis_norm();
    assert(basis_norm(b) * (SCALE as int) == 1_000_000_000_000);
    lemma_exact_quotient(speed);
    assert(aligned_x(b, (MovementIntent { x: 0, z: SCALE })) == 0);
    assert(speed * aligned_x(b, (MovementIntent { x: 0, z: SCALE })) == 0);
    let mb = MovementIntent { x: 0, z: ((-SCALE) as i64) };
    let ml = MovementIntent { x: ((-SCALE) as i64), z: 0 };
    assert((mb.z as int) * (b.z as int) == -1_000_000_000_000) by (nonlinear_arith)
        requires
            mb.z as int == -1_000_000,
            b.z as int == 1_000_000,
    ;
    assert((ml.x as int) * (b.z as int) == -1_000_000_000_000) by (nonlinear_arith)
        requires
            ml.x as int == -1_000_000,
            b.z as int == 1_000_000,
    ;
    assert(aligned_z(b, mb) == -1_000_000_000_000);
    assert(aligned_x(b, ml) == -1_000_000_000_000);
    assert(speed * aligned_x(b, mb) == 0);
    assert(speed * aligned_z(b, ml) == 0);
    lemma_times_negated_unit(speed, aligned_z(b, mb));
    lemma_times_negated_unit(speed, aligned_x(b, ml));
}

/// Multiplying by a value known to be `-SCALE * SCALE` negates the
/// product with `SCALE * SCALE`.
proof fn lemma_times_negated_unit(speed: int, a: int)
    requires
        a == -1_000_000_000_000,
    ensures
        speed * a == -(speed * 1_000_000_000_000),
{
    assert(speed * a == -(speed * 1_000_000_000_000)) by (nonlinear_arith)
        requires
            a == -1_000_000_000_000,
    ;
}

/// Diagonal keys with the camera facing world `+Z`: forward+left maps to
/// `(speed, 0, speed)` — squared magnitude `2 * speed^2`, i.e. `sqrt(2)`
/// times the speed, not the speed itself.
pub proof fn lemma_diagonal_keys_identity_basis(speed: int)
    requires
        0 <= speed,
    ensures
        flat_velocity(
            (ReferenceBasis { x: 0, z: SCALE }),
            (MovementIntent { x: SCALE, z: SCALE }),
            speed,
        ).0 == speed,
        flat_velocity(
            (ReferenceBasis { x: 0, z: SCALE }),
            (MovementIntent { x: SCALE, z: SCALE }),
            speed,
        ).1 == speed,
        speed * speed + speed * speed == 2 * (speed * speed),
{
    let b = ReferenceBasis { x: 0, z: SCALE };
    lemma_identity_basis_norm();
    assert(basis_norm(b) * (SCALE as int) == 1_000_000_000_000);
    lemma_exact_quotient(speed);
}

/// The basis pointing along `+Z` with unit length has norm exactly one
/// unit.
proof fn lemma_identity_basis_norm()
    ensures
        basis_norm((ReferenceBasis { x: 0, z: SCALE })) == SCALE,
{
    assert(norm2_xz(0, SCALE as int) == 1_000_000_000_000);
    crate::math::lemma_sqrt_floor_unique(1_000_000_000_000, 1_000_000);
}

/// `speed * (SCALE * SCALE)` divided by `SCALE * SCALE` is `speed`, in
/// both signs.
proof fn lemma_exact_quotient(speed: int)
    requires
        0 <= speed,
    ensures
        div_towards_zero(speed * 1_000_000_000_000, 1_000_000_000_000) == speed,
        div_towards_zero(-(speed * 1_000_000_000_000), 1_000_000_000_000) == speed * -1,
        div_towards_zero(0, 1_000_000_000_000) == 0,
{
    vstd::arithmetic::div_mod::lemma_div_multiples_vanish(speed, 1_000_000_000_000);
    assert(speed * 1_000_000_000_000 == 1_000_000_000_000 * speed);
    vstd::arithmetic::div_mod::lemma_div_of0(1_000_000_000_000);
}

} // verus!
