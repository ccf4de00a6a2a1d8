use locomotion_core::actions::ActionState;
use locomotion_core::frame::{flat_frame, headset_frame, Config, HeldKeys, LocomotionCommand};
use locomotion_core::geom::{QuatFx, Vec3Fx};
use locomotion_core::look::MouseSettings;
use locomotion_core::math::SCALE;

fn config() -> Config {
    let mouse = MouseSettings::new(40_000, 90 * SCALE).unwrap();
    // max speed 5.0, float height 1.1, jump height 2.0
    Config::new(mouse, 5 * SCALE, 1_100_000, 2 * SCALE).unwrap()
}

fn no_keys() -> HeldKeys {
    HeldKeys { forward: false, back: false, left: false, right: false, jump: false }
}

fn facing_plus_z() -> Vec3Fx {
    Vec3Fx { x: 0, y: 0, z: SCALE }
}

fn velocity(cmd: &LocomotionCommand) -> (i64, i64, i64) {
    (cmd.desired_velocity.x, cmd.desired_velocity.y, cmd.desired_velocity.z)
}

#[test]
fn forward_key_facing_plus_z_moves_along_plus_z() {
    let cfg = config();
    let keys = HeldKeys { forward: true, ..no_keys() };
    let cmd = flat_frame(&keys, &facing_plus_z(), &cfg).unwrap();
    assert_eq!(velocity(&cmd), (0, 0, 5 * SCALE));
    assert_eq!(cmd.float_height, 1_100_000);
    assert_eq!(cmd.jump, None);
}

#[test]
fn back_key_facing_plus_z_moves_along_minus_z() {
    let cfg = config();
    let keys = HeldKeys { back: true, ..no_keys() };
    let cmd = flat_frame(&keys, &facing_plus_z(), &cfg).unwrap();
    assert_eq!(velocity(&cmd), (0, 0, -5 * SCALE));
}

#[test]
fn left_key_facing_plus_z_moves_along_plus_x() {
    let cfg = config();
    let keys = HeldKeys { left: true, ..no_keys() };
    let cmd = flat_frame(&keys, &facing_plus_z(), &cfg).unwrap();
    assert_eq!(velocity(&cmd), (5 * SCALE, 0, 0));
}

#[test]
fn right_key_facing_plus_z_moves_along_minus_x() {
    let cfg = config();
    let keys = HeldKeys { right: true, ..no_keys() };
    let cmd = flat_frame(&keys, &facing_plus_z(), &cfg).unwrap();
    assert_eq!(velocity(&cmd), (-5 * SCALE, 0, 0));
}

#[test]
fn diagonal_keys_keep_unnormalised_magnitude() {
    let cfg = config();
    let keys = HeldKeys { forward: true, left: true, ..no_keys() };
    let cmd = flat_frame(&keys, &facing_plus_z(), &cfg).unwrap();
    assert_eq!(velocity(&cmd), (5 * SCALE, 0, 5 * SCALE));
    // squared magnitude is 2 * speed^2: sqrt(2) times one key's speed
    let (vx, _, vz) = velocity(&cmd);
    let speed = 5 * SCALE as i128;
    assert_eq!((vx as i128) * (vx as i128) + (vz as i128) * (vz as i128), 2 * speed * speed);
}

#[test]
fn no_keys_still_emits_a_zero_command() {
    let cfg = config();
    let cmd = flat_frame(&no_keys(), &facing_plus_z(), &cfg).unwrap();
    assert_eq!(velocity(&cmd), (0, 0, 0));
    assert_eq!(cmd.float_height, 1_100_000);
}

#[test]
fn jump_key_is_reported_every_frame_it_is_held() {
    let cfg = config();
    let keys = HeldKeys { jump: true, ..no_keys() };
    for _ in 0..3 {
        let cmd = flat_frame(&keys, &facing_plus_z(), &cfg).unwrap();
        assert_eq!(cmd.jump, Some(2 * SCALE));
    }
    let released = flat_frame(&no_keys(), &facing_plus_z(), &cfg).unwrap();
    assert_eq!(released.jump, None);
}

#[test]
fn vertical_forward_yields_no_command() {
    let cfg = config();
    let keys = HeldKeys { forward: true, ..no_keys() };
    let straight_up = Vec3Fx { x: 0, y: SCALE, z: 0 };
    assert!(flat_frame(&keys, &straight_up, &cfg).is_none());
}

#[test]
fn forward_key_follows_the_camera_for_eight_azimuths() {
    let cfg = config();
    let keys = HeldKeys { forward: true, ..no_keys() };
    // unit forward vectors (scaled by SCALE), spanning all four quadrants
    let azimuths = [
        (0i64, 1_000_000i64),
        (600_000, 800_000),
        (1_000_000, 0),
        (800_000, -600_000),
        (0, -1_000_000),
        (-600_000, -800_000),
        (-1_000_000, 0),
        (-800_000, 600_000),
    ];
    for (fx, fz) in azimuths {
        let forward = Vec3Fx { x: fx, y: 0, z: fz };
        let cmd = flat_frame(&keys, &forward, &cfg).unwrap();
        // the forward key moves the character along the camera's own forward
        assert_eq!(velocity(&cmd), (5 * fx, 0, 5 * fz));
    }
}

#[test]
fn headset_identity_pose_keeps_intent_magnitude() {
    let cfg = config();
    let identity = QuatFx { x: 0, y: 0, z: 0, w: SCALE };
    // stick at (0.6, 0.8): length exactly 1
    let state = Some(ActionState::Vector2(600_000, 800_000));
    let cmd = headset_frame(&state, &Some(identity), &cfg).unwrap();
    assert_eq!(velocity(&cmd), (3 * SCALE, 0, -4 * SCALE));
    let (vx, _, vz) = velocity(&cmd);
    let speed = 5 * SCALE as i128;
    assert_eq!((vx as i128) * (vx as i128) + (vz as i128) * (vz as i128), speed * speed);
    assert_eq!(cmd.jump, None);
}

#[test]
fn headset_half_turn_pose_reverses_the_intent() {
    let cfg = config();
    // 180 degrees about the vertical axis
    let half_turn = QuatFx { x: 0, y: SCALE, z: 0, w: 0 };
    let state = Some(ActionState::Vector2(600_000, 800_000));
    let cmd = headset_frame(&state, &Some(half_turn), &cfg).unwrap();
    assert_eq!(velocity(&cmd), (-3 * SCALE, 0, 4 * SCALE));
}

#[test]
fn headset_arbitrary_yaw_preserves_intent_magnitude() {
    let cfg = config();
    // rotation about Y with sin(theta/2) = 0.6, cos(theta/2) = 0.8:
    // a yaw of about 73.7 degrees, exactly representable in fixed point
    let yawed = QuatFx { x: 0, y: 600_000, z: 0, w: 800_000 };
    // stick pushed straight forward: length 1
    let state = Some(ActionState::Vector2(0, -SCALE));
    let cmd = headset_frame(&state, &Some(yawed), &cfg).unwrap();
    assert_eq!(velocity(&cmd), (4_800_000, 0, 1_400_000));
    let (vx, _, vz) = velocity(&cmd);
    let speed = 5 * SCALE as i128;
    assert_eq!((vx as i128) * (vx as i128) + (vz as i128) * (vz as i128), speed * speed);
}

#[test]
fn headset_zero_intent_still_emits_a_command() {
    let cfg = config();
    let identity = QuatFx { x: 0, y: 0, z: 0, w: SCALE };
    let state = Some(ActionState::Vector2(0, 0));
    let cmd = headset_frame(&state, &Some(identity), &cfg).unwrap();
    assert_eq!(velocity(&cmd), (0, 0, 0));
}

#[test]
fn headset_missing_pose_emits_nothing() {
    let cfg = config();
    let state = Some(ActionState::Vector2(600_000, 800_000));
    assert!(headset_frame(&state, &None, &cfg).is_none());
}

#[test]
fn headset_malformed_action_state_is_a_no_op() {
    let cfg = config();
    let identity = QuatFx { x: 0, y: 0, z: 0, w: SCALE };
    assert!(headset_frame(&Some(ActionState::Bool(true)), &Some(identity), &cfg).is_none());
    assert!(headset_frame(&Some(ActionState::Float(SCALE)), &Some(identity), &cfg).is_none());
    assert!(headset_frame(&None, &Some(identity), &cfg).is_none());
}

#[test]
fn config_rejects_out_of_range_values() {
    let mouse = MouseSettings::new(40_000, 90 * SCALE).unwrap();
    assert!(Config::new(mouse, -1, 1_100_000, 2 * SCALE).is_none());
    assert!(Config::new(mouse, 5 * SCALE, -1, 2 * SCALE).is_none());
    assert!(Config::new(mouse, 5 * SCALE, 1_100_000, -1).is_none());
    assert!(Config::new(mouse, 5 * SCALE, 1_100_000, 2 * SCALE).is_some());
}
