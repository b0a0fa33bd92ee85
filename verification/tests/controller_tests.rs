use character_controller::camera::{CameraPose, Collider, RenderPlayer, CameraConfig};
use character_controller::character::Character;
use character_controller::controller::{
    CharacterController, CharacterControllerBundle, SetupError, GROUND_PROBE_REACH,
    GROUND_PROBE_SCALE,
};
use character_controller::grounded::{GroundContact, Grounded};
use character_controller::look::{InputSnapshot, PlayerSettings, View};
use character_controller::math::{Vector2, Vector3};
use character_controller::movement::{LinearVelocity, MaxSlopeAngle, MovementBundle};
use character_controller::plugin::CharacterControllerPlugin;
use character_controller::scalar::{Scalar, ONE};

fn s(raw: i64) -> Scalar {
    Scalar::from_raw(raw)
}

fn capsule() -> Collider {
    Collider::Capsule { half_height: s(750_000_000), radius: s(400_000_000) }
}

const THIRTY_DEGREES: i64 = 523_598_775;
const TENTH: i64 = 100_000_000;
const MILLI: i64 = 1_000_000;

/// The player of the game: acceleration 30, damping 0.92, jump impulse 7,
/// slopes up to thirty degrees, camera three quarters of a radius up.
fn player(entity: u64) -> Character {
    let bundle = CharacterControllerBundle::new(capsule()).unwrap().with_movement(
        Scalar::from_int(30),
        s(920_000_000),
        Scalar::from_int(7),
        s(THIRTY_DEGREES),
    );
    let mut c = Character::new(entity, Vector3::new(s(0), s(1_500_000_000), s(0)), bundle);
    c.camera_config = Some(CameraConfig { height_offset: s(0), radius_scale: s(750_000_000) });
    c
}

fn quiet() -> InputSnapshot {
    InputSnapshot {
        move_pressed: false,
        move_axis: Vector2::zero(),
        look_delta: Vector2::zero(),
        jump_pressed: false,
        run_pressed: false,
        crouch_pressed: false,
        interact_pressed: false,
    }
}

#[test]
fn bundle_of_a_capsule() {
    let bundle = CharacterControllerBundle::new(capsule()).unwrap();
    assert_eq!(bundle.character_controller, CharacterController);
    assert_eq!(bundle.collider, capsule());
    assert_eq!(bundle.ground_caster.shape_scale.raw, 990_000_000);
    assert_eq!(bundle.ground_caster.shape_scale.raw, GROUND_PROBE_SCALE);
    assert_eq!(bundle.ground_caster.max_time_of_impact.raw, 200_000_000);
    assert_eq!(bundle.ground_caster.max_time_of_impact.raw, GROUND_PROBE_REACH);
    assert_eq!(bundle.movement, MovementBundle::default());
    assert_eq!(bundle.player_settings, PlayerSettings::default());
    assert_eq!(bundle.view, View::new());
}

#[test]
fn bundle_refuses_other_shapes() {
    assert_eq!(
        CharacterControllerBundle::new(Collider::Other),
        Err(SetupError::ColliderNotCapsule)
    );
}

#[test]
fn with_movement_replaces_only_the_movement() {
    let base = CharacterControllerBundle::new(capsule()).unwrap();
    let changed = base.with_movement(s(1), s(2), s(3), s(4));
    assert_eq!(changed.movement, MovementBundle::new(s(1), s(2), s(3), s(4)));
    assert_eq!(changed.collider, base.collider);
    assert_eq!(changed.ground_caster, base.ground_caster);
    assert_eq!(changed.player_settings, base.player_settings);
    assert_eq!(changed.view, base.view);
}

#[test]
fn a_new_character_is_at_rest() {
    let c = player(42);
    assert_eq!(c.entity, 42);
    assert_eq!(c.translation, Vector3::new(s(0), s(1_500_000_000), s(0)));
    assert_eq!(c.linear_velocity, LinearVelocity::new(s(0), s(0), s(0)));
    assert!(c.shape_hits.is_empty());
    assert_eq!(c.grounded, None);
    assert!(!c.is_grounded());
    assert_eq!(c.max_slope_angle, Some(MaxSlopeAngle(s(THIRTY_DEGREES))));
    assert_eq!(c.acceleration.0.raw, 30 * ONE);
    assert_eq!(c.damping.0.raw, 920_000_000);
    assert_eq!(c.jump_impulse.0.raw, 7 * ONE);
    assert_eq!(c.view, View::new());
    assert_eq!(c.collider, capsule());
}

#[test]
fn a_frame_runs_its_steps_in_order() {
    let mut characters = vec![player(1)];
    characters[0].player_settings.enable_input = true;
    characters[0].shape_hits = vec![GroundContact { normal_angle: s(0) }];
    let mut input = quiet();
    input.move_pressed = true;
    input.move_axis = Vector2::new(s(ONE), s(0));
    input.jump_pressed = true;
    input.look_delta = Vector2::new(s(100 * ONE), s(-50 * ONE));
    let poses = CharacterControllerPlugin.update(
        &input,
        s(TENTH),
        &mut characters,
        &vec![RenderPlayer(1)],
    );
    let c = &characters[0];
    // the view turned
    assert_eq!(c.view, View { yaw: s(-100 * MILLI), pitch: s(50 * MILLI) });
    // the ground was found in this very frame, so the jump counted
    assert_eq!(c.grounded, Some(Grounded));
    // 1 * 30 * 0.1 = 3, damped by 0.92 to 2.76; the jump is not damped
    assert_eq!(c.linear_velocity, LinearVelocity::new(s(2_760_000_000), s(7 * ONE), s(0)));
    // the camera sees the turned view, 0.75 + 0.4 * 0.75 above the body
    assert_eq!(
        poses,
        vec![Some(CameraPose {
            translation: Vector3::new(s(0), s(2_550_000_000), s(0)),
            yaw: s(-100 * MILLI),
            pitch: s(50 * MILLI),
        })]
    );
}

#[test]
fn a_stale_ground_mark_does_not_let_a_jump_through() {
    let mut characters = vec![player(1)];
    // marked in an earlier frame, but the probe finds nothing now
    characters[0].grounded = Some(Grounded);
    characters[0].linear_velocity = LinearVelocity::new(s(0), s(-3 * ONE), s(0));
    let mut input = quiet();
    input.jump_pressed = true;
    CharacterControllerPlugin.update(&input, s(TENTH), &mut characters, &vec![]);
    assert_eq!(characters[0].grounded, None);
    assert_eq!(characters[0].linear_velocity.y.raw, -3 * ONE);
}

#[test]
fn frames_without_input_only_damp() {
    let mut characters = vec![player(1), player(2)];
    characters[0].linear_velocity = LinearVelocity::new(s(3 * ONE), s(-ONE), s(-3 * ONE));
    characters[1].view = View { yaw: s(5), pitch: s(6) };
    let cameras = vec![RenderPlayer(2), RenderPlayer(3)];
    let poses = CharacterControllerPlugin.update(&quiet(), s(TENTH), &mut characters, &cameras);
    assert_eq!(
        characters[0].linear_velocity,
        LinearVelocity::new(s(2_760_000_000), s(-ONE), s(-2_760_000_000))
    );
    assert_eq!(characters[1].view, View { yaw: s(5), pitch: s(6) });
    assert_eq!(poses.len(), 2);
    assert_eq!(poses[0].unwrap().yaw.raw, 5);
    assert_eq!(poses[1], None);
    CharacterControllerPlugin.update(&quiet(), s(TENTH), &mut characters, &cameras);
    assert_eq!(
        characters[0].linear_velocity,
        LinearVelocity::new(s(2_539_200_000), s(-ONE), s(-2_539_200_000))
    );
}
