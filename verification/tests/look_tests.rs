use character_controller::camera::Collider;
use character_controller::character::Character;
use character_controller::controller::CharacterControllerBundle;
use character_controller::look::{handle_input, InputSnapshot, PlayerSettings, View};
use character_controller::math::{Vector2, Vector3};
use character_controller::movement::MovementAction;
use character_controller::scalar::{Scalar, FRAC_PI_2, ONE, PI, TAU};

fn s(raw: i64) -> Scalar {
    Scalar::from_raw(raw)
}

fn v2(x: i64, y: i64) -> Vector2 {
    Vector2::new(s(x), s(y))
}

fn character(entity: u64) -> Character {
    let collider = Collider::Capsule { half_height: s(750_000_000), radius: s(400_000_000) };
    let bundle = CharacterControllerBundle::new(collider).unwrap();
    Character::new(entity, Vector3::zero(), bundle)
}

fn quiet() -> InputSnapshot {
    InputSnapshot {
        move_pressed: false,
        move_axis: Vector2::zero(),
        look_delta: Vector2::zero(),
        jump_pressed: false,
        run_pressed: false,
        crouch_pressed: false,
        interact_pressed: false,
    }
}

const MILLI: i64 = 1_000_000;
const EPSILON: i64 = 1_953_125;

#[test]
fn default_settings() {
    let settings = PlayerSettings::default();
    assert!(!settings.enable_input);
    assert_eq!(settings.sensitivity.raw, MILLI);
}

#[test]
fn new_view_looks_ahead() {
    let view = View::new();
    assert_eq!(view.yaw.raw, 0);
    assert_eq!(view.pitch.raw, 0);
}

#[test]
fn look_turns_against_the_input() {
    let mut view = View::new();
    // 100 device units right, 50 down, a thousandth of a radian each
    view.look(v2(100 * ONE, 50 * ONE), s(MILLI), s(EPSILON));
    assert_eq!(view.yaw.raw, -100 * MILLI);
    assert_eq!(view.pitch.raw, -50 * MILLI);
    view.look(v2(-300 * ONE, -70 * ONE), s(MILLI), s(EPSILON));
    assert_eq!(view.yaw.raw, 200 * MILLI);
    assert_eq!(view.pitch.raw, 20 * MILLI);
}

#[test]
fn pitch_stops_short_of_the_poles() {
    let mut view = View::new();
    view.look(v2(0, -1_000_000 * ONE), s(MILLI), s(EPSILON));
    assert_eq!(view.pitch.raw, FRAC_PI_2 - EPSILON);
    view.look(v2(0, 1_000_000 * ONE), s(MILLI), s(EPSILON));
    assert_eq!(view.pitch.raw, -FRAC_PI_2 + EPSILON);
    // and stays there under more of the same
    view.look(v2(0, 1_000_000 * ONE), s(MILLI), s(EPSILON));
    assert_eq!(view.pitch.raw, -FRAC_PI_2 + EPSILON);
}

#[test]
fn pitch_limit_follows_epsilon() {
    let mut view = View::new();
    view.look(v2(0, -1_000_000 * ONE), s(MILLI), s(1));
    assert_eq!(view.pitch.raw, FRAC_PI_2 - 1);
    let mut view = View::new();
    view.look(v2(0, -1_000_000 * ONE), s(MILLI), s(ONE));
    assert_eq!(view.pitch.raw, FRAC_PI_2 - ONE);
    // a quarter turn of margin leaves only the level pitch
    let mut view = View { yaw: s(0), pitch: s(1_000_000_000) };
    view.look(v2(0, 0), s(MILLI), s(FRAC_PI_2));
    assert_eq!(view.pitch.raw, 0);
}

#[test]
fn pitch_is_pulled_in_from_outside() {
    let mut view = View { yaw: s(0), pitch: s(i64::MAX) };
    view.look(v2(0, 0), s(MILLI), s(EPSILON));
    assert_eq!(view.pitch.raw, FRAC_PI_2 - EPSILON);
    let mut view = View { yaw: s(0), pitch: s(i64::MIN) };
    view.look(v2(0, i64::MAX), s(ONE), s(EPSILON));
    assert_eq!(view.pitch.raw, -FRAC_PI_2 + EPSILON);
}

#[test]
fn yaw_wraps_into_the_half_open_interval() {
    // from just below half a turn, a little further left wraps to the right side
    let mut view = View { yaw: s(PI - 10), pitch: s(0) };
    view.look(v2(-20 * ONE, 0), s(1), s(EPSILON));
    assert_eq!(view.yaw.raw, PI + 10 - TAU);
    assert_eq!(view.yaw.raw, -PI + 10);
    // exactly half a turn stays
    let mut view = View { yaw: s(PI - 10), pitch: s(0) };
    view.look(v2(-10 * ONE, 0), s(1), s(EPSILON));
    assert_eq!(view.yaw.raw, PI);
    // exactly minus half a turn becomes half a turn
    let mut view = View { yaw: s(-PI + 10), pitch: s(0) };
    view.look(v2(10 * ONE, 0), s(1), s(EPSILON));
    assert_eq!(view.yaw.raw, PI);
    // many turns at once
    let mut view = View::new();
    view.look(v2(-(5 * TAU + 7), 0), s(ONE), s(EPSILON));
    assert_eq!(view.yaw.raw, 7);
}

#[test]
fn yaw_is_wrapped_after_every_update() {
    let mut view = View { yaw: s(i64::MAX), pitch: s(0) };
    let steps = [v2(0, 0), v2(i64::MIN, 3), v2(123_456_789_012, -5), v2(i64::MAX, i64::MAX)];
    for step in steps {
        view.look(step, s(777_000_000), s(EPSILON));
        assert!(-PI < view.yaw.raw && view.yaw.raw <= PI);
        assert!(-FRAC_PI_2 + EPSILON <= view.pitch.raw && view.pitch.raw <= FRAC_PI_2 - EPSILON);
    }
}

#[test]
fn input_becomes_a_move_and_a_jump() {
    let mut query: Vec<Character> = Vec::new();
    let mut input = quiet();
    input.move_pressed = true;
    input.move_axis = v2(ONE, 0);
    input.jump_pressed = true;
    let events = handle_input(&input, &mut query);
    assert_eq!(events, vec![MovementAction::Move(v2(ONE, 0)), MovementAction::Jump]);
}

#[test]
fn move_axes_are_clamped_not_rejected() {
    let mut query: Vec<Character> = Vec::new();
    let mut input = quiet();
    input.move_pressed = true;
    input.move_axis = v2(5 * ONE, -7 * ONE);
    let events = handle_input(&input, &mut query);
    assert_eq!(events, vec![MovementAction::Move(v2(ONE, -ONE))]);
    input.move_axis = v2(-300_000_000, i64::MAX);
    let events = handle_input(&input, &mut query);
    assert_eq!(events, vec![MovementAction::Move(v2(-300_000_000, ONE))]);
}

#[test]
fn no_move_without_the_action_or_without_a_direction() {
    let mut query: Vec<Character> = Vec::new();
    let mut input = quiet();
    input.move_axis = v2(ONE, ONE);
    assert_eq!(handle_input(&input, &mut query), vec![]);
    input.move_pressed = true;
    input.move_axis = v2(0, 0);
    assert_eq!(handle_input(&input, &mut query), vec![]);
    input.jump_pressed = true;
    assert_eq!(handle_input(&input, &mut query), vec![MovementAction::Jump]);
}

#[test]
fn run_crouch_and_interact_do_nothing_yet() {
    let mut plain = vec![character(1)];
    let mut flagged = vec![character(1)];
    plain[0].player_settings.enable_input = true;
    flagged[0].player_settings.enable_input = true;
    let mut input = quiet();
    input.move_pressed = true;
    input.move_axis = v2(-ONE, ONE);
    input.look_delta = v2(3 * ONE, 4 * ONE);
    let base = handle_input(&input, &mut plain);
    input.run_pressed = true;
    input.crouch_pressed = true;
    input.interact_pressed = true;
    let with_flags = handle_input(&input, &mut flagged);
    assert_eq!(base, with_flags);
    assert_eq!(plain[0].view, flagged[0].view);
}

#[test]
fn look_input_turns_only_enabled_characters() {
    let mut query = vec![character(1), character(2), character(3)];
    query[0].player_settings.enable_input = true;
    query[2].player_settings.enable_input = true;
    query[2].player_settings.sensitivity = s(2 * MILLI);
    let mut input = quiet();
    input.look_delta = v2(10 * ONE, -20 * ONE);
    let events = handle_input(&input, &mut query);
    assert_eq!(events, vec![]);
    assert_eq!(query.len(), 3);
    assert_eq!(query[0].view, View { yaw: s(-10 * MILLI), pitch: s(20 * MILLI) });
    assert_eq!(query[1].view, View::new());
    assert_eq!(query[2].view, View { yaw: s(-20 * MILLI), pitch: s(40 * MILLI) });
    // nothing else moved
    assert_eq!(query[0].entity, 1);
    assert_eq!(query[2].player_settings.sensitivity.raw, 2 * MILLI);
    assert_eq!(query[0].linear_velocity.x.raw, 0);
}

#[test]
fn handle_input_uses_the_default_margin() {
    let mut query = vec![character(1)];
    query[0].player_settings.enable_input = true;
    let mut input = quiet();
    input.look_delta = v2(0, -1_000_000 * ONE);
    handle_input(&input, &mut query);
    assert_eq!(query[0].view.pitch.raw, FRAC_PI_2 - EPSILON);
    assert_eq!(query[0].view.pitch.raw, 1_568_843_201);
}
