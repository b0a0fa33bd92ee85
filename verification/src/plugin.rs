//! One frame of the controller: its steps in their fixed order.
//!
//! Input handling comes first, then the fresh decision on who stands on the
//! ground, then movement, then damping, and last the cameras. So movement
//! always sees this frame's ground, and a camera always sees this frame's
//! view.

use vstd::prelude::*;
use crate::camera::{fps_controller_render, spec_camera_pose, spec_render, CameraPose, RenderPlayer};
use crate::character::Character;
use crate::grounded::{character_after_grounding, spec_is_grounded, update_grounded};
use crate::angle::ANGLE_EPSILON;
use crate::look::{
    character_after_input, handle_input, lemma_look_respects_limits, requested_actions,
    InputSnapshot,
};
use crate::math::Vector2;
use crate::movement::{
    apply_movement_damping, character_after_actions, character_after_damping, movement,
    MovementAction,
};
use crate::scalar::Scalar;

verus! {

/// The character controller: the steps of a frame, chained.
#[derive(Clone, Copy, Debug, PartialEq, Eq, Structural)]
pub struct CharacterControllerPlugin;

/// A character after a whole frame: the look input, the fresh grounding, the
/// frame's actions, and damping, one after the other.
pub open spec fn character_after_frame(
    character: Character,
    input: InputSnapshot,
    delta_time: Scalar,
) -> Character {
    character_after_damping(
        character_after_actions(
            character_after_grounding(character_after_input(character, input.look_delta)),
            requested_actions(input),
            delta_time,
        ),
    )
}

impl CharacterControllerPlugin {
    /// Runs one frame of `delta_time` seconds on every character, and gives
    /// the pose of every camera as the frame leaves the characters.
    pub fn update(
        &self,
        input: &InputSnapshot,
        delta_time: Scalar,
        characters: &mut Vec<Character>,
        cameras: &Vec<RenderPlayer>,
    ) -> (poses: Vec<Option<CameraPose>>)
        ensures
            final(characters)@.len() == old(characters)@.len(),
            forall|i: int|
                0 <= i < old(characters)@.len() ==> #[trigger] final(characters)@[i]
                    == character_after_frame(old(characters)@[i], *input, delta_time),
            poses@.len() == cameras@.len(),
            forall|k: int|
                0 <= k < cameras@.len() ==> #[trigger] poses@[k] == spec_render(
                    final(characters)@,
                    cameras@[k],
                ),
    {
        let events = handle_input(input, characters);
        update_grounded(characters);
        movement(delta_time, &events, characters);
        apply_movement_damping(characters);
        fps_controller_render(cameras, characters)
    }
}

/// A frame's jump goes by this frame's ground, not by the mark the character
/// carried into the frame: with a walkable surface under the probe the
/// upward speed becomes the jump impulse, and with none it stays what it was.
pub proof fn lemma_jump_sees_fresh_ground(
    character: Character,
    input: InputSnapshot,
    delta_time: Scalar,
)
    requires
        input.jump_pressed,
    ensures
        character_after_frame(character, input, delta_time).linear_velocity.y == if spec_is_grounded(
            character.shape_hits@,
            character.max_slope_angle,
        ) {
            character.jump_impulse.0
        } else {
            character.linear_velocity.y
        },
{
    let actions = requested_actions(input);
    let start = character_after_grounding(character_after_input(character, input.look_delta));
    lemma_vertical_speed_after(
        start.linear_velocity,
        actions,
        start.acceleration.0,
        start.jump_impulse.0,
        start.grounded is Some,
        delta_time,
    );
    assert(actions.last() == MovementAction::Jump);
}

/// Without a jump a frame leaves the upward speed alone.
pub proof fn lemma_no_jump_keeps_vertical_speed(
    character: Character,
    input: InputSnapshot,
    delta_time: Scalar,
)
    requires
        !input.jump_pressed,
    ensures
        character_after_frame(character, input, delta_time).linear_velocity.y
            == character.linear_velocity.y,
{
    let actions = requested_actions(input);
    let start = character_after_grounding(character_after_input(character, input.look_delta));
    lemma_vertical_speed_after(
        start.linear_velocity,
        actions,
        start.acceleration.0,
        start.jump_impulse.0,
        start.grounded is Some,
        delta_time,
    );
    assert forall|i: int| 0 <= i < actions.len() implies actions[i] != MovementAction::Jump by {}
}

/// A frame without a move and without a jump only damps: the speeds in the
/// ground plane are scaled by the character's factor and the upward speed is
/// kept. So over such frames the speed decays geometrically.
pub proof fn lemma_quiet_frame_only_damps(
    character: Character,
    input: InputSnapshot,
    delta_time: Scalar,
)
    requires
        !input.jump_pressed,
        !input.move_pressed || input.move_axis.spec_clamped_to_unit() == Vector2::spec_zero(),
    ensures
        character_after_frame(character, input, delta_time).linear_velocity
            == character.linear_velocity.spec_damped(character.damping.0),
{
    assert(requested_actions(input).len() == 0);
}

/// A frame leaves the view within its limits wherever the look input is
/// enabled or the view was within them before: the yaw wrapped, the pitch
/// short of both poles by the default margin.
pub proof fn lemma_frame_keeps_view_within_limits(
    character: Character,
    input: InputSnapshot,
    delta_time: Scalar,
)
    requires
        character.player_settings.enable_input || character.view.within_limits(
            Scalar { raw: ANGLE_EPSILON },
        ),
    ensures
        character_after_frame(character, input, delta_time).view.within_limits(
            Scalar { raw: ANGLE_EPSILON },
        ),
{
    if character.player_settings.enable_input {
        lemma_look_respects_limits(
            character.view,
            input.look_delta,
            character.player_settings.sensitivity,
            Scalar { raw: ANGLE_EPSILON },
        );
    }
}

/// The camera of a frame looks where the frame left the view.
pub proof fn lemma_camera_sees_fresh_view(
    character: Character,
    input: InputSnapshot,
    delta_time: Scalar,
)
    ensures
        ({
            let after = character_after_frame(character, input, delta_time);
            spec_camera_pose(after) matches Some(pose) ==> pose.yaw == after.view.yaw && pose.pitch
                == after.view.pitch && after.view == character_after_input(
                character,
                input.look_delta,
            ).view
        }),
{
}

/// What a frame's actions do to the upward speed: on the ground, if a jump
/// is among them it is the impulse; otherwise it is what it was.
proof fn lemma_vertical_speed_after(
    velocity: crate::movement::LinearVelocity,
    actions: Seq<MovementAction>,
    acceleration: Scalar,
    impulse: Scalar,
    grounded: bool,
    delta_time: Scalar,
)
    ensures
        velocity.spec_applied_all(actions, acceleration, impulse, grounded, delta_time).y == if grounded
            && exists|i: int| 0 <= i < actions.len() && actions[i] == MovementAction::Jump {
            impulse
        } else {
            velocity.y
        },
    decreases actions.len(),
{
    if actions.len() > 0 {
        let earlier = actions.drop_last();
        lemma_vertical_speed_after(velocity, earlier, acceleration, impulse, grounded, delta_time);
        let jump_in = |s: Seq<MovementAction>|
            exists|i: int| 0 <= i < s.len() && s[i] == MovementAction::Jump;
        if jump_in(earlier) {
            let i = choose|i: int| 0 <= i < earlier.len() && earlier[i] == MovementAction::Jump;
            assert(actions[i] == MovementAction::Jump);
        }
        if actions.last() == MovementAction::Jump {
            assert(actions[actions.len() - 1] == MovementAction::Jump);
        }
        if jump_in(actions) {
            let i = choose|i: int| 0 <= i < actions.len() && actions[i] == MovementAction::Jump;
            if i < earlier.len() {
                assert(earlier[i] == MovementAction::Jump);
            }
        }
    }
}

} // verus!
