//! A character in the world: everything about it that the controller reads
//! or writes in a frame.

use vstd::prelude::*;
// `View` names this crate's view angles; the trait behind `@` comes in unnamed.
use vstd::view::View as _;
use crate::camera::{CameraConfig, Collider};
use crate::controller::CharacterControllerBundle;
use crate::grounded::{GroundContact, Grounded};
use crate::look::{PlayerSettings, View};
use crate::math::Vector3;
use crate::movement::{
    JumpImpulse, LinearVelocity, MaxSlopeAngle, MovementAcceleration, MovementDampingFactor,
};
use crate::scalar::Scalar;

verus! {

/// One character. The physics engine owns where the body is and what its
/// probe touches; the controller owns the view, the mark for standing on the
/// ground, and what it adds to the velocity.
#[derive(Debug)]
pub struct Character {
    /// The character's entity number.
    pub entity: u64,
    /// Where the body is.
    pub translation: Vector3,
    pub collider: Collider,
    /// Where a camera sits on the character, if it carries one.
    pub camera_config: Option<CameraConfig>,
    pub view: View,
    pub player_settings: PlayerSettings,
    pub acceleration: MovementAcceleration,
    pub damping: MovementDampingFactor,
    pub jump_impulse: JumpImpulse,
    /// The steepest slope to stand on; without one any contact is ground.
    pub max_slope_angle: Option<MaxSlopeAngle>,
    pub linear_velocity: LinearVelocity,
    /// What the downward probe touches in this frame.
    pub shape_hits: Vec<GroundContact>,
    /// Present while the character stands on the ground.
    pub grounded: Option<Grounded>,
}

impl Character {
    /// The character that a bundle makes at a place: at rest, with nothing
    /// under its probe yet, not marked as grounded, and without a camera.
    pub open spec fn spec_new(
        entity: u64,
        translation: Vector3,
        bundle: CharacterControllerBundle,
        shape_hits: Vec<GroundContact>,
    ) -> Character {
        Character {
            entity,
            translation,
            collider: bundle.collider,
            camera_config: None,
            view: bundle.view,
            player_settings: bundle.player_settings,
            acceleration: bundle.movement.acceleration,
            damping: bundle.movement.damping,
            jump_impulse: bundle.movement.jump_impulse,
            max_slope_angle: Some(bundle.movement.max_slope_angle),
            linear_velocity: LinearVelocity {
                x: Scalar { raw: 0 },
                y: Scalar { raw: 0 },
                z: Scalar { raw: 0 },
            },
            shape_hits,
            grounded: None,
        }
    }

    /// Puts a character into the world.
    pub fn new(entity: u64, translation: Vector3, bundle: CharacterControllerBundle) -> (character:
        Character)
        ensures
            character.shape_hits@.len() == 0,
            character == Character::spec_new(entity, translation, bundle, character.shape_hits),
    {
        Character {
            entity,
            translation,
            collider: bundle.collider,
            camera_config: None,
            view: bundle.view,
            player_settings: bundle.player_settings,
            acceleration: bundle.movement.acceleration,
            damping: bundle.movement.damping,
            jump_impulse: bundle.movement.jump_impulse,
            max_slope_angle: Some(bundle.movement.max_slope_angle),
            linear_velocity: LinearVelocity::new(Scalar::zero(), Scalar::zero(), Scalar::zero()),
            shape_hits: Vec::new(),
            grounded: None,
        }
    }

    /// Whether the character is marked as standing on the ground.
    pub open spec fn spec_is_grounded(self) -> bool {
        self.grounded is Some
    }

    /// Whether the character is marked as standing on the ground.
    pub fn is_grounded(&self) -> (b: bool)
        ensures
            b == self.spec_is_grounded(),
    {
        self.grounded.is_some()
    }
}

} // verus!
