//! What a character is made of when it enters the world.

use vstd::prelude::*;
use crate::camera::Collider;
use crate::look::{PlayerSettings, View};
use crate::movement::{
    JumpImpulse, MaxSlopeAngle, MovementAcceleration, MovementBundle, MovementDampingFactor,
};
use crate::scalar::Scalar;

verus! {

/// The raw value of the scale of the ground probe's shape: the character's
/// own shape, shrunk by a hundredth.
pub const GROUND_PROBE_SCALE: i64 = 990_000_000;

/// The raw value of the ground probe's reach below the character.
pub const GROUND_PROBE_REACH: i64 = 200_000_000;

/// Marks a body as driven by a character controller.
#[derive(Clone, Copy, Debug, PartialEq, Eq, Structural)]
pub struct CharacterController;

/// The probe that looks for ground: a copy of the character's shape, scaled
/// and cast straight down from the character's place.
#[derive(Clone, Copy, Debug, PartialEq, Eq, Structural)]
pub struct GroundCaster {
    /// The scale of the cast shape against the character's own.
    pub shape_scale: Scalar,
    /// How far down the shape is cast.
    pub max_time_of_impact: Scalar,
}

/// Why a character could not be set up.
#[derive(Clone, Copy, Debug, PartialEq, Eq, Structural)]
pub enum SetupError {
    /// The collision shape is no capsule, so no camera height follows from it.
    ColliderNotCapsule,
}

/// Everything a character needs for a first-person controller. The body is
/// meant to be dynamic with its rotation locked: only the view turns.
#[derive(Clone, Copy, Debug, PartialEq, Eq, Structural)]
pub struct CharacterControllerBundle {
    pub character_controller: CharacterController,
    pub collider: Collider,
    pub ground_caster: GroundCaster,
    pub movement: MovementBundle,
    pub player_settings: PlayerSettings,
    pub view: View,
}

impl CharacterControllerBundle {
    /// The character that `new` makes of a collision shape.
    pub open spec fn spec_new(collider: Collider) -> CharacterControllerBundle {
        CharacterControllerBundle {
            character_controller: CharacterController,
            collider,
            ground_caster: GroundCaster {
                shape_scale: Scalar { raw: GROUND_PROBE_SCALE },
                max_time_of_impact: Scalar { raw: GROUND_PROBE_REACH },
            },
            movement: MovementBundle::spec_default(),
            player_settings: PlayerSettings {
                enable_input: false,
                sensitivity: Scalar { raw: 1_000_000 },
            },
            view: View { yaw: Scalar { raw: 0 }, pitch: Scalar { raw: 0 } },
        }
    }

    /// A character with the given collision shape, which must be a capsule:
    /// the default movement and settings, a view straight ahead, and a
    /// ground probe of the same shape, slightly shrunk, with a short reach.
    /// Any other shape is refused here, once, and not frame after frame.
    pub fn new(collider: Collider) -> (made: Result<CharacterControllerBundle, SetupError>)
        ensures
            made == match collider {
                Collider::Capsule { .. } => Ok::<CharacterControllerBundle, SetupError>(
                    Self::spec_new(collider),
                ),
                Collider::Other => Err::<CharacterControllerBundle, SetupError>(
                    SetupError::ColliderNotCapsule,
                ),
            },
    {
        match collider {
            Collider::Capsule { .. } => Ok(
                CharacterControllerBundle {
                    character_controller: CharacterController,
                    collider,
                    ground_caster: GroundCaster {
                        shape_scale: Scalar::from_raw(GROUND_PROBE_SCALE),
                        max_time_of_impact: Scalar::from_raw(GROUND_PROBE_REACH),
                    },
                    movement: MovementBundle::default(),
                    player_settings: PlayerSettings::default(),
                    view: View::new(),
                },
            ),
            Collider::Other => Err(SetupError::ColliderNotCapsule),
        }
    }

    /// The same character with other movement parameters.
    pub fn with_movement(
        self,
        acceleration: Scalar,
        damping: Scalar,
        jump_impulse: Scalar,
        max_slope_angle: Scalar,
    ) -> (bundle: CharacterControllerBundle)
        ensures
            bundle == (CharacterControllerBundle {
                movement: MovementBundle {
                    acceleration: MovementAcceleration(acceleration),
                    damping: MovementDampingFactor(damping),
                    jump_impulse: JumpImpulse(jump_impulse),
                    max_slope_angle: MaxSlopeAngle(max_slope_angle),
                },
                ..self
            }),
    {
        let mut bundle = self;
        bundle.movement = MovementBundle::new(acceleration, damping, jump_impulse, max_slope_angle);
        bundle
    }
}

} // verus!
