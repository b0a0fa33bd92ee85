//! Movement: the actions a frame can ask for, and what they do to a velocity.
//!
//! A move accelerates the body in the ground plane: `x` of the direction
//! pushes along the world's `x` axis, `y` of the direction pushes forward,
//! which is the negative `z` axis. A jump sets the upward speed, and only on
//! the ground. Damping then slows the motion in the ground plane and leaves
//! the vertical speed alone.

use vstd::prelude::*;
use crate::character::Character;
use crate::math::Vector2;
use crate::scalar::{Scalar, PI};

verus! {

/// What a frame's input asks of a character.
#[derive(Clone, Copy, Debug, PartialEq, Eq, Structural)]
pub enum MovementAction {
    /// Accelerate along a direction in the ground plane: `x` strafes to the
    /// right, `y` goes forward.
    Move(Vector2),
    /// Leave the ground.
    Jump,
}

/// The acceleration used for character movement.
#[derive(Clone, Copy, Debug, PartialEq, Eq, Structural)]
pub struct MovementAcceleration(pub Scalar);

/// The factor by which each frame scales the speed in the ground plane.
#[derive(Clone, Copy, Debug, PartialEq, Eq, Structural)]
pub struct MovementDampingFactor(pub Scalar);

/// The upward speed that a jump gives.
#[derive(Clone, Copy, Debug, PartialEq, Eq, Structural)]
pub struct JumpImpulse(pub Scalar);

/// The steepest slope, as an angle from level ground, on which a character
/// still stands.
#[derive(Clone, Copy, Debug, PartialEq, Eq, Structural)]
pub struct MaxSlopeAngle(pub Scalar);

/// The movement parameters of one character.
#[derive(Clone, Copy, Debug, PartialEq, Eq, Structural)]
pub struct MovementBundle {
    pub acceleration: MovementAcceleration,
    pub damping: MovementDampingFactor,
    pub jump_impulse: JumpImpulse,
    pub max_slope_angle: MaxSlopeAngle,
}

impl MovementBundle {
    /// The parameters of a character that asks for none: acceleration 30,
    /// damping 0.9, jump impulse 7, and a steepest slope of 0.45 times half a
    /// turn.
    pub open spec fn spec_default() -> MovementBundle {
        MovementBundle {
            acceleration: MovementAcceleration(Scalar { raw: 30_000_000_000 }),
            damping: MovementDampingFactor(Scalar { raw: 900_000_000 }),
            jump_impulse: JumpImpulse(Scalar { raw: 7_000_000_000 }),
            max_slope_angle: MaxSlopeAngle(
                (Scalar { raw: PI }).spec_times(Scalar { raw: 450_000_000 }),
            ),
        }
    }

    /// The bundle with the given parameters.
    pub fn new(
        acceleration: Scalar,
        damping: Scalar,
        jump_impulse: Scalar,
        max_slope_angle: Scalar,
    ) -> (bundle: MovementBundle)
        ensures
            bundle == (MovementBundle {
                acceleration: MovementAcceleration(acceleration),
                damping: MovementDampingFactor(damping),
                jump_impulse: JumpImpulse(jump_impulse),
                max_slope_angle: MaxSlopeAngle(max_slope_angle),
            }),
    {
        MovementBundle {
            acceleration: MovementAcceleration(acceleration),
            damping: MovementDampingFactor(damping),
            jump_impulse: JumpImpulse(jump_impulse),
            max_slope_angle: MaxSlopeAngle(max_slope_angle),
        }
    }
}

impl Default for MovementBundle {
    /// Acceleration 30, damping 0.9, jump impulse 7, and a steepest slope of
    /// 0.45 times half a turn.
    fn default() -> (bundle: MovementBundle)
        ensures
            bundle == MovementBundle::spec_default(),
            bundle.max_slope_angle.0@ == 1_413_716_693,
    {
        MovementBundle::new(
            Scalar::from_int(30),
            Scalar::from_raw(900_000_000),
            Scalar::from_int(7),
            Scalar::pi().times(Scalar::from_raw(450_000_000)),
        )
    }
}

/// The velocity of a body.
#[derive(Clone, Copy, Debug, PartialEq, Eq, Structural)]
pub struct LinearVelocity {
    pub x: Scalar,
    pub y: Scalar,
    pub z: Scalar,
}

impl LinearVelocity {
    /// What one move along `direction` adds to the velocity in a frame of
    /// `delta_time` seconds: along `x`, and along forward.
    pub open spec fn spec_push(direction: Vector2, acceleration: Scalar, delta_time: Scalar) -> Vector2 {
        Vector2 {
            x: direction.x.spec_times(acceleration).spec_times(delta_time),
            y: direction.y.spec_times(acceleration).spec_times(delta_time),
        }
    }

    /// The velocity after a move: the push is added along `x` and, forward
    /// being the negative `z` axis, taken from `z`.
    pub open spec fn spec_moved(
        self,
        direction: Vector2,
        acceleration: Scalar,
        delta_time: Scalar,
    ) -> LinearVelocity {
        let push = Self::spec_push(direction, acceleration, delta_time);
        LinearVelocity { x: self.x.spec_plus(push.x), y: self.y, z: self.z.spec_minus(push.y) }
    }

    /// The velocity after a jump: on the ground the upward speed becomes the
    /// impulse, in the air nothing changes.
    pub open spec fn spec_jumped(self, impulse: Scalar, grounded: bool) -> LinearVelocity {
        if grounded {
            LinearVelocity { x: self.x, y: impulse, z: self.z }
        } else {
            self
        }
    }

    /// The velocity after one action.
    pub open spec fn spec_applied(
        self,
        action: MovementAction,
        acceleration: Scalar,
        impulse: Scalar,
        grounded: bool,
        delta_time: Scalar,
    ) -> LinearVelocity {
        match action {
            MovementAction::Move(direction) => self.spec_moved(direction, acceleration, delta_time),
            MovementAction::Jump => self.spec_jumped(impulse, grounded),
        }
    }

    /// The velocity after a frame's actions, applied in their order.
    pub open spec fn spec_applied_all(
        self,
        actions: Seq<MovementAction>,
        acceleration: Scalar,
        impulse: Scalar,
        grounded: bool,
        delta_time: Scalar,
    ) -> LinearVelocity
        decreases actions.len(),
    {
        if actions.len() == 0 {
            self
        } else {
            self.spec_applied_all(
                actions.drop_last(),
                acceleration,
                impulse,
                grounded,
                delta_time,
            ).spec_applied(actions.last(), acceleration, impulse, grounded, delta_time)
        }
    }

    /// The velocity after damping: the speeds along `x` and `z` are scaled,
    /// the vertical speed is kept.
    pub open spec fn spec_damped(self, factor: Scalar) -> LinearVelocity {
        LinearVelocity { x: self.x.spec_times(factor), y: self.y, z: self.z.spec_times(factor) }
    }

    /// The velocity after `frames` frames of damping and nothing else.
    pub open spec fn spec_damped_for(self, factor: Scalar, frames: nat) -> LinearVelocity
        decreases frames,
    {
        if frames == 0 {
            self
        } else {
            self.spec_damped_for(factor, (frames - 1) as nat).spec_damped(factor)
        }
    }

    /// The velocity with the given coordinates.
    pub fn new(x: Scalar, y: Scalar, z: Scalar) -> (v: LinearVelocity)
        ensures
            v == (LinearVelocity { x, y, z }),
    {
        LinearVelocity { x, y, z }
    }

    /// Applies one action to the velocity.
    pub fn apply(
        &mut self,
        action: MovementAction,
        acceleration: Scalar,
        impulse: Scalar,
        grounded: bool,
        delta_time: Scalar,
    )
        ensures
            *final(self) == old(self).spec_applied(action, acceleration, impulse, grounded, delta_time),
    {
        match action {
            MovementAction::Move(direction) => {
                self.x = self.x.plus(direction.x.times(acceleration).times(delta_time));
                self.z = self.z.minus(direction.y.times(acceleration).times(delta_time));
            },
            MovementAction::Jump => {
                if grounded {
                    self.y = impulse;
                }
            },
        }
    }

    /// Slows the motion in the ground plane.
    pub fn damp(&mut self, factor: Scalar)
        ensures
            *final(self) == old(self).spec_damped(factor),
    {
        self.x = self.x.times(factor);
        self.z = self.z.times(factor);
    }
}

/// A character after a frame's actions: its velocity changed by each action
/// in turn, under its own acceleration and jump impulse and the mark it
/// carries, and nothing else touched.
pub open spec fn character_after_actions(
    character: Character,
    actions: Seq<MovementAction>,
    delta_time: Scalar,
) -> Character {
    Character {
        linear_velocity: character.linear_velocity.spec_applied_all(
            actions,
            character.acceleration.0,
            character.jump_impulse.0,
            character.grounded is Some,
            delta_time,
        ),
        ..character
    }
}

/// A character after damping by its own factor.
pub open spec fn character_after_damping(character: Character) -> Character {
    Character {
        linear_velocity: character.linear_velocity.spec_damped(character.damping.0),
        ..character
    }
}

/// Applies a frame's actions to every character: action by action in their
/// order, and for each action character by character.
pub fn movement(delta_time: Scalar, events: &Vec<MovementAction>, controllers: &mut Vec<Character>)
    ensures
        final(controllers)@.len() == old(controllers)@.len(),
        forall|i: int|
            0 <= i < old(controllers)@.len() ==> #[trigger] final(controllers)@[i]
                == character_after_actions(old(controllers)@[i], events@, delta_time),
{
    let n = controllers.len();
    let mut e: usize = 0;
    while e < events.len()
        invariant
            0 <= e <= events@.len(),
            n == old(controllers)@.len(),
            controllers@.len() == n,
            forall|i: int|
                0 <= i < n ==> #[trigger] controllers@[i] == character_after_actions(
                    old(controllers)@[i],
                    events@.take(e as int),
                    delta_time,
                ),
        decreases events@.len() - e,
    {
        let event = events[e];
        let ghost at_start = controllers@;
        assert(events@.take(e + 1).drop_last() =~= events@.take(e as int));
        assert(events@.take(e + 1).last() == event);
        let mut i: usize = 0;
        while i < n
            invariant
                0 <= i <= n,
                0 <= e < events@.len(),
                n == old(controllers)@.len(),
                controllers@.len() == n,
                at_start.len() == n,
                events@.take(e + 1).drop_last() == events@.take(e as int),
                events@.take(e + 1).last() == event,
                forall|j: int|
                    0 <= j < n ==> #[trigger] at_start[j] == character_after_actions(
                        old(controllers)@[j],
                        events@.take(e as int),
                        delta_time,
                    ),
                forall|j: int| i <= j < n ==> #[trigger] controllers@[j] == at_start[j],
                forall|j: int|
                    0 <= j < i ==> #[trigger] controllers@[j] == character_after_actions(
                        old(controllers)@[j],
                        events@.take(e + 1),
                        delta_time,
                    ),
            decreases n - i,
        {
            let acceleration = controllers[i].acceleration.0;
            let impulse = controllers[i].jump_impulse.0;
            let grounded = controllers[i].is_grounded();
            let mut velocity = controllers[i].linear_velocity;
            velocity.apply(event, acceleration, impulse, grounded, delta_time);
            controllers[i].linear_velocity = velocity;
            i = i + 1;
        }
        e = e + 1;
    }
    assert(events@.take(events@.len() as int) =~= events@);
}

/// Slows the motion of every character in the ground plane by its own
/// factor. The vertical speed is left to gravity.
pub fn apply_movement_damping(query: &mut Vec<Character>)
    ensures
        final(query)@.len() == old(query)@.len(),
        forall|i: int|
            0 <= i < old(query)@.len() ==> #[trigger] final(query)@[i] == character_after_damping(
                old(query)@[i],
            ),
{
    let n = query.len();
    let mut i: usize = 0;
    while i < n
        invariant
            0 <= i <= n,
            n == old(query)@.len(),
            query@.len() == n,
            forall|j: int|
                0 <= j < i ==> #[trigger] query@[j] == character_after_damping(old(query)@[j]),
            forall|j: int| i <= j < n ==> #[trigger] query@[j] == old(query)@[j],
        decreases n - i,
    {
        let factor = query[i].damping.0;
        let mut velocity = query[i].linear_velocity;
        velocity.damp(factor);
        query[i].linear_velocity = velocity;
        i = i + 1;
    }
}

} // verus!
