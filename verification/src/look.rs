//! The first-person view: a yaw and a pitch that follow the look input,
//! whatever the body does.

use vstd::prelude::*;
// `View` names this crate's view angles; the trait behind `@` comes in unnamed.
use vstd::view::View as _;
use crate::angle::{is_wrapped, lemma_wrap_angle, wrap_angle, ANGLE_EPSILON};
use crate::character::Character;
use crate::math::Vector2;
use crate::movement::MovementAction;
use crate::scalar::{clamp_int, Scalar, FRAC_PI_2};

verus! {

/// Where a first-person camera looks, in radians.
#[derive(Clone, Copy, Debug, PartialEq, Eq, Structural)]
pub struct View {
    pub yaw: Scalar,
    pub pitch: Scalar,
}

/// Per-player settings.
#[derive(Clone, Copy, Debug, PartialEq, Eq, Structural)]
pub struct PlayerSettings {
    /// Whether the look input moves the view.
    pub enable_input: bool,
    /// Radians of turn per device unit of look input.
    pub sensitivity: Scalar,
}

impl Default for PlayerSettings {
    /// Input off, a thousandth of a radian per device unit.
    fn default() -> (s: PlayerSettings)
        ensures
            s == (PlayerSettings { enable_input: false, sensitivity: Scalar { raw: 1_000_000 } }),
    {
        PlayerSettings { enable_input: false, sensitivity: Scalar { raw: 1_000_000 } }
    }
}

/// Whether `epsilon` can keep a pitch off the poles: positive, and at most a
/// quarter turn, so that some pitch is left.
pub open spec fn valid_epsilon(epsilon: Scalar) -> bool {
    0 < epsilon@ <= FRAC_PI_2
}

impl View {
    /// The view after a look input of `look` device units: the yaw turns by
    /// `look.x * sensitivity` and is wrapped; the pitch turns by
    /// `look.y * sensitivity` and stops `epsilon` short of either pole.
    pub open spec fn spec_look(self, look: Vector2, sensitivity: Scalar, epsilon: Scalar) -> View {
        let turn = look.spec_scaled(sensitivity);
        View {
            yaw: Scalar { raw: wrap_angle(self.yaw@ - turn.x@) as i64 },
            pitch: Scalar {
                raw: clamp_int(
                    self.pitch@ - turn.y@,
                    -FRAC_PI_2 + epsilon@,
                    FRAC_PI_2 - epsilon@,
                ) as i64,
            },
        }
    }

    /// The view after a run of look inputs, each applied in its turn.
    pub open spec fn spec_look_all(
        self,
        looks: Seq<Vector2>,
        sensitivity: Scalar,
        epsilon: Scalar,
    ) -> View
        decreases looks.len(),
    {
        if looks.len() == 0 {
            self
        } else {
            self.spec_look_all(looks.drop_last(), sensitivity, epsilon).spec_look(
                looks.last(),
                sensitivity,
                epsilon,
            )
        }
    }

    /// Whether the yaw is wrapped and the pitch is at least `epsilon` away
    /// from both poles.
    pub open spec fn within_limits(self, epsilon: Scalar) -> bool {
        &&& is_wrapped(self.yaw@)
        &&& -FRAC_PI_2 + epsilon@ <= self.pitch@ <= FRAC_PI_2 - epsilon@
    }

    /// The view looking straight ahead.
    pub fn new() -> (v: View)
        ensures
            v == (View { yaw: Scalar { raw: 0 }, pitch: Scalar { raw: 0 } }),
    {
        View { yaw: Scalar::zero(), pitch: Scalar::zero() }
    }

    /// Turns the view by a look input.
    pub fn look(&mut self, look: Vector2, sensitivity: Scalar, epsilon: Scalar)
        requires
            valid_epsilon(epsilon),
        ensures
            *final(self) == old(self).spec_look(look, sensitivity, epsilon),
            final(self).within_limits(epsilon),
            -FRAC_PI_2 < final(self).pitch@ < FRAC_PI_2,
    {
        let turn = look.scaled(sensitivity);
        let lo = Scalar::from_raw(-FRAC_PI_2 + epsilon.raw);
        let hi = Scalar::from_raw(FRAC_PI_2 - epsilon.raw);
        self.pitch = self.pitch.minus(turn.y).clamp(lo, hi);
        self.yaw = self.yaw.minus_wrapped(turn.x);
    }
}

/// One look input, whatever the view was and however large the input, leaves
/// the yaw wrapped and the pitch at least `epsilon` short of either pole,
/// and so strictly between the poles.
pub proof fn lemma_look_respects_limits(
    view: View,
    look: Vector2,
    sensitivity: Scalar,
    epsilon: Scalar,
)
    requires
        valid_epsilon(epsilon),
    ensures
        view.spec_look(look, sensitivity, epsilon).within_limits(epsilon),
        -FRAC_PI_2 < view.spec_look(look, sensitivity, epsilon).pitch@ < FRAC_PI_2,
{
    let turn = look.spec_scaled(sensitivity);
    lemma_wrap_angle(view.yaw@ - turn.x@);
}

/// After any run of look inputs, from any view, the view is within its
/// limits: the yaw wrapped, the pitch at least `epsilon` short of either
/// pole. A view that starts within its limits never leaves them.
pub proof fn lemma_view_stays_within_limits(
    view: View,
    looks: Seq<Vector2>,
    sensitivity: Scalar,
    epsilon: Scalar,
)
    requires
        valid_epsilon(epsilon),
        looks.len() > 0 || view.within_limits(epsilon),
    ensures
        view.spec_look_all(looks, sensitivity, epsilon).within_limits(epsilon),
        -FRAC_PI_2 < view.spec_look_all(looks, sensitivity, epsilon).pitch@ < FRAC_PI_2,
{
    if looks.len() > 0 {
        lemma_look_respects_limits(
            view.spec_look_all(looks.drop_last(), sensitivity, epsilon),
            looks.last(),
            sensitivity,
            epsilon,
        );
    }
}

/// What the input devices report for one frame.
#[derive(Clone, Copy, Debug, PartialEq, Eq, Structural)]
pub struct InputSnapshot {
    /// Whether the move action is held.
    pub move_pressed: bool,
    /// The move axes as the devices give them; they may leave the unit square.
    pub move_axis: Vector2,
    /// The look input, in device units.
    pub look_delta: Vector2,
    /// Whether the jump action is held.
    pub jump_pressed: bool,
    /// Whether the run action is held. Nothing reads it yet.
    pub run_pressed: bool,
    /// Whether the crouch action is held. Nothing reads it yet.
    pub crouch_pressed: bool,
    /// Whether the interact action is held. Nothing reads it yet.
    pub interact_pressed: bool,
}

/// The movement actions that a frame's input asks for: a move along the
/// clamped axes if the move action is held and they are not both zero, then a
/// jump if the jump action is held.
pub open spec fn requested_actions(input: InputSnapshot) -> Seq<MovementAction> {
    let axis = input.move_axis.spec_clamped_to_unit();
    let moves = if input.move_pressed && axis != Vector2::spec_zero() {
        seq![MovementAction::Move(axis)]
    } else {
        Seq::<MovementAction>::empty()
    };
    let jumps = if input.jump_pressed {
        seq![MovementAction::Jump]
    } else {
        Seq::<MovementAction>::empty()
    };
    moves + jumps
}

/// The view of a player after a frame's look input: turned if the player's
/// input is enabled, as it was if not.
pub open spec fn view_after_input(view: View, settings: PlayerSettings, look: Vector2) -> View {
    if settings.enable_input {
        view.spec_look(look, settings.sensitivity, Scalar { raw: ANGLE_EPSILON })
    } else {
        view
    }
}

/// A character after a frame's look input: its view turned if its input is
/// enabled, and nothing else touched.
pub open spec fn character_after_input(character: Character, look: Vector2) -> Character {
    Character {
        view: view_after_input(character.view, character.player_settings, look),
        ..character
    }
}

/// Turns a frame's input into movement actions, and turns the view of every
/// character whose input is enabled.
pub fn handle_input(input: &InputSnapshot, query: &mut Vec<Character>) -> (events: Vec<
    MovementAction,
>)
    ensures
        events@ == requested_actions(*input),
        final(query)@.len() == old(query)@.len(),
        forall|i: int|
            0 <= i < old(query)@.len() ==> #[trigger] final(query)@[i] == character_after_input(
                old(query)@[i],
                input.look_delta,
            ),
        forall|i: int|
            0 <= i < old(query)@.len() && old(query)@[i].player_settings.enable_input
                ==> (#[trigger] final(query)@[i]).view.within_limits(Scalar { raw: ANGLE_EPSILON }),
{
    let mut events: Vec<MovementAction> = Vec::new();
    if input.move_pressed {
        let axis = input.move_axis.clamped_to_unit();
        if !axis.is_zero() {
            events.push(MovementAction::Move(axis));
        }
    }
    if input.jump_pressed {
        events.push(MovementAction::Jump);
    }
    assert(events@ =~= requested_actions(*input));

    let n = query.len();
    let mut i: usize = 0;
    while i < n
        invariant
            0 <= i <= n,
            n == old(query)@.len(),
            query@.len() == n,
            forall|j: int|
                0 <= j < i ==> {
                    &&& #[trigger] query@[j] == character_after_input(
                        old(query)@[j],
                        input.look_delta,
                    )
                    &&& old(query)@[j].player_settings.enable_input
                        ==> query@[j].view.within_limits(Scalar { raw: ANGLE_EPSILON })
                },
            forall|j: int| i <= j < n ==> #[trigger] query@[j] == old(query)@[j],
        decreases n - i,
    {
        let settings = query[i].player_settings;
        if settings.enable_input {
            let mut view = query[i].view;
            view.look(input.look_delta, settings.sensitivity, Scalar::angle_epsilon());
            query[i].view = view;
        }
        i = i + 1;
    }
    events
}

} // verus!
