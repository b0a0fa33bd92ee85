//! What holds of movement, whatever the inputs.

use vstd::prelude::*;
use vstd::arithmetic::power::pow;
use crate::math::Vector2;
use crate::movement::{LinearVelocity, MovementAction};
use crate::scalar::{abs, in_range, Scalar, ONE};

verus! {

/// A jump on the ground sets the upward speed to the impulse, whatever it was
/// before, and leaves the rest of the velocity alone.
pub proof fn lemma_jump_on_ground_sets_vertical_speed(
    velocity: LinearVelocity,
    acceleration: Scalar,
    impulse: Scalar,
    delta_time: Scalar,
)
    ensures
        velocity.spec_applied(MovementAction::Jump, acceleration, impulse, true, delta_time)
            == (LinearVelocity { x: velocity.x, y: impulse, z: velocity.z }),
{
}

/// A jump in the air changes nothing.
pub proof fn lemma_jump_in_air_is_dropped(
    velocity: LinearVelocity,
    acceleration: Scalar,
    impulse: Scalar,
    delta_time: Scalar,
)
    ensures
        velocity.spec_applied(MovementAction::Jump, acceleration, impulse, false, delta_time)
            == velocity,
{
}

/// Jumps do not stack: a frame of one or more jumps and nothing else leaves
/// the velocity that a single jump gives.
pub proof fn lemma_jumps_do_not_stack(
    velocity: LinearVelocity,
    jumps: Seq<MovementAction>,
    acceleration: Scalar,
    impulse: Scalar,
    grounded: bool,
    delta_time: Scalar,
)
    requires
        jumps.len() >= 1,
        forall|i: int| 0 <= i < jumps.len() ==> jumps[i] == MovementAction::Jump,
    ensures
        velocity.spec_applied_all(jumps, acceleration, impulse, grounded, delta_time)
            == velocity.spec_jumped(impulse, grounded),
    decreases jumps.len(),
{
    let earlier = jumps.drop_last();
    let before = velocity.spec_applied_all(earlier, acceleration, impulse, grounded, delta_time);
    assert(jumps.last() == MovementAction::Jump);
    assert(velocity.spec_applied_all(jumps, acceleration, impulse, grounded, delta_time)
        == before.spec_jumped(impulse, grounded));
    if earlier.len() >= 1 {
        assert forall|i: int| 0 <= i < earlier.len() implies earlier[i] == MovementAction::Jump by {
            assert(earlier[i] == jumps[i]);
        }
        lemma_jumps_do_not_stack(velocity, earlier, acceleration, impulse, grounded, delta_time);
    } else {
        assert(before == velocity);
    }
}

/// Two moves in one frame add up. As long as no sum on the way leaves the
/// range of a `Scalar`, the velocity changes by the sum of what each move
/// pushes, which is the sum of the changes that each would make alone, and
/// the order of the two does not matter.
pub proof fn lemma_moves_add_up(
    velocity: LinearVelocity,
    first: Vector2,
    second: Vector2,
    acceleration: Scalar,
    impulse: Scalar,
    grounded: bool,
    delta_time: Scalar,
)
    requires
        ({
            let p = LinearVelocity::spec_push(first, acceleration, delta_time);
            let q = LinearVelocity::spec_push(second, acceleration, delta_time);
            &&& in_range(velocity.x@ + p.x@)
            &&& in_range(velocity.x@ + q.x@)
            &&& in_range(velocity.x@ + p.x@ + q.x@)
            &&& in_range(velocity.z@ - p.y@)
            &&& in_range(velocity.z@ - q.y@)
            &&& in_range(velocity.z@ - p.y@ - q.y@)
        }),
    ensures
        ({
            let p = LinearVelocity::spec_push(first, acceleration, delta_time);
            let q = LinearVelocity::spec_push(second, acceleration, delta_time);
            let both = velocity.spec_applied_all(
                seq![MovementAction::Move(first), MovementAction::Move(second)],
                acceleration,
                impulse,
                grounded,
                delta_time,
            );
            let swapped = velocity.spec_applied_all(
                seq![MovementAction::Move(second), MovementAction::Move(first)],
                acceleration,
                impulse,
                grounded,
                delta_time,
            );
            let only_first = velocity.spec_moved(first, acceleration, delta_time);
            let only_second = velocity.spec_moved(second, acceleration, delta_time);
            &&& both.x@ - velocity.x@ == p.x@ + q.x@
            &&& both.z@ - velocity.z@ == -(p.y@ + q.y@)
            &&& both.y == velocity.y
            &&& both.x@ - velocity.x@ == (only_first.x@ - velocity.x@) + (only_second.x@
                - velocity.x@)
            &&& both.z@ - velocity.z@ == (only_first.z@ - velocity.z@) + (only_second.z@
                - velocity.z@)
            &&& both == swapped
        }),
{
    let move_first = MovementAction::Move(first);
    let move_second = MovementAction::Move(second);
    lemma_applied_two(velocity, move_first, move_second, acceleration, impulse, grounded, delta_time);
    lemma_applied_two(velocity, move_second, move_first, acceleration, impulse, grounded, delta_time);
}

/// A frame of two actions applies the first, then the second.
proof fn lemma_applied_two(
    velocity: LinearVelocity,
    first: MovementAction,
    second: MovementAction,
    acceleration: Scalar,
    impulse: Scalar,
    grounded: bool,
    delta_time: Scalar,
)
    ensures
        velocity.spec_applied_all(seq![first, second], acceleration, impulse, grounded, delta_time)
            == velocity.spec_applied(first, acceleration, impulse, grounded, delta_time).spec_applied(
            second,
            acceleration,
            impulse,
            grounded,
            delta_time,
        ),
{
    let two = seq![first, second];
    let one = seq![first];
    assert(two.drop_last() =~= one);
    assert(two.last() == second);
    assert(one.drop_last() =~= Seq::<MovementAction>::empty());
    assert(one.last() == first);
    assert(one.drop_last().len() == 0);
    reveal_with_fuel(LinearVelocity::spec_applied_all, 3);
}

/// One product by a factor between minus one and one: the result is the exact
/// product to within one billionth, and no larger than what was multiplied.
pub proof fn lemma_times_small_factor(x: Scalar, factor: Scalar)
    requires
        -ONE <= factor@ <= ONE,
    ensures
        -ONE <= x.spec_times(factor)@ * ONE - x@ * factor@ <= ONE,
        abs(x.spec_times(factor)@) <= abs(x@),
{
    let a = x@;
    let d = factor@;
    let p = a * d;
    let one = ONE as int;
    assert(-abs(a) * one <= p <= abs(a) * one) by (nonlinear_arith)
        requires
            p == a * d,
            -one <= d <= one,
            one > 0,
    ;
    if p >= 0 {
        assert(p == one * (p / one) + p % one) by {
            vstd::arithmetic::div_mod::lemma_fundamental_div_mod(p, one);
        }
    } else {
        assert(-p == one * ((-p) / one) + (-p) % one) by {
            vstd::arithmetic::div_mod::lemma_fundamental_div_mod(-p, one);
        }
    }
}

/// Damping decays geometrically. With a factor `d` between minus one and one,
/// after `n` frames of damping and nothing else each speed in the ground
/// plane is the first speed times `d` to the power `n`, to within `n`
/// billionths; it is no larger than the first; and the vertical speed is
/// untouched. With `u` for a billion to the power `n`, so as to stay in whole
/// numbers: `|v_n * u - v_0 * d^n| <= n * u`.
pub proof fn lemma_damping_decays_geometrically(
    velocity: LinearVelocity,
    factor: Scalar,
    frames: nat,
)
    requires
        -ONE <= factor@ <= ONE,
    ensures
        ({
            let after = velocity.spec_damped_for(factor, frames);
            let unit = pow(ONE as int, frames);
            let decay = pow(factor@, frames);
            &&& after.y == velocity.y
            &&& unit > 0
            &&& -frames * unit <= after.x@ * unit - velocity.x@ * decay <= frames * unit
            &&& -frames * unit <= after.z@ * unit - velocity.z@ * decay <= frames * unit
            &&& abs(after.x@) <= abs(velocity.x@)
            &&& abs(after.z@) <= abs(velocity.z@)
        }),
    decreases frames,
{
    let one = ONE as int;
    let d = factor@;
    reveal(pow);
    if frames == 0 {
        assert(pow(one, 0) == 1);
        assert(pow(d, 0) == 1);
    } else {
        let n = (frames - 1) as nat;
        lemma_damping_decays_geometrically(velocity, factor, n);
        let before = velocity.spec_damped_for(factor, n);
        let after = velocity.spec_damped_for(factor, frames);
        assert(after == before.spec_damped(factor));
        lemma_times_small_factor(before.x, factor);
        lemma_times_small_factor(before.z, factor);
        let u = pow(one, n);
        let g = pow(d, n);
        assert(pow(one, frames) == one * u);
        assert(pow(d, frames) == d * g);
        lemma_decay_step(after.x@, before.x@, velocity.x@, d, one, u, g, n as int);
        lemma_decay_step(after.z@, before.z@, velocity.z@, d, one, u, g, n as int);
        assert(one * u > 0) by (nonlinear_arith)
            requires
                one > 0,
                u > 0,
        ;
    }
}

/// The step of the induction: an error of at most `n` units before, scaled by
/// a factor of at most one, and one new rounding, give at most `n + 1` units.
proof fn lemma_decay_step(w: int, v: int, v0: int, d: int, one: int, u: int, g: int, n: int)
    requires
        one > 0,
        u > 0,
        n >= 0,
        -one <= d <= one,
        -one <= w * one - v * d <= one,
        -n * u <= v * u - v0 * g <= n * u,
    ensures
        -(n + 1) * (one * u) <= w * (one * u) - v0 * (d * g) <= (n + 1) * (one * u),
{
    let s = w * one - v * d;
    let e = v * u - v0 * g;
    let m = n * u;
    let unit = one * u;
    assert(s * u == (w * one) * u - (v * d) * u) by (nonlinear_arith)
        requires
            s == w * one - v * d,
    ;
    assert(d * e == d * (v * u) - d * (v0 * g)) by (nonlinear_arith)
        requires
            e == v * u - v0 * g,
    ;
    assert((w * one) * u == w * (one * u)) by (nonlinear_arith);
    assert((v * d) * u == d * (v * u)) by (nonlinear_arith);
    assert(d * (v0 * g) == v0 * (d * g)) by (nonlinear_arith);
    assert(w * (one * u) - v0 * (d * g) == s * u + d * e);
    assert(-n * u == -m) by (nonlinear_arith)
        requires
            m == n * u,
    ;
    assert(-unit <= s * u <= unit) by (nonlinear_arith)
        requires
            -one <= s <= one,
            u > 0,
            unit == one * u,
    ;
    assert(-(one * m) <= d * e <= one * m) by (nonlinear_arith)
        requires
            -one <= d <= one,
            -m <= e <= m,
            one > 0,
    ;
    assert(one * m == n * unit) by (nonlinear_arith)
        requires
            m == n * u,
            unit == one * u,
    ;
    assert((n + 1) * unit == n * unit + unit) by (nonlinear_arith);
    assert(-(n + 1) * unit == -(n * unit) - unit) by (nonlinear_arith);
}

} // verus!
