//! Standing on the ground: a character is grounded while the downward probe
//! of its shape touches a surface that is not too steep.

use vstd::prelude::*;
use crate::character::Character;
use crate::movement::MaxSlopeAngle;
use crate::scalar::{abs, Scalar};

verus! {

/// Marks a character that stands on the ground. A character without the mark
/// is in the air.
#[derive(Clone, Copy, Debug, PartialEq, Eq, Structural)]
pub struct Grounded;

/// One contact of the downward probe.
#[derive(Clone, Copy, Debug, PartialEq, Eq, Structural)]
pub struct GroundContact {
    /// The angle between the surface normal, in world space, and the up axis:
    /// zero on level ground.
    pub normal_angle: Scalar,
}

/// Whether a character can stand on the surface of `contact`: its angle is at
/// most the steepest slope, or no steepest slope is set.
pub open spec fn walkable(contact: GroundContact, max_slope_angle: Option<MaxSlopeAngle>) -> bool {
    match max_slope_angle {
        Some(angle) => abs(contact.normal_angle@) <= angle.0@,
        None => true,
    }
}

/// Whether some contact of the probe is walkable.
pub open spec fn spec_is_grounded(
    contacts: Seq<GroundContact>,
    max_slope_angle: Option<MaxSlopeAngle>,
) -> bool {
    exists|i: int| 0 <= i < contacts.len() && walkable(#[trigger] contacts[i], max_slope_angle)
}

/// The mark that a probe result calls for.
pub open spec fn spec_grounded_mark(
    contacts: Seq<GroundContact>,
    max_slope_angle: Option<MaxSlopeAngle>,
) -> Option<Grounded> {
    if spec_is_grounded(contacts, max_slope_angle) {
        Some(Grounded)
    } else {
        None
    }
}

/// Whether a character can stand on the surface of `contact`.
pub fn is_walkable(contact: &GroundContact, max_slope_angle: Option<MaxSlopeAngle>) -> (b: bool)
    ensures
        b == walkable(*contact, max_slope_angle),
{
    match max_slope_angle {
        Some(angle) => {
            let slope = contact.normal_angle.raw;
            let limit = angle.0.raw;
            if slope < 0 {
                // -slope <= limit, without negating the least value
                slope >= -i64::MAX && -slope <= limit
            } else {
                slope <= limit
            }
        },
        None => true,
    }
}

/// Whether the probe found ground to stand on.
pub fn is_grounded(contacts: &Vec<GroundContact>, max_slope_angle: Option<MaxSlopeAngle>) -> (b:
    bool)
    ensures
        b == spec_is_grounded(contacts@, max_slope_angle),
{
    let mut i: usize = 0;
    while i < contacts.len()
        invariant
            0 <= i <= contacts@.len(),
            forall|j: int| 0 <= j < i ==> !walkable(#[trigger] contacts@[j], max_slope_angle),
        decreases contacts@.len() - i,
    {
        if is_walkable(&contacts[i], max_slope_angle) {
            return true;
        }
        i = i + 1;
    }
    false
}

/// A character after its standing has been decided afresh: marked if its
/// probe touches a walkable surface, unmarked if not, whatever the mark was.
pub open spec fn character_after_grounding(character: Character) -> Character {
    Character {
        grounded: spec_grounded_mark(character.shape_hits@, character.max_slope_angle),
        ..character
    }
}

/// Decides afresh, for every character, whether it stands on the ground.
pub fn update_grounded(query: &mut Vec<Character>)
    ensures
        final(query)@.len() == old(query)@.len(),
        forall|i: int|
            0 <= i < old(query)@.len() ==> #[trigger] final(query)@[i]
                == character_after_grounding(old(query)@[i]),
{
    let n = query.len();
    let mut i: usize = 0;
    while i < n
        invariant
            0 <= i <= n,
            n == old(query)@.len(),
            query@.len() == n,
            forall|j: int|
                0 <= j < i ==> #[trigger] query@[j] == character_after_grounding(old(query)@[j]),
            forall|j: int| i <= j < n ==> #[trigger] query@[j] == old(query)@[j],
        decreases n - i,
    {
        let grounded = is_grounded(&query[i].shape_hits, query[i].max_slope_angle);
        query[i].grounded = if grounded {
            Some(Grounded)
        } else {
            None
        };
        i = i + 1;
    }
}

/// With nothing under the probe a character is in the air.
pub proof fn lemma_no_contact_is_airborne(max_slope_angle: Option<MaxSlopeAngle>)
    ensures
        !spec_is_grounded(Seq::<GroundContact>::empty(), max_slope_angle),
{
}

/// Without a steepest slope any contact is ground.
pub proof fn lemma_any_contact_grounds_without_limit(contacts: Seq<GroundContact>)
    requires
        contacts.len() > 0,
    ensures
        spec_is_grounded(contacts, None),
{
    assert(walkable(contacts[0], None));
}

/// Level ground is ground: a contact whose normal is the up axis grounds the
/// character whatever the steepest slope, as long as that is not negative.
pub proof fn lemma_flat_ground_is_grounded(
    contacts: Seq<GroundContact>,
    flat: int,
    max_slope_angle: Option<MaxSlopeAngle>,
)
    requires
        0 <= flat < contacts.len(),
        contacts[flat].normal_angle@ == 0,
        max_slope_angle matches Some(angle) ==> angle.0@ >= 0,
    ensures
        spec_is_grounded(contacts, max_slope_angle),
{
    assert(walkable(contacts[flat], max_slope_angle));
}

/// A single contact grounds the character exactly when its angle is at most
/// the steepest slope; an angle equal to it still does.
pub proof fn lemma_slope_decides(contact: GroundContact, max_slope_angle: MaxSlopeAngle)
    ensures
        spec_is_grounded(seq![contact], Some(max_slope_angle)) <==> abs(contact.normal_angle@)
            <= max_slope_angle.0@,
{
    let contacts = seq![contact];
    assert(contacts[0] == contact);
    if abs(contact.normal_angle@) <= max_slope_angle.0@ {
        assert(walkable(contacts[0], Some(max_slope_angle)));
    }
}

} // verus!
