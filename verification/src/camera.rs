//! The render camera: it follows a character's body and looks where the
//! character's view points, while the body itself never turns.

use vstd::prelude::*;
use crate::character::Character;
use crate::math::Vector3;
use crate::scalar::Scalar;

verus! {

/// Where the camera sits on a character.
#[derive(Clone, Copy, Debug, PartialEq, Eq, Structural)]
pub struct CameraConfig {
    /// Added to the camera's height.
    pub height_offset: Scalar,
    /// How much of the capsule's radius is added to the camera's height.
    pub radius_scale: Scalar,
}

/// Connects a camera to a character, by the character's entity number. The
/// camera does not own the character, nor the character the camera.
#[derive(Clone, Copy, Debug, PartialEq, Eq, Structural)]
pub struct RenderPlayer(pub u64);

/// The collision shape of a body, as far as the controller reads it.
#[derive(Clone, Copy, Debug, PartialEq, Eq, Structural)]
pub enum Collider {
    /// An upright capsule: a segment from `-half_height` to `half_height`
    /// along the up axis, thickened by `radius`.
    Capsule { half_height: Scalar, radius: Scalar },
    /// Any other shape.
    Other,
}

/// Where a camera is and where it looks. It does not roll.
#[derive(Clone, Copy, Debug, PartialEq, Eq, Structural)]
pub struct CameraPose {
    pub translation: Vector3,
    pub yaw: Scalar,
    pub pitch: Scalar,
}

/// The height of the camera above the middle of a capsule: the half height,
/// plus the scaled radius, plus the offset. Other shapes have none.
pub open spec fn spec_camera_height(collider: Collider, config: CameraConfig) -> Option<Scalar> {
    match collider {
        Collider::Capsule { half_height, radius } => Some(
            half_height.spec_plus(radius.spec_times(config.radius_scale)).spec_plus(
                config.height_offset,
            ),
        ),
        Collider::Other => None,
    }
}

/// The pose of a camera on `player`: above the body along the up axis by the
/// camera height, looking along the player's yaw and pitch. A player that
/// carries no camera, or whose shape is no capsule, gives none.
pub open spec fn spec_camera_pose(player: Character) -> Option<CameraPose> {
    match spec_height_on(player) {
        Some(height) => Some(
            CameraPose {
                translation: Vector3 {
                    x: player.translation.x,
                    y: player.translation.y.spec_plus(height),
                    z: player.translation.z,
                },
                yaw: player.view.yaw,
                pitch: player.view.pitch,
            },
        ),
        None => None,
    }
}

/// The height of the camera on `player`, if it carries one and its shape
/// gives one.
pub open spec fn spec_height_on(player: Character) -> Option<Scalar> {
    match player.camera_config {
        Some(config) => spec_camera_height(player.collider, config),
        None => None,
    }
}

/// The first player at or after position `from` with the entity number
/// `entity`, if there is one.
pub open spec fn spec_find_from(players: Seq<Character>, entity: u64, from: int) -> Option<
    Character,
>
    decreases players.len() - from,
{
    if from < 0 || from >= players.len() {
        None
    } else if players[from].entity == entity {
        Some(players[from])
    } else {
        spec_find_from(players, entity, from + 1)
    }
}

/// The pose for a camera connected to `link`: that of the first player with
/// that entity number, or none if no such player is there or its shape is no
/// capsule.
pub open spec fn spec_render(players: Seq<Character>, link: RenderPlayer) -> Option<CameraPose> {
    match spec_find_from(players, link.0, 0) {
        Some(player) => spec_camera_pose(player),
        None => None,
    }
}

/// The height of the camera on a shape.
pub fn camera_height(collider: Collider, config: CameraConfig) -> (height: Option<Scalar>)
    ensures
        height == spec_camera_height(collider, config),
{
    match collider {
        Collider::Capsule { half_height, radius } => Some(
            half_height.plus(radius.times(config.radius_scale)).plus(config.height_offset),
        ),
        Collider::Other => None,
    }
}

/// The pose of a camera on a player.
pub fn camera_pose(player: &Character) -> (pose: Option<CameraPose>)
    ensures
        pose == spec_camera_pose(*player),
{
    let height = match player.camera_config {
        Some(config) => camera_height(player.collider, config),
        None => None,
    };
    match height {
        Some(height) => Some(
            CameraPose {
                translation: Vector3 {
                    x: player.translation.x,
                    y: player.translation.y.plus(height),
                    z: player.translation.z,
                },
                yaw: player.view.yaw,
                pitch: player.view.pitch,
            },
        ),
        None => None,
    }
}

/// Finds the first player with an entity number.
fn find_player(players: &Vec<Character>, entity: u64) -> (found: Option<&Character>)
    ensures
        match found {
            Some(player) => spec_find_from(players@, entity, 0) == Some(*player),
            None => spec_find_from(players@, entity, 0) is None,
        },
{
    let mut i: usize = 0;
    while i < players.len()
        invariant
            0 <= i <= players@.len(),
            spec_find_from(players@, entity, 0) == spec_find_from(players@, entity, i as int),
        decreases players@.len() - i,
    {
        if players[i].entity == entity {
            return Some(&players[i]);
        }
        i = i + 1;
    }
    None
}

/// Computes this frame's pose for every camera. A camera whose character is
/// gone, or whose character's shape is no capsule, gets `None` and stays as
/// it is.
pub fn fps_controller_render(
    render_query: &Vec<RenderPlayer>,
    logical_query: &Vec<Character>,
) -> (poses: Vec<Option<CameraPose>>)
    ensures
        poses@.len() == render_query@.len(),
        forall|i: int|
            0 <= i < render_query@.len() ==> #[trigger] poses@[i] == spec_render(
                logical_query@,
                render_query@[i],
            ),
{
    let mut poses: Vec<Option<CameraPose>> = Vec::new();
    let mut i: usize = 0;
    while i < render_query.len()
        invariant
            0 <= i <= render_query@.len(),
            poses@.len() == i,
            forall|j: int|
                0 <= j < i ==> #[trigger] poses@[j] == spec_render(
                    logical_query@,
                    render_query@[j],
                ),
        decreases render_query@.len() - i,
    {
        let pose = match find_player(logical_query, render_query[i].0) {
            Some(player) => camera_pose(player),
            None => None,
        };
        poses.push(pose);
        i = i + 1;
    }
    poses
}

/// A camera on a capsule gets a pose: the body's place raised by the camera
/// height, and the player's own yaw and pitch.
pub proof fn lemma_capsule_is_rendered(players: Seq<Character>, link: RenderPlayer, at: int)
    requires
        0 <= at < players.len(),
        players[at].entity == link.0,
        forall|j: int| 0 <= j < at ==> players[j].entity != link.0,
        players[at].collider is Capsule,
        players[at].camera_config is Some,
    ensures
        spec_render(players, link) == spec_camera_pose(players[at]),
        spec_render(players, link) matches Some(pose) && pose.yaw == players[at].view.yaw
            && pose.pitch == players[at].view.pitch && pose.translation.x
            == players[at].translation.x && pose.translation.z == players[at].translation.z,
{
    lemma_find_skips(players, link.0, 0, at);
}

/// A camera whose character is not among the players gets no pose.
pub proof fn lemma_dangling_link_is_skipped(players: Seq<Character>, link: RenderPlayer)
    requires
        forall|j: int| 0 <= j < players.len() ==> players[j].entity != link.0,
    ensures
        spec_render(players, link) is None,
{
    lemma_find_skips(players, link.0, 0, players.len() as int);
}

/// Players with other entity numbers are passed over.
proof fn lemma_find_skips(players: Seq<Character>, entity: u64, from: int, to: int)
    requires
        0 <= from <= to <= players.len(),
        forall|j: int| from <= j < to ==> players[j].entity != entity,
    ensures
        spec_find_from(players, entity, from) == spec_find_from(players, entity, to),
    decreases to - from,
{
    if from < to {
        lemma_find_skips(players, entity, from + 1, to);
    }
}

} // verus!
