use character_controller::camera::{
    camera_height, camera_pose, fps_controller_render, CameraConfig, CameraPose, Collider,
    RenderPlayer,
};
use character_controller::character::Character;
use character_controller::controller::CharacterControllerBundle;
use character_controller::look::View;
use character_controller::math::Vector3;
use character_controller::scalar::{Scalar, ONE};

fn s(raw: i64) -> Scalar {
    Scalar::from_raw(raw)
}

fn capsule() -> Collider {
    Collider::Capsule { half_height: s(750_000_000), radius: s(400_000_000) }
}

fn config() -> CameraConfig {
    CameraConfig { height_offset: s(0), radius_scale: s(750_000_000) }
}

fn character(entity: u64, x: i64, y: i64, z: i64) -> Character {
    let bundle = CharacterControllerBundle::new(capsule()).unwrap();
    let mut c = Character::new(entity, Vector3::new(s(x), s(y), s(z)), bundle);
    c.camera_config = Some(config());
    c
}

#[test]
fn camera_height_on_a_capsule() {
    // 0.75 + 0.4 * 0.75 + 0
    assert_eq!(camera_height(capsule(), config()), Some(s(1_050_000_000)));
    let raised = CameraConfig { height_offset: s(-200_000_000), radius_scale: s(2 * ONE) };
    // 0.75 + 0.4 * 2 - 0.2
    assert_eq!(camera_height(capsule(), raised), Some(s(1_350_000_000)));
}

#[test]
fn no_camera_height_without_a_capsule() {
    assert_eq!(camera_height(Collider::Other, config()), None);
}

#[test]
fn pose_is_above_the_body_and_looks_with_the_view() {
    let mut c = character(7, ONE, 2 * ONE, -3 * ONE);
    c.view = View { yaw: s(500_000_000), pitch: s(-250_000_000) };
    assert_eq!(
        camera_pose(&c),
        Some(CameraPose {
            translation: Vector3::new(s(ONE), s(3_050_000_000), s(-3 * ONE)),
            yaw: s(500_000_000),
            pitch: s(-250_000_000),
        })
    );
}

#[test]
fn no_pose_without_a_camera_config_or_a_capsule() {
    let mut c = character(7, 0, 0, 0);
    c.camera_config = None;
    assert_eq!(camera_pose(&c), None);
    let mut c = character(7, 0, 0, 0);
    c.collider = Collider::Other;
    assert_eq!(camera_pose(&c), None);
}

#[test]
fn render_follows_the_link() {
    let mut players = vec![character(1, 0, 0, 0), character(2, ONE, ONE, ONE), character(3, 0, 5 * ONE, 0)];
    players[1].view = View { yaw: s(1), pitch: s(2) };
    players[2].collider = Collider::Other;
    let cameras = vec![RenderPlayer(2), RenderPlayer(9), RenderPlayer(3), RenderPlayer(1), RenderPlayer(2)];
    let poses = fps_controller_render(&cameras, &players);
    assert_eq!(poses.len(), 5);
    let second = Some(CameraPose {
        translation: Vector3::new(s(ONE), s(2_050_000_000), s(ONE)),
        yaw: s(1),
        pitch: s(2),
    });
    assert_eq!(poses[0], second);
    // a link to nobody is skipped
    assert_eq!(poses[1], None);
    // so is one to a shape that is no capsule
    assert_eq!(poses[2], None);
    assert_eq!(
        poses[3],
        Some(CameraPose {
            translation: Vector3::new(s(0), s(1_050_000_000), s(0)),
            yaw: s(0),
            pitch: s(0),
        })
    );
    // two cameras may watch one character
    assert_eq!(poses[4], second);
}

#[test]
fn render_takes_the_first_of_equal_entity_numbers() {
    let mut players = vec![character(4, 0, 0, 0), character(4, 0, 10 * ONE, 0)];
    players[0].collider = Collider::Other;
    let poses = fps_controller_render(&vec![RenderPlayer(4)], &players);
    assert_eq!(poses, vec![None]);
    players[0].collider = capsule();
    let poses = fps_controller_render(&vec![RenderPlayer(4)], &players);
    assert_eq!(poses[0].unwrap().translation.y.raw, 1_050_000_000);
}

#[test]
fn render_without_cameras_or_players() {
    assert_eq!(fps_controller_render(&vec![], &vec![character(1, 0, 0, 0)]), vec![]);
    assert_eq!(fps_controller_render(&vec![RenderPlayer(1)], &vec![]), vec![None]);
}
