use character_controller::cursor::{manage_cursor, InputCapture};
use character_controller::look::PlayerSettings;
use character_controller::scalar::Scalar;

fn settings(enable_input: bool, sensitivity: i64) -> PlayerSettings {
    PlayerSettings { enable_input, sensitivity: Scalar::from_raw(sensitivity) }
}

#[test]
fn capture_transitions() {
    let captured = InputCapture::Captured;
    let released = InputCapture::Released;
    assert_eq!(released.next(true, false), captured);
    assert_eq!(captured.next(false, true), released);
    // the same press again changes nothing
    assert_eq!(captured.next(true, false), captured);
    assert_eq!(released.next(false, true), released);
    // no press, no change
    assert_eq!(released.next(false, false), released);
    assert_eq!(captured.next(false, false), captured);
    // both in one frame: cancel has the last word
    assert_eq!(released.next(true, true), released);
    assert_eq!(captured.next(true, true), released);
}

#[test]
fn cursor_follows_the_mode() {
    assert!(InputCapture::Captured.cursor_locked());
    assert!(!InputCapture::Captured.cursor_visible());
    assert!(InputCapture::Captured.input_enabled());
    assert!(!InputCapture::Released.cursor_locked());
    assert!(InputCapture::Released.cursor_visible());
    assert!(!InputCapture::Released.input_enabled());
}

#[test]
fn primary_press_captures_for_everyone() {
    let mut capture = InputCapture::Released;
    let mut query = vec![PlayerSettings::default(), settings(false, 5)];
    let cursor = manage_cursor(true, false, &mut capture, &mut query);
    assert_eq!(cursor, Some(InputCapture::Captured));
    assert_eq!(capture, InputCapture::Captured);
    assert_eq!(query, vec![settings(true, 1_000_000), settings(true, 5)]);
}

#[test]
fn cancel_releases_for_everyone() {
    let mut capture = InputCapture::Captured;
    let mut query = vec![settings(true, 1), settings(false, 2)];
    let cursor = manage_cursor(false, true, &mut capture, &mut query);
    assert_eq!(cursor, Some(InputCapture::Released));
    assert_eq!(capture, InputCapture::Released);
    assert_eq!(query, vec![settings(false, 1), settings(false, 2)]);
}

#[test]
fn both_presses_release() {
    let mut capture = InputCapture::Released;
    let mut query = vec![settings(true, 1)];
    let cursor = manage_cursor(true, true, &mut capture, &mut query);
    assert_eq!(cursor, Some(InputCapture::Released));
    assert_eq!(capture, InputCapture::Released);
    assert_eq!(query, vec![settings(false, 1)]);
}

#[test]
fn without_a_press_nothing_changes() {
    let mut capture = InputCapture::Captured;
    let mut query = vec![settings(false, 1), settings(true, 2)];
    let cursor = manage_cursor(false, false, &mut capture, &mut query);
    assert_eq!(cursor, None);
    assert_eq!(capture, InputCapture::Captured);
    assert_eq!(query, vec![settings(false, 1), settings(true, 2)]);
}
