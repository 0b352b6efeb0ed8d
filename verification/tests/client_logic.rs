use game::cursor::{grab_on_click, look_follows_mouse, toggle_pause, CursorGrabMode, CursorOptions};
use game::input::{buffer_input, MotionIntent, MovementKeys};
use game::launch::LaunchGuard;

fn free_visible() -> CursorOptions {
    CursorOptions { grab_mode: CursorGrabMode::Free, visible: true }
}

#[test]
fn escape_locks_free_cursor_and_pauses() {
    let mut cursor = free_visible();
    let mut paused = false;
    let unexpected = toggle_pause(&mut cursor, &mut paused, true);
    assert!(!unexpected);
    assert!(paused);
    assert_eq!(cursor, CursorOptions { grab_mode: CursorGrabMode::Locked, visible: false });
}

#[test]
fn escape_frees_locked_cursor() {
    let mut cursor = CursorOptions { grab_mode: CursorGrabMode::Locked, visible: false };
    let mut paused = true;
    assert!(!toggle_pause(&mut cursor, &mut paused, true));
    assert!(!paused);
    assert_eq!(cursor, free_visible());
}

#[test]
fn escape_on_confined_cursor_reports_and_keeps_mode() {
    let mut cursor = CursorOptions { grab_mode: CursorGrabMode::Confined, visible: true };
    let mut paused = false;
    assert!(toggle_pause(&mut cursor, &mut paused, true));
    assert!(paused);
    assert_eq!(cursor, CursorOptions { grab_mode: CursorGrabMode::Confined, visible: false });
}

#[test]
fn no_escape_changes_nothing() {
    let mut cursor = CursorOptions { grab_mode: CursorGrabMode::Confined, visible: true };
    let mut paused = true;
    assert!(!toggle_pause(&mut cursor, &mut paused, false));
    assert!(paused);
    assert_eq!(cursor, CursorOptions { grab_mode: CursorGrabMode::Confined, visible: true });
}

#[test]
fn escape_twice_restores() {
    for mode in [CursorGrabMode::Free, CursorGrabMode::Confined, CursorGrabMode::Locked] {
        for visible in [false, true] {
            for paused0 in [false, true] {
                let start = CursorOptions { grab_mode: mode, visible };
                let mut cursor = start;
                let mut paused = paused0;
                toggle_pause(&mut cursor, &mut paused, true);
                toggle_pause(&mut cursor, &mut paused, true);
                assert_eq!(cursor, start);
                assert_eq!(paused, paused0);
            }
        }
    }
}

#[test]
fn click_while_paused_resumes_and_locks() {
    let mut cursor = free_visible();
    let mut paused = true;
    grab_on_click(&mut cursor, &mut paused, true);
    assert!(!paused);
    assert_eq!(cursor, CursorOptions { grab_mode: CursorGrabMode::Locked, visible: false });
}

#[test]
fn click_while_playing_changes_nothing() {
    let mut cursor = free_visible();
    let mut paused = false;
    grab_on_click(&mut cursor, &mut paused, true);
    assert!(!paused);
    assert_eq!(cursor, free_visible());
    let mut paused = true;
    grab_on_click(&mut cursor, &mut paused, false);
    assert!(paused);
    assert_eq!(cursor, free_visible());
}

#[test]
fn look_follows_mouse_only_when_not_paused() {
    assert!(look_follows_mouse(false));
    assert!(!look_follows_mouse(true));
}

fn keys(forward: bool, backward: bool, left: bool, right: bool, jump: bool) -> MovementKeys {
    MovementKeys { forward, backward, left, right, jump }
}

#[test]
fn forward_key_gives_negative_y() {
    assert_eq!(buffer_input(keys(true, false, false, false, false)), MotionIntent { x: 0, y: -1, jump: false });
    assert_eq!(buffer_input(keys(false, true, false, false, false)), MotionIntent { x: 0, y: 1, jump: false });
}

#[test]
fn strafe_keys_give_x() {
    assert_eq!(buffer_input(keys(false, false, false, true, false)), MotionIntent { x: 1, y: 0, jump: false });
    assert_eq!(buffer_input(keys(false, false, true, false, true)), MotionIntent { x: -1, y: 0, jump: true });
}

#[test]
fn opposite_keys_cancel() {
    assert_eq!(buffer_input(keys(true, true, true, true, false)), MotionIntent { x: 0, y: 0, jump: false });
}

#[test]
fn diagonal_keys() {
    assert_eq!(buffer_input(keys(true, false, false, true, true)), MotionIntent { x: 1, y: -1, jump: true });
}

#[test]
fn launch_guard_starts_once() {
    let mut guard = LaunchGuard::new();
    assert!(!guard.started());
    assert!(!guard.swap_started());
    assert!(guard.started());
    assert!(guard.swap_started());
    assert!(guard.swap_started());
}

#[test]
fn default_intent_is_neutral() {
    assert_eq!(MotionIntent::default(), MotionIntent { x: 0, y: 0, jump: false });
    assert_eq!(MotionIntent::default(), buffer_input(keys(false, false, false, false, false)));
}
