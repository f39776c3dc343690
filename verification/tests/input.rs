use vse2d::{Event, InputContext};

const ESCAPE: u32 = 41;
const LEFT: u32 = 80;
const RIGHT: u32 = 79;
const UP: u32 = 82;
const DOWN: u32 = 81;
const BUTTON_LEFT: u32 = 1;

#[test]
fn fresh_tracker_reports_nothing() {
    let input = InputContext::new();
    assert!(!input.key_pressed(ESCAPE));
    assert!(!input.key_just_pressed(ESCAPE));
    assert!(!input.key_just_released(ESCAPE));
    assert!(!input.mouse_pressed(BUTTON_LEFT));
    assert_eq!(input.mouse_position(), (0, 0));
    assert_eq!(input.mouse_offset(), (0, 0));
}

#[test]
fn key_down_sets_pressed_and_just_pressed() {
    let mut input = InputContext::new();
    input.process_event(&Event::KeyDown { code: ESCAPE });
    assert!(input.key_pressed(ESCAPE));
    assert!(input.key_just_pressed(ESCAPE));
    assert!(!input.key_just_released(ESCAPE));
}

#[test]
fn key_up_clears_pressed_and_sets_just_released() {
    let mut input = InputContext::new();
    input.process_event(&Event::KeyDown { code: ESCAPE });
    input.update();
    input.process_event(&Event::KeyUp { code: ESCAPE });
    assert!(!input.key_pressed(ESCAPE));
    assert!(!input.key_just_pressed(ESCAPE));
    assert!(input.key_just_released(ESCAPE));
}

#[test]
fn transient_reset_keeps_pressed() {
    let mut input = InputContext::new();
    input.process_event(&Event::KeyDown { code: ESCAPE });
    input.process_event(&Event::MouseMotion { x: 7, y: 9, dx: 5, dy: 5 });
    let pressed_before = input.key_pressed(ESCAPE);
    input.update();
    assert!(!input.key_just_pressed(ESCAPE));
    assert!(!input.key_just_released(ESCAPE));
    assert_eq!(input.key_pressed(ESCAPE), pressed_before);
    assert!(input.key_pressed(ESCAPE));
    assert_eq!(input.mouse_offset(), (0, 0));
    assert_eq!(input.mouse_position(), (7, 9));
}

#[test]
fn repeated_key_down_is_idempotent() {
    let mut once = InputContext::new();
    once.process_event(&Event::KeyDown { code: ESCAPE });
    let mut twice = InputContext::new();
    twice.process_event(&Event::KeyDown { code: ESCAPE });
    twice.process_event(&Event::KeyDown { code: ESCAPE });
    assert!(twice.key_pressed(ESCAPE));
    assert!(twice.key_just_pressed(ESCAPE));
    assert_eq!(twice.key_pressed(ESCAPE), once.key_pressed(ESCAPE));
    assert_eq!(twice.key_just_pressed(ESCAPE), once.key_just_pressed(ESCAPE));
    assert_eq!(twice.key_just_released(ESCAPE), once.key_just_released(ESCAPE));
}

#[test]
fn repeated_key_up_is_idempotent() {
    let mut input = InputContext::new();
    input.process_event(&Event::KeyDown { code: ESCAPE });
    input.update();
    input.process_event(&Event::KeyUp { code: ESCAPE });
    input.process_event(&Event::KeyUp { code: ESCAPE });
    assert!(!input.key_pressed(ESCAPE));
    assert!(input.key_just_released(ESCAPE));
}

#[test]
fn down_then_up_within_a_frame_leaves_one_transient() {
    let mut input = InputContext::new();
    input.process_event(&Event::KeyDown { code: ESCAPE });
    input.process_event(&Event::KeyUp { code: ESCAPE });
    assert!(!input.key_pressed(ESCAPE));
    assert!(!input.key_just_pressed(ESCAPE));
    assert!(input.key_just_released(ESCAPE));
    input.process_event(&Event::MouseButtonDown { code: BUTTON_LEFT });
    input.process_event(&Event::MouseButtonUp { code: BUTTON_LEFT });
    assert!(!input.mouse_just_pressed(BUTTON_LEFT));
    assert!(input.mouse_just_released(BUTTON_LEFT));
}

#[test]
fn up_then_down_within_a_frame_leaves_one_transient() {
    let mut input = InputContext::new();
    input.process_event(&Event::KeyDown { code: ESCAPE });
    input.update();
    input.process_event(&Event::KeyUp { code: ESCAPE });
    input.process_event(&Event::KeyDown { code: ESCAPE });
    assert!(input.key_pressed(ESCAPE));
    assert!(input.key_just_pressed(ESCAPE));
    assert!(!input.key_just_released(ESCAPE));
}

#[test]
fn motion_accumulates_offset_and_overwrites_position() {
    let mut input = InputContext::new();
    input.process_event(&Event::MouseMotion { x: 10, y: 0, dx: 1, dy: 0 });
    input.process_event(&Event::MouseMotion { x: 12, y: 0, dx: 2, dy: 0 });
    input.process_event(&Event::MouseMotion { x: 12, y: 3, dx: 0, dy: 3 });
    assert_eq!(input.mouse_offset(), (3, 3));
    assert_eq!(input.mouse_position(), (12, 3));
}

#[test]
fn direction_zero_when_no_key_held() {
    let input = InputContext::new();
    assert_eq!(input.key_direction(LEFT, RIGHT, UP, DOWN), (0, 0));
}

#[test]
fn direction_cancels_opposing_keys() {
    let mut input = InputContext::new();
    input.process_event(&Event::KeyDown { code: LEFT });
    input.process_event(&Event::KeyDown { code: RIGHT });
    let dir = input.key_direction(LEFT, RIGHT, UP, DOWN);
    assert_eq!(dir.0, 0);
}

#[test]
fn direction_unit_up() {
    let mut input = InputContext::new();
    input.process_event(&Event::KeyDown { code: UP });
    assert_eq!(input.key_direction(LEFT, RIGHT, UP, DOWN), (0, -1));
}

#[test]
fn direction_components() {
    let mut input = InputContext::new();
    input.process_event(&Event::KeyDown { code: RIGHT });
    input.process_event(&Event::KeyDown { code: DOWN });
    assert_eq!(input.key_direction(LEFT, RIGHT, UP, DOWN), (1, 1));
    input.process_event(&Event::KeyUp { code: RIGHT });
    input.process_event(&Event::KeyDown { code: LEFT });
    assert_eq!(input.key_direction(LEFT, RIGHT, UP, DOWN), (-1, 1));
}

#[test]
fn mouse_button_tristate() {
    let mut input = InputContext::new();
    input.process_event(&Event::MouseButtonDown { code: BUTTON_LEFT });
    assert!(input.mouse_pressed(BUTTON_LEFT));
    assert!(input.mouse_just_pressed(BUTTON_LEFT));
    assert!(!input.mouse_just_released(BUTTON_LEFT));
    input.update();
    assert!(input.mouse_pressed(BUTTON_LEFT));
    assert!(!input.mouse_just_pressed(BUTTON_LEFT));
    input.process_event(&Event::MouseButtonUp { code: BUTTON_LEFT });
    assert!(!input.mouse_pressed(BUTTON_LEFT));
    assert!(input.mouse_just_released(BUTTON_LEFT));
}

#[test]
fn key_and_button_namespaces_are_separate() {
    let mut input = InputContext::new();
    input.process_event(&Event::KeyDown { code: 1 });
    assert!(input.key_pressed(1));
    assert!(!input.mouse_pressed(1));
}

#[test]
fn ignored_events_change_nothing() {
    let mut input = InputContext::new();
    input.process_event(&Event::KeyDown { code: ESCAPE });
    input.process_event(&Event::Other);
    input.process_event(&Event::Resized);
    input.process_event(&Event::Quit);
    assert!(input.key_pressed(ESCAPE));
    assert_eq!(input.mouse_position(), (0, 0));
    assert_eq!(input.mouse_offset(), (0, 0));
}

#[test]
fn default_matches_new() {
    let d = InputContext::default();
    assert!(!d.key_pressed(ESCAPE));
    assert_eq!(d.mouse_position(), (0, 0));
}

#[test]
fn offset_saturates_instead_of_wrapping() {
    let mut input = InputContext::new();
    for _ in 0..3 {
        input.process_event(&Event::MouseMotion { x: 0, y: 0, dx: i32::MAX, dy: i32::MIN });
    }
    let (ox, oy) = input.mouse_offset();
    assert_eq!(ox, 3 * (i32::MAX as i64));
    assert_eq!(oy, 3 * (i32::MIN as i64));
}
