use cube_motion::look::{
    mouse_look, turn_angle, LookState, MouseMotion, Orientation, WindowSize, PITCH_LIMIT,
};
use cube_motion::settings::MouseMovementSettings;

fn window() -> WindowSize {
    WindowSize { width: 1_280_000_000, height: 720_000_000 }
}

fn motion(dx: i64, dy: i64) -> MouseMotion {
    MouseMotion { dx, dy }
}

#[test]
fn default_settings() {
    let settings = MouseMovementSettings::default();
    assert_eq!(settings.sensitivity, 120);
    assert_eq!(settings.speed, 12_000_000);
}

#[test]
fn the_look_state_starts_level() {
    assert_eq!(LookState::default(), LookState { pitch: 0, yaw: 0 });
}

#[test]
fn a_motion_turns_by_sensitivity_times_delta_times_window_scale() {
    assert_eq!(turn_angle(120, 10_000_000, 720_000_000), 15_079);
    assert_eq!(turn_angle(120, -5_000_000, 720_000_000), -7_539);
    assert_eq!(turn_angle(120, 3_000_000, 600_000_000), 3_769);
    assert_eq!(turn_angle(120, 0, 720_000_000), 0);
}

#[test]
fn motions_turn_yaw_and_pitch_the_other_way() {
    let mut state = LookState::default();
    let mut events = vec![motion(10_000_000, -5_000_000)];
    mouse_look(&mut state, &MouseMovementSettings::default(), &mut events, true, window());
    assert_eq!(state, LookState { pitch: 7_539, yaw: -15_079 });
    assert!(events.is_empty());
}

#[test]
fn motions_add_up_in_order() {
    let mut state = LookState { pitch: 100, yaw: 200 };
    let mut events = vec![motion(10_000_000, 0), motion(3_000_000, -5_000_000), motion(-10_000_000, 0)];
    let narrow = WindowSize { width: 720_000_000, height: 900_000_000 };
    mouse_look(&mut state, &MouseMovementSettings::default(), &mut events, true, narrow);
    assert_eq!(state, LookState { pitch: 7_639, yaw: 200 - 4_523 });
    assert!(events.is_empty());
}

#[test]
fn the_smaller_side_of_the_window_scales_the_motion() {
    let settings = MouseMovementSettings::default();
    let mut wide = LookState::default();
    let mut tall = LookState::default();
    let mut first = vec![motion(3_000_000, 0)];
    let mut second = vec![motion(3_000_000, 0)];
    mouse_look(&mut wide, &settings, &mut first, true, WindowSize { width: 900_000_000, height: 600_000_000 });
    mouse_look(&mut tall, &settings, &mut second, true, WindowSize { width: 600_000_000, height: 900_000_000 });
    assert_eq!(wide.yaw, -3_769);
    assert_eq!(tall.yaw, -3_769);
}

#[test]
fn the_pitch_is_held_below_straight_up() {
    assert_eq!(PITCH_LIMIT, 1_540_000);
    let mut state = LookState::default();
    let mut events = Vec::new();
    for _ in 0..5 {
        events.push(motion(0, -1_000_000_000));
    }
    mouse_look(&mut state, &MouseMovementSettings::default(), &mut events, true, window());
    assert_eq!(state.pitch, 1_540_000);
    assert_eq!(state.yaw, 0);
}

#[test]
fn the_pitch_is_held_above_straight_down() {
    let mut state = LookState::default();
    let mut events = Vec::new();
    for _ in 0..5 {
        events.push(motion(0, 1_000_000_000));
    }
    mouse_look(&mut state, &MouseMovementSettings::default(), &mut events, true, window());
    assert_eq!(state.pitch, -1_540_000);
}

#[test]
fn the_pitch_is_clamped_once_the_whole_queue_has_been_taken_in() {
    let mut state = LookState::default();
    let mut events = vec![motion(0, -2_000_000_000), motion(0, 2_000_000_000)];
    mouse_look(&mut state, &MouseMovementSettings::default(), &mut events, true, window());
    assert_eq!(state.pitch, 0);
}

#[test]
fn the_yaw_is_not_limited() {
    let mut state = LookState::default();
    let mut events = Vec::new();
    for _ in 0..10 {
        events.push(motion(-1_000_000_000, 0));
    }
    mouse_look(&mut state, &MouseMovementSettings::default(), &mut events, true, window());
    assert_eq!(state.yaw, 15_079_640);
}

#[test]
fn a_free_cursor_drops_the_motions() {
    let start = LookState { pitch: -700_000, yaw: 2_000_000 };
    let mut state = start;
    let mut events = vec![motion(10_000_000, 10_000_000), motion(-3, 7), motion(1_000_000_000, 0)];
    mouse_look(&mut state, &MouseMovementSettings::default(), &mut events, false, window());
    assert_eq!(state, start);
    assert!(events.is_empty());
}

#[test]
fn an_empty_queue_changes_nothing() {
    let start = LookState { pitch: 1_540_000, yaw: -9 };
    let mut state = start;
    let mut events = Vec::new();
    mouse_look(&mut state, &MouseMovementSettings::default(), &mut events, true, window());
    assert_eq!(state, start);
}

#[test]
fn the_pitch_is_clamped_with_a_free_cursor_too() {
    let mut state = LookState { pitch: 3_000_000, yaw: 5 };
    let mut events = vec![motion(1, 1)];
    mouse_look(&mut state, &MouseMovementSettings::default(), &mut events, false, window());
    assert_eq!(state, LookState { pitch: 1_540_000, yaw: 5 });
    assert!(events.is_empty());
}

#[test]
fn the_camera_pitches_and_the_cube_stays_upright() {
    let state = LookState { pitch: 250_000, yaw: -1_000_000 };
    assert_eq!(state.camera_orientation(), Orientation { yaw: -1_000_000, pitch: 250_000 });
    assert_eq!(state.cube_orientation(), Orientation { yaw: -1_000_000, pitch: 0 });
    assert_eq!(Orientation::identity(), Orientation { yaw: 0, pitch: 0 });
}
