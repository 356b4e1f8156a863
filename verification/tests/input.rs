use cube_motion::input::{accelerate, move_cube, ControlScheme, Keys, JUMP_IMPULSE};
use cube_motion::vector::{Axes, Vec3};

fn keys(left: bool, right: bool, back: bool, forward: bool, jump: bool) -> Keys {
    Keys { left, right, back, forward, jump }
}

/// The axes of an entity turned a quarter turn to its left about the
/// vertical.
fn quarter_turn() -> Axes {
    Axes {
        x: Vec3::new(0, 0, -1_000_000),
        y: Vec3::new(0, 1_000_000, 0),
        z: Vec3::new(1_000_000, 0, 0),
    }
}

#[test]
fn no_keys_leave_the_velocity_alone() {
    let start = Vec3::new(123, -456, 789);
    let mut velocity = start;
    move_cube(&mut velocity, Keys::none(), ControlScheme::WorldAxis, &quarter_turn());
    assert_eq!(velocity, start);
    move_cube(&mut velocity, Keys::none(), ControlScheme::OrientationRelative, &quarter_turn());
    assert_eq!(velocity, start);
    assert_eq!(accelerate(start, Keys::none(), &Axes::identity()), start);
}

#[test]
fn no_keys_is_all_keys_up() {
    assert_eq!(Keys::none(), keys(false, false, false, false, false));
}

#[test]
fn world_axis_keys_push_along_the_world_axes() {
    let axes = quarter_turn();
    let mut v = Vec3::zero();
    move_cube(&mut v, keys(true, false, false, false, false), ControlScheme::WorldAxis, &axes);
    assert_eq!(v, Vec3::new(-1_000_000, 0, 0));
    let mut v = Vec3::zero();
    move_cube(&mut v, keys(false, true, false, false, false), ControlScheme::WorldAxis, &axes);
    assert_eq!(v, Vec3::new(1_000_000, 0, 0));
    let mut v = Vec3::zero();
    move_cube(&mut v, keys(false, false, true, false, false), ControlScheme::WorldAxis, &axes);
    assert_eq!(v, Vec3::new(0, 0, 1_000_000));
    let mut v = Vec3::zero();
    move_cube(&mut v, keys(false, false, false, true, false), ControlScheme::WorldAxis, &axes);
    assert_eq!(v, Vec3::new(0, 0, -1_000_000));
}

#[test]
fn jump_adds_half_a_unit_upward() {
    assert_eq!(JUMP_IMPULSE, 500_000);
    let mut v = Vec3::new(1, 2, 3);
    move_cube(&mut v, keys(false, false, false, false, true), ControlScheme::WorldAxis, &Axes::identity());
    assert_eq!(v, Vec3::new(1, 500_002, 3));
    let mut v = Vec3::new(1, 2, 3);
    move_cube(
        &mut v,
        keys(false, false, false, false, true),
        ControlScheme::OrientationRelative,
        &quarter_turn(),
    );
    assert_eq!(v, Vec3::new(1, 500_002, 3));
}

#[test]
fn opposite_keys_cancel() {
    let mut v = Vec3::new(250_000, 0, -250_000);
    move_cube(&mut v, keys(true, true, true, true, false), ControlScheme::WorldAxis, &Axes::identity());
    assert_eq!(v, Vec3::new(250_000, 0, -250_000));
}

#[test]
fn relative_keys_push_along_the_local_axes() {
    let axes = quarter_turn();
    let start = Vec3::new(10, 20, 30);
    let scheme = ControlScheme::OrientationRelative;
    let mut v = start;
    move_cube(&mut v, keys(true, false, false, false, false), scheme, &axes);
    assert_eq!(v, Vec3::new(10, 20, 1_000_030));
    let mut v = start;
    move_cube(&mut v, keys(false, true, false, false, false), scheme, &axes);
    assert_eq!(v, Vec3::new(10, 20, -999_970));
    let mut v = start;
    move_cube(&mut v, keys(false, false, true, false, false), scheme, &axes);
    assert_eq!(v, Vec3::new(1_000_010, 20, 30));
    let mut v = start;
    move_cube(&mut v, keys(false, false, false, true, false), scheme, &axes);
    assert_eq!(v, Vec3::new(-999_990, 20, 30));
}

#[test]
fn relative_keys_add_every_component_of_a_direction() {
    let tilted = Axes {
        x: Vec3::new(600_000, 800_000, 0),
        y: Vec3::new(-800_000, 600_000, 0),
        z: Vec3::new(0, 0, 1_000_000),
    };
    let v = accelerate(Vec3::zero(), keys(false, true, false, true, true), &tilted);
    assert_eq!(v, Vec3::new(600_000, 1_300_000, -1_000_000));
}

#[test]
fn with_identity_axes_both_schemes_agree() {
    let all = [
        keys(true, false, false, false, false),
        keys(false, true, false, true, false),
        keys(true, true, true, false, true),
        keys(false, false, true, true, true),
    ];
    for k in all {
        let mut world = Vec3::new(5, 6, 7);
        let mut local = Vec3::new(5, 6, 7);
        move_cube(&mut world, k, ControlScheme::WorldAxis, &Axes::identity());
        move_cube(&mut local, k, ControlScheme::OrientationRelative, &Axes::identity());
        assert_eq!(world, local);
    }
}

#[test]
fn a_held_key_keeps_adding() {
    let mut v = Vec3::zero();
    for _ in 0..5 {
        move_cube(&mut v, keys(false, true, false, false, false), ControlScheme::WorldAxis, &Axes::identity());
    }
    assert_eq!(v, Vec3::new(5_000_000, 0, 0));
}

#[test]
fn velocities_stop_at_the_ends_of_the_range() {
    let mut v = Vec3::new(i64::MAX, i64::MAX, i64::MIN);
    move_cube(&mut v, keys(false, true, false, true, true), ControlScheme::WorldAxis, &Axes::identity());
    assert_eq!(v, Vec3::new(i64::MAX, i64::MAX, i64::MIN));
}
