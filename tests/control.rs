use bevy_prank::control::{
    CameraFrame, ConfigError, FlyInput, FlyKeys, Orientation, Prank3d, MAX_SPEED_SCALAR, MIN_SPEED_SCALAR,
    PITCH_LIMIT,
};
use bevy_prank::fixed::{Vec2, Vec3, UNIT};

fn frame() -> CameraFrame {
    CameraFrame {
        forward: Vec3 { x: 0, y: 0, z: -UNIT },
        right: Vec3 { x: UNIT, y: 0, z: 0 },
        up: Vec3 { x: 0, y: UNIT, z: 0 },
    }
}

fn no_keys() -> FlyKeys {
    FlyKeys { forward: false, back: false, left: false, right: false, up: false, down: false, level: false }
}

fn still(keys: FlyKeys) -> FlyInput {
    FlyInput { keys, motion: Vec2 { x: 0, y: 0 }, wheel: 0 }
}

fn level() -> Orientation {
    Orientation { yaw: 0, pitch: 0 }
}

#[test]
fn lerp_rate_of_one_and_a_half_is_refused_at_initialization() {
    let mut prank = Prank3d { lerp_rate: 1_500_000, ..Prank3d::default() };
    let before = prank;
    let r = prank.initialize(Vec3 { x: 1, y: 2, z: 3 });
    assert_eq!(r, Err(ConfigError::LerpRateOutOfRange));
    assert_eq!(prank, before);
}

#[test]
fn lerp_rate_bounds() {
    for (rate, ok) in [(0, true), (999_999, true), (1_000, true), (UNIT, false), (-1, false)] {
        let prank = Prank3d { lerp_rate: rate, ..Prank3d::default() };
        assert_eq!(prank.check_lerp_rate().is_ok(), ok, "rate {}", rate);
    }
}

#[test]
fn initialization_takes_the_camera_position() {
    let mut prank = Prank3d::default();
    let at = Vec3 { x: 0, y: 2 * UNIT, z: 5 * UNIT };
    assert_eq!(prank.initialize(at), Ok(()));
    assert_eq!(prank.translation, at);
    assert_eq!(prank.speed, 25 * UNIT);
}

#[test]
fn default_component() {
    let prank = Prank3d::default();
    assert!(prank.is_active);
    assert_eq!(prank.speed, 25_000_000);
    assert_eq!(prank.speed_scalar, 1_000_000);
    assert_eq!(prank.lerp_rate, 1_000);
    assert_eq!(prank.sensitivity, Vec2 { x: 80_000, y: 80_000 });
    assert_eq!(prank.translation, Vec3 { x: 0, y: 0, z: 0 });
}

#[test]
fn wheel_moves_the_scalar_by_a_tenth_per_line() {
    let mut prank = Prank3d::default();
    prank.apply_wheel(UNIT);
    assert_eq!(prank.speed_scalar, 1_100_000);
    prank.apply_wheel(-3 * UNIT);
    assert_eq!(prank.speed_scalar, 800_000);
    prank.apply_wheel(-15);
    assert_eq!(prank.speed_scalar, 799_999);
}

#[test]
fn wheel_clamps_the_scalar() {
    let mut prank = Prank3d::default();
    prank.apply_wheel(i64::MAX);
    assert_eq!(prank.speed_scalar, MAX_SPEED_SCALAR);
    prank.apply_wheel(i64::MIN);
    assert_eq!(prank.speed_scalar, MIN_SPEED_SCALAR);
    let mut wild = Prank3d { speed_scalar: 50 * UNIT, ..Prank3d::default() };
    wild.apply_wheel(0);
    assert_eq!(wild.speed_scalar, MAX_SPEED_SCALAR);
}

#[test]
fn scalar_stays_in_range_over_many_wheel_inputs() {
    let mut prank = Prank3d { speed_scalar: -7, ..Prank3d::default() };
    let wheels = [0, 120 * UNIT, 3 * UNIT, -1, i64::MIN, 40 * UNIT, -250 * UNIT, 7, i64::MAX];
    for w in wheels {
        prank.apply_wheel(w);
        assert!(MIN_SPEED_SCALAR <= prank.speed_scalar && prank.speed_scalar <= MAX_SPEED_SCALAR);
    }
}

#[test]
fn pitch_is_clamped_whatever_the_motion() {
    let prank = Prank3d::default();
    let down = prank.turn(level(), Vec2 { x: 0, y: 1_000 * UNIT }, UNIT);
    assert_eq!(down.pitch, -PITCH_LIMIT);
    let up = prank.turn(level(), Vec2 { x: 0, y: i64::MIN }, i64::MAX);
    assert_eq!(up.pitch, PITCH_LIMIT);
    let small = prank.turn(level(), Vec2 { x: 0, y: 5 * UNIT }, UNIT);
    assert_eq!(small.pitch, -400_000);
}

#[test]
fn yaw_turns_without_bound() {
    let prank = Prank3d::default();
    let r = prank.turn(Orientation { yaw: UNIT, pitch: 0 }, Vec2 { x: 10 * UNIT, y: 0 }, 500_000);
    assert_eq!(r.yaw, 600_000);
    let far = prank.turn(Orientation { yaw: 0, pitch: 0 }, Vec2 { x: -1_000 * UNIT, y: 0 }, UNIT);
    assert_eq!(far.yaw, 80 * UNIT);
}

#[test]
fn fly_forward_moves_along_the_view() {
    let mut prank = Prank3d::default();
    let keys = FlyKeys { forward: true, ..no_keys() };
    let r = prank.fly(level(), &frame(), &still(keys), 100_000);
    assert_eq!(prank.translation, Vec3 { x: 0, y: 0, z: -2_500_000 });
    assert_eq!(r, level());
}

#[test]
fn fly_diagonal_is_normalized() {
    let mut prank = Prank3d::default();
    let keys = FlyKeys { forward: true, right: true, ..no_keys() };
    prank.fly(level(), &frame(), &still(keys), 100_000);
    assert_eq!(prank.translation, Vec3 { x: 1_767_767, y: 0, z: -1_767_767 });
}

#[test]
fn fly_opposite_keys_cancel() {
    let mut prank = Prank3d::default();
    let keys = FlyKeys { forward: true, back: true, left: true, right: true, ..no_keys() };
    prank.fly(level(), &frame(), &still(keys), UNIT);
    assert_eq!(prank.translation, Vec3 { x: 0, y: 0, z: 0 });
}

#[test]
fn fly_level_drops_the_vertical_part() {
    let tilted = CameraFrame { forward: Vec3 { x: 0, y: -600_000, z: -800_000 }, ..frame() };
    let keys = FlyKeys { forward: true, ..no_keys() };
    let mut free = Prank3d::default();
    free.fly(level(), &tilted, &still(keys), 100_000);
    assert_eq!(free.translation, Vec3 { x: 0, y: -1_500_000, z: -2_000_000 });
    let mut flat = Prank3d::default();
    flat.fly(level(), &tilted, &still(FlyKeys { level: true, ..keys }), 100_000);
    assert_eq!(flat.translation, Vec3 { x: 0, y: 0, z: -2_500_000 });
}

#[test]
fn fly_up_key_follows_world_vertical() {
    let tilted = CameraFrame { forward: Vec3 { x: 0, y: -600_000, z: -800_000 }, ..frame() };
    let mut prank = Prank3d::default();
    prank.fly(level(), &tilted, &still(FlyKeys { up: true, ..no_keys() }), 100_000);
    assert_eq!(prank.translation, Vec3 { x: 0, y: 2_500_000, z: 0 });
}

#[test]
fn fly_speed_uses_the_square_of_the_new_scalar() {
    let mut prank = Prank3d::default();
    let input = FlyInput { keys: FlyKeys { forward: true, ..no_keys() }, motion: Vec2 { x: 0, y: 0 }, wheel: UNIT };
    prank.fly(level(), &frame(), &input, UNIT);
    assert_eq!(prank.speed_scalar, 1_100_000);
    assert_eq!(prank.translation, Vec3 { x: 0, y: 0, z: -30_250_000 });
}

#[test]
fn fly_turns_with_the_mouse() {
    let mut prank = Prank3d::default();
    let input = FlyInput { keys: no_keys(), motion: Vec2 { x: 10 * UNIT, y: 5 * UNIT }, wheel: 0 };
    let r = prank.fly(level(), &frame(), &input, UNIT);
    assert_eq!(r, Orientation { yaw: -800_000, pitch: -400_000 });
}

#[test]
fn offset_pans_in_the_view_plane() {
    let mut prank = Prank3d::default();
    let at = Vec3 { x: UNIT, y: 2 * UNIT, z: 3 * UNIT };
    let r = prank.offset(at, &frame(), Vec2 { x: 10 * UNIT, y: 5 * UNIT }, UNIT);
    assert_eq!(r, Vec3 { x: 1_800_000, y: 1_600_000, z: 3 * UNIT });
    assert_eq!(prank.translation, r);
    assert_eq!(prank.speed_scalar, UNIT);
}

#[test]
fn interpolation_covers_one_minus_decay_of_the_distance() {
    let prank = Prank3d { translation: Vec3 { x: 10 * UNIT, y: -4 * UNIT, z: 0 }, ..Prank3d::default() };
    let r = prank.interpolate(Vec3 { x: 0, y: 0, z: 0 }, 500_000);
    assert_eq!(r, Vec3 { x: 5 * UNIT, y: -2 * UNIT, z: 0 });
    let r = prank.interpolate(Vec3 { x: 0, y: 0, z: 0 }, 250_000);
    assert_eq!(r, Vec3 { x: 7_500_000, y: -3_000_000, z: 0 });
}

#[test]
fn interpolation_rounds_toward_the_current_position() {
    let prank = Prank3d { translation: Vec3 { x: -3, y: 3, z: 0 }, ..Prank3d::default() };
    let r = prank.interpolate(Vec3 { x: 0, y: 0, z: 0 }, 500_000);
    assert_eq!(r, Vec3 { x: -1, y: 1, z: 0 });
}

#[test]
fn zero_decay_snaps_and_full_decay_holds() {
    let target = Vec3 { x: 3, y: -9, z: 27 };
    let prank = Prank3d { translation: target, ..Prank3d::default() };
    let from = Vec3 { x: i64::MIN, y: i64::MAX, z: 0 };
    assert_eq!(prank.interpolate(from, 0), target);
    assert_eq!(prank.interpolate(from, UNIT), from);
}

#[test]
fn interpolation_at_the_target_does_not_drift() {
    let target = Vec3 { x: 123, y: -456, z: 789 };
    let prank = Prank3d { translation: target, ..Prank3d::default() };
    for decay in [0, 1, 500_000, 999_999, UNIT] {
        assert_eq!(prank.interpolate(target, decay), target);
    }
}

#[test]
fn repeated_interpolation_converges_monotonically() {
    let target = Vec3 { x: 10 * UNIT, y: -10 * UNIT, z: 1 };
    let prank = Prank3d { translation: target, ..Prank3d::default() };
    let mut at = Vec3 { x: 0, y: 0, z: 0 };
    for decay in [900_000, 1, 500_000, 999_999, 250_000, 700_000, 0] {
        let next = prank.interpolate(at, decay);
        assert!(0 <= next.x && next.x <= target.x);
        assert!(target.y <= next.y && next.y <= 0);
        assert!((target.x - next.x).abs() <= (target.x - at.x).abs());
        assert!((target.y - next.y).abs() <= (target.y - at.y).abs());
        at = next;
    }
    assert_eq!(at, target);
}

#[test]
fn key_direction_before_normalization() {
    let tilted = CameraFrame { forward: Vec3 { x: 0, y: -600_000, z: -800_000 }, ..frame() };
    let keys = FlyKeys { forward: true, left: true, down: true, ..no_keys() };
    assert_eq!(keys.direction(&tilted), Vec3 { x: -UNIT, y: -1_600_000, z: -800_000 });
    let flat = FlyKeys { level: true, ..keys };
    assert_eq!(flat.direction(&tilted), Vec3 { x: -UNIT, y: -UNIT, z: -800_000 });
    assert_eq!(no_keys().direction(&tilted), Vec3 { x: 0, y: 0, z: 0 });
}

#[test]
fn two_ticks_match_one_tick_of_the_product_decay() {
    let prank = Prank3d { translation: Vec3 { x: 10 * UNIT, y: 3, z: -7 * UNIT }, ..Prank3d::default() };
    let start = Vec3 { x: 0, y: 0, z: 0 };
    let two = prank.interpolate(prank.interpolate(start, 500_000), 500_000);
    let one = prank.interpolate(start, 250_000);
    assert_eq!(two, Vec3 { x: 7_500_000, y: 2, z: -5_250_000 });
    assert_eq!(one, two);
}
