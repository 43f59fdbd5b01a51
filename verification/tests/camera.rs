use viewer_control::camera::{clamp_i64, sat_add_i64, Camera, Movement, PlaneVec};
use viewer_control::input::{direction, KeyInput};
use viewer_control::{
    CAMERA_MOVE_SPEED, CAMERA_ZOOM_SPEED, DIAG_UNIT, FP_ONE, SCALE_MAX, SCALE_MIN, ZOOM_STEP,
};

fn keys() -> KeyInput {
    KeyInput::released()
}

#[test]
fn direction_single_axis_is_unit() {
    let mut k = keys();
    k.right = true;
    assert_eq!(direction(&k), (FP_ONE, 0));
    let mut k = keys();
    k.forward = true;
    assert_eq!(direction(&k), (0, FP_ONE));
    let mut k = keys();
    k.backward = true;
    assert_eq!(direction(&k), (0, -FP_ONE));
    let mut k = keys();
    k.left = true;
    assert_eq!(direction(&k), (-FP_ONE, 0));
}

#[test]
fn direction_diagonal_is_normalized() {
    let mut k = keys();
    k.forward = true;
    k.right = true;
    assert_eq!(direction(&k), (DIAG_UNIT, DIAG_UNIT));
    let mut k = keys();
    k.backward = true;
    k.left = true;
    assert_eq!(direction(&k), (-DIAG_UNIT, -DIAG_UNIT));
}

#[test]
fn opposing_keys_cancel() {
    let mut k = keys();
    k.forward = true;
    k.backward = true;
    assert_eq!(direction(&k), (0, 0));
    let mut k = keys();
    k.left = true;
    k.right = true;
    assert_eq!(direction(&k), (0, 0));
    let mut k = keys();
    k.left = true;
    k.right = true;
    k.forward = true;
    assert_eq!(direction(&k), (0, FP_ONE));
}

#[test]
fn holding_right_three_ticks() {
    let mut c = Camera::new();
    let mut k = keys();
    k.right = true;

    c.fixed_tick(&k);
    assert_eq!(c.movement.plane_speed, PlaneVec { x: FP_ONE, y: 0, z: 0 });
    let x1 = c.translation.x;
    assert_eq!(x1, FP_ONE);

    c.fixed_tick(&k);
    let x2 = c.translation.x;
    c.fixed_tick(&k);
    let x3 = c.translation.x;

    assert!(x1 < x2 && x2 < x3);
    assert!(c.movement.plane_speed.x <= CAMERA_MOVE_SPEED);
    assert_eq!(x2, 3 * FP_ONE);
    assert_eq!(x3, 6 * FP_ONE);
}

#[test]
fn plane_speed_saturates_at_clamp() {
    let mut c = Camera::new();
    let mut k = keys();
    k.right = true;
    for _ in 0..40 {
        c.fixed_tick(&k);
        assert!(c.movement.plane_speed.x <= CAMERA_MOVE_SPEED);
    }
    assert_eq!(c.movement.plane_speed.x, CAMERA_MOVE_SPEED);
}

#[test]
fn bounds_hold_over_mixed_sequence() {
    let mut c = Camera::new();
    for i in 0..200u32 {
        let mut k = keys();
        k.right = i % 3 != 0;
        k.left = i % 7 == 0;
        k.forward = i % 2 == 0;
        k.backward = i % 5 == 0;
        k.zoom_out = i % 4 != 1;
        k.zoom_in = i % 11 == 0;
        k.reset = i % 31 == 0;
        c.fixed_tick(&k);
        assert!(-CAMERA_MOVE_SPEED <= c.movement.plane_speed.x);
        assert!(c.movement.plane_speed.x <= CAMERA_MOVE_SPEED);
        assert!(-CAMERA_MOVE_SPEED <= c.movement.plane_speed.y);
        assert!(c.movement.plane_speed.y <= CAMERA_MOVE_SPEED);
        assert!(-CAMERA_MOVE_SPEED <= c.movement.plane_speed.z);
        assert!(c.movement.plane_speed.z <= CAMERA_MOVE_SPEED);
        assert!(-CAMERA_ZOOM_SPEED <= c.movement.zoom_speed);
        assert!(c.movement.zoom_speed <= CAMERA_ZOOM_SPEED);
        assert!(SCALE_MIN <= c.scale && c.scale <= SCALE_MAX);
    }
}

#[test]
fn run_ticks_matches_repeated_single_ticks() {
    let mut inputs = Vec::new();
    for i in 0..20u32 {
        let mut k = keys();
        k.right = i % 2 == 0;
        k.forward = i % 3 == 0;
        k.zoom_out = true;
        k.reset = i == 10;
        inputs.push(k);
    }
    let mut a = Camera::new();
    let mut b = Camera::new();
    a.run_ticks(&inputs);
    for k in &inputs {
        b.fixed_tick(k);
    }
    assert_eq!(a, b);
}

#[test]
fn reset_zeroes_speeds_even_with_keys_held() {
    let mut c = Camera::new();
    let mut k = keys();
    k.right = true;
    k.forward = true;
    k.zoom_out = true;
    for _ in 0..5 {
        c.fixed_tick(&k);
    }
    assert!(c.movement.plane_speed.x > 0);
    assert!(c.movement.zoom_speed > 0);

    k.reset = true;
    let scale_before = c.scale;
    let pos_before = c.translation;
    c.fixed_tick(&k);
    assert_eq!(c.movement.plane_speed, PlaneVec { x: 0, y: 0, z: 0 });
    assert_eq!(c.movement.zoom_speed, 0);
    // Zero speeds mean the position and scale are carried over unchanged.
    assert_eq!(c.translation, pos_before);
    assert_eq!(c.scale, scale_before);
}

#[test]
fn zoom_out_one_tick_from_minimum() {
    let mut c = Camera::new();
    assert_eq!(c.scale, SCALE_MIN);
    let mut k = keys();
    k.zoom_out = true;
    c.fixed_tick(&k);
    assert_eq!(c.scale, SCALE_MIN + ZOOM_STEP);
    assert_eq!(c.movement.zoom_speed, ZOOM_STEP);
}

#[test]
fn reaching_max_scale_zeroes_zoom_speed() {
    let mut c = Camera {
        translation: PlaneVec { x: 0, y: 0, z: 0 },
        scale: SCALE_MAX - ZOOM_STEP / 2,
        movement: Movement { plane_speed: PlaneVec { x: 0, y: 0, z: 0 }, zoom_speed: 0 },
    };
    let mut k = keys();
    k.zoom_out = true;
    c.fixed_tick(&k);
    assert_eq!(c.scale, SCALE_MAX);
    // The key is still held, yet the boundary forces the speed to zero.
    assert_eq!(c.movement.zoom_speed, 0);
}

#[test]
fn at_min_scale_zoom_in_keeps_speed_zero() {
    let mut c = Camera::new();
    let mut k = keys();
    k.zoom_in = true;
    c.fixed_tick(&k);
    assert_eq!(c.scale, SCALE_MIN);
    assert_eq!(c.movement.zoom_speed, 0);
}

#[test]
fn opposing_zoom_keys_cancel() {
    let mut c = Camera::new();
    let mut k = keys();
    k.zoom_in = true;
    k.zoom_out = true;
    c.fixed_tick(&k);
    assert_eq!(c.scale, SCALE_MIN);
    assert_eq!(c.movement.zoom_speed, 0);
}

#[test]
fn scale_never_exceeds_bounds_when_zooming_out() {
    let mut c = Camera::new();
    let mut k = keys();
    k.zoom_out = true;
    for _ in 0..2000 {
        c.fixed_tick(&k);
        assert!(SCALE_MIN <= c.scale && c.scale <= SCALE_MAX);
    }
    assert_eq!(c.scale, SCALE_MAX);
    assert_eq!(c.movement.zoom_speed, 0);
}

#[test]
fn clamp_formula_exact() {
    assert_eq!(clamp_i64(20, 0, 10), 10);
    assert_eq!(clamp_i64(-20, 0, 10), 0);
    assert_eq!(clamp_i64(7, 0, 10), 7);
    assert_eq!(clamp_i64(-3, -3, 10), -3);
}

#[test]
fn sat_add_saturates_at_machine_bounds() {
    assert_eq!(sat_add_i64(i64::MAX - 5, 100), i64::MAX);
    assert_eq!(sat_add_i64(i64::MIN + 5, -100), i64::MIN);
    assert_eq!(sat_add_i64(40, 2), 42);
}

#[test]
fn translation_saturates_instead_of_wrapping() {
    let mut c = Camera {
        translation: PlaneVec { x: i64::MAX - 100, y: 0, z: 0 },
        scale: SCALE_MIN,
        movement: Movement {
            plane_speed: PlaneVec { x: CAMERA_MOVE_SPEED, y: 0, z: 0 },
            zoom_speed: 0,
        },
    };
    let mut k = keys();
    k.right = true;
    c.camera_move(&k);
    assert_eq!(c.translation.x, i64::MAX);
    assert_eq!(c.movement.plane_speed.x, CAMERA_MOVE_SPEED);
}

#[test]
fn controllers_commute_within_a_tick() {
    let mut k = keys();
    k.right = true;
    k.forward = true;
    k.zoom_out = true;

    let mut move_first = Camera::new();
    let mut zoom_first = Camera::new();
    for _ in 0..10 {
        move_first.camera_move(&k);
        move_first.camera_zoom(&k);
        zoom_first.camera_zoom(&k);
        zoom_first.camera_move(&k);
    }
    assert_eq!(move_first, zoom_first);
}

#[test]
fn camera_move_leaves_zoom_untouched() {
    let mut c = Camera::new();
    let mut k = keys();
    k.zoom_out = true;
    c.camera_zoom(&k);
    let zoom = c.movement.zoom_speed;
    let scale = c.scale;
    let mut k2 = keys();
    k2.right = true;
    c.camera_move(&k2);
    assert_eq!(c.movement.zoom_speed, zoom);
    assert_eq!(c.scale, scale);
}
