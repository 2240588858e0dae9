//! Tests for the fixed-point geometry, the ball predictor, the 1-D car
//! model and the intercept search.

use brain::ball::{predict, step_ball, BallState, DT_MS, HORIZON_STEPS};
use brain::drive::Car1D;
use brain::geom::{
    abs_i64, atan2_micro, clamp_i64, cos_micro, dist, div_zero, isqrt, muldiv, norm,
    normalize_angle, rotate, sin_micro, Vec2, Vec3, HALF_PI_URAD, PI_URAD, RAD, TWO_PI_URAD,
};
use brain::intercept::{
    estimate_intercept_car_ball, naive_ground_intercept, FramePredicate, RADII_MILLI,
};

fn ball(loc: (i64, i64, i64), vel: (i64, i64, i64)) -> BallState {
    BallState {
        loc: Vec3 { x: loc.0, y: loc.1, z: loc.2 },
        vel: Vec3 { x: vel.0, y: vel.1, z: vel.2 },
    }
}

#[test]
fn isqrt_exact_values() {
    assert_eq!(isqrt(0), 0);
    assert_eq!(isqrt(1), 1);
    assert_eq!(isqrt(10), 3);
    assert_eq!(isqrt(99), 9);
    assert_eq!(isqrt(100), 10);
    assert_eq!(isqrt(10_000_000_000_000_000), 100_000_000);
}

#[test]
fn sine_and_cosine_exact_values() {
    assert_eq!(sin_micro(0), 0);
    assert_eq!(sin_micro(HALF_PI_URAD), RAD);
    assert_eq!(sin_micro(-HALF_PI_URAD), -RAD);
    // Bhaskara's approximation is exact at thirty degrees.
    assert_eq!(sin_micro(523_599), 500_000);
    assert_eq!(cos_micro(0), RAD);
    assert_eq!(cos_micro(PI_URAD), -RAD);
    assert_eq!(cos_micro(HALF_PI_URAD), 0);
}

#[test]
fn atan2_exact_values() {
    assert_eq!(atan2_micro(0, 0), 0);
    assert_eq!(atan2_micro(1, 1), 785_398);
    assert_eq!(atan2_micro(1, 0), HALF_PI_URAD);
    assert_eq!(atan2_micro(0, -1), PI_URAD);
    assert_eq!(atan2_micro(-5, 5), -785_398);
    assert_eq!(atan2_micro(1_000_000, 0), HALF_PI_URAD);
}

#[test]
fn normalize_angle_wraps_into_half_open_range() {
    assert_eq!(normalize_angle(0), 0);
    assert_eq!(normalize_angle(PI_URAD), PI_URAD);
    assert_eq!(normalize_angle(-PI_URAD), PI_URAD);
    assert_eq!(normalize_angle(PI_URAD + 1), 1 - PI_URAD);
    assert_eq!(normalize_angle(TWO_PI_URAD + 7), 7);
    assert_eq!(normalize_angle(-TWO_PI_URAD - 7), -7);
}

#[test]
fn integer_division_helpers_round_toward_zero() {
    assert_eq!(div_zero(7, 2), 3);
    assert_eq!(div_zero(-7, 2), -3);
    assert_eq!(muldiv(3, 7, 2), 10);
    assert_eq!(muldiv(-3, 7, 2), -10);
    assert_eq!(muldiv(3, -7, 2), -10);
    assert_eq!(muldiv(-3, -7, 2), 10);
    assert_eq!(clamp_i64(5, -3, 3), 3);
    assert_eq!(clamp_i64(-5, -3, 3), -3);
    assert_eq!(abs_i64(-12), 12);
}

#[test]
fn rotate_quarter_turn() {
    let v = Vec2 { x: 1000, y: 0 };
    let r = rotate(v, HALF_PI_URAD);
    assert_eq!(r, Vec2 { x: 0, y: 1000 });
    let back = rotate(r, -HALF_PI_URAD);
    assert_eq!(back, Vec2 { x: 1000, y: 0 });
}

#[test]
fn norm_and_dist() {
    assert_eq!(norm(Vec2 { x: 3000, y: 4000 }), 5000);
    assert_eq!(dist(Vec2 { x: 0, y: 0 }, Vec2 { x: 0, y: 123 }), 123);
}

#[test]
fn prediction_has_fixed_horizon_and_timeline() {
    let b = ball((0, 0, 1_000_000), (500_000, 0, 0));
    let frames = predict(&b);
    assert_eq!(frames.len(), HORIZON_STEPS);
    for (i, f) in frames.iter().enumerate() {
        assert_eq!(f.t_ms, (i as i64 + 1) * DT_MS);
    }
    // The first frame is exactly one step of the model.
    let one = step_ball(&b);
    assert_eq!(frames[0].loc, one.loc);
    assert_eq!(frames[0].vel, one.vel);
}

#[test]
fn prediction_is_deterministic() {
    let b = ball((2_000_000, -1_000_000, 1_100_000), (300_000, -200_000, -500_000));
    let f1 = predict(&b);
    let f2 = predict(&b);
    assert_eq!(f1.len(), f2.len());
    for i in 0..f1.len() {
        assert_eq!(f1[i], f2[i]);
    }
}

#[test]
fn ball_bounces_off_the_ground() {
    // A ball resting on the ground jitters against gravity but never sinks
    // below its radius.
    let mut b = ball((0, 0, 92_750), (0, 0, 0));
    for _ in 0..100 {
        b = step_ball(&b);
        assert!(b.loc.z >= 92_750);
    }
}

#[test]
fn car_accelerates_and_caps_at_top_speed() {
    let mut car = Car1D::new(0, 0);
    for _ in 0..1000 {
        car.step(1000, false);
    }
    assert_eq!(car.speed, 1_410_000);
    let mut boosted = Car1D::new(0, 100_000);
    for _ in 0..1000 {
        boosted.step(1000, true);
    }
    assert_eq!(boosted.speed, 2_300_000);
    assert!(boosted.distance > car.distance);
}

#[test]
fn car_burns_boost_while_boosting() {
    let mut car = Car1D::new(0, 1000);
    car.step(1000, true);
    assert_eq!(car.boost, 1000 - 533);
    car.step(1000, true);
    assert_eq!(car.boost, 0);
    car.step(1000, true);
    assert_eq!(car.boost, 0);
}

#[test]
fn ground_intercept_found_on_descending_ball() {
    // The agent rests at the origin; the ball descends toward the ground
    // two thousand units away, its height first passing the threshold at
    // about one point two seconds.
    let b = ball((2_000_000, 0, 1_100_000), (0, 0, -500_000));
    let frames = predict(&b);
    let pred = FramePredicate { max_z: 220_000, max_vz: 25_000 };
    let c = naive_ground_intercept(&frames, Vec2 { x: 0, y: 0 }, 0, 100_000, pred)
        .expect("intercept expected");
    assert!(0 < c.time_ms && c.time_ms <= 1200 + 100);
    assert_eq!(c.time_ms, 1216);
    assert_eq!(c.idx, 75);
    // The candidate reports exactly the predicted frame it matched.
    assert_eq!(c.ball_loc, frames[c.idx].loc);
    assert_eq!(c.ball_vel, frames[c.idx].vel);
    assert_eq!(c.ball_loc, Vec3 { x: 2_000_000, y: 0, z: 104_988 });
    // The frame passes the feasibility test.
    assert!(c.ball_loc.z < 220_000 && c.ball_vel.z < 25_000);
    // The aim point sits the touching distance short of the ball.
    assert_eq!(c.car_loc, Vec2 { x: 2_000_000 - RADII_MILLI, y: 0 });
    assert_eq!(c.car_speed, 2_300_000);
}

#[test]
fn ground_intercept_absent_when_ball_unreachable() {
    // A ball in the far corner is beyond everything the car model can cover
    // within the horizon.
    let b = ball((4_000_000, 5_000_000, 93_000), (0, 0, 0));
    let frames = predict(&b);
    let pred = FramePredicate { max_z: 220_000, max_vz: 25_000 };
    let r = naive_ground_intercept(
        &frames,
        Vec2 { x: -3_500_000, y: -5_000_000 },
        0,
        0,
        pred,
    );
    assert!(r.is_none());
}

#[test]
fn ground_intercept_absent_on_empty_prediction() {
    let frames = Vec::new();
    let pred = FramePredicate { max_z: 220_000, max_vz: 25_000 };
    let r = naive_ground_intercept(&frames, Vec2 { x: 0, y: 0 }, 0, 0, pred);
    assert!(r.is_none());
}

#[test]
fn estimate_intercept_on_resting_ball() {
    // A resting ball half a thousand units ahead: the throttle-only model
    // reaches it in a bit over half a second.
    let b = ball((500_000, 0, 92_750), (0, 0, 0));
    let r = estimate_intercept_car_ball(Vec3 { x: 0, y: 0, z: 17_010 }, 0, &b);
    assert_eq!(r.time_ms, 576);
    assert_eq!(r.ball_loc, Vec3 { x: 500_000, y: 0, z: 92_750 });
    assert_eq!(r.car_loc, Vec3 { x: 262_708, y: 0, z: 56_805 });
}

#[test]
fn estimate_intercept_runs_out_the_horizon_when_ball_is_unreachable() {
    // A ball resting in the far corner is beyond what throttle alone covers
    // within the horizon, so the estimator reports the last frame.
    let b = ball((4_000_000, 5_000_000, 93_000), (0, 0, 0));
    let r = estimate_intercept_car_ball(Vec3 { x: -3_500_000, y: -5_000_000, z: 17_010 }, 0, &b);
    assert_eq!(r.time_ms, HORIZON_STEPS as i64 * DT_MS);
}
