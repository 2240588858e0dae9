//! The intercept search: scan a predicted ball trajectory for the earliest
//! frame that passes a height/vertical-speed test and that the 1-D car model
//! can reach in time along a straight line.

use vstd::prelude::*;

use crate::ball::{ball_after, BallState, PredictedFrame, DT_MS, HORIZON_STEPS};
use crate::drive::{car_after, Car1D};
use crate::geom::{
    abs_spec, clamp_i64, clamp_spec, is_isqrt, isqrt, muldiv, muldiv_spec, vec2_bounded,
    vec3_bounded, Vec2, Vec3, COORD_MAX,
};

verus! {

/// Car and ball meshes touch at about this center distance, in milli-units.
pub const RADII_MILLI: i64 = 240_000;

/// The most frames one search will scan.
pub const SEARCH_MAX_FRAMES: usize = 2000;

/// The feasibility test a predicted frame must pass before the car commits
/// to chasing it: the ball low enough, and not rising too steeply.
#[derive(Clone, Copy, Debug, PartialEq, Eq, Structural)]
pub struct FramePredicate {
    pub max_z: i64,
    pub max_vz: i64,
}

/// Whether a predicted frame passes the test.
pub open spec fn pred_holds(p: FramePredicate, f: PredictedFrame) -> bool {
    f.loc.z < p.max_z && f.vel.z < p.max_vz
}

/// Executable twin of `pred_holds`.
pub fn eval_pred(p: FramePredicate, f: &PredictedFrame) -> (r: bool)
    ensures
        r == pred_holds(p, *f),
{
    f.loc.z < p.max_z && f.vel.z < p.max_vz
}

/// The squared planar distance between two points.
pub open spec fn dist_sq_2d(a: Vec2, b: Vec2) -> int {
    (a.x - b.x) * (a.x - b.x) + (a.y - b.y) * (a.y - b.y)
}

/// The squared spatial distance between two points.
pub open spec fn dist_sq_3d(a: Vec3, b: Vec3) -> int {
    (a.x - b.x) * (a.x - b.x) + (a.y - b.y) * (a.y - b.y) + (a.z - b.z) * (a.z - b.z)
}

/// The planar projection of a spatial point.
pub open spec fn flat(v: Vec3) -> Vec2 {
    Vec2 { x: v.x, y: v.y }
}

/// The 1-D car model started for a chase: speed and boost as observed, no
/// distance covered yet.
pub open spec fn fresh_car(speed: int, boost: int) -> Car1D {
    Car1D {
        speed: clamp_spec(speed, 0, crate::drive::CAR_MAX_SPEED as int) as i64,
        boost: clamp_spec(boost, 0, crate::drive::BOOST_FULL as int) as i64,
        distance: 0,
        time_ms: 0,
    }
}

/// Whether the car, starting at `start` with the given speed and boost, can
/// meet frame `k` of the prediction: the frame passes the test, and the 1-D
/// model at full throttle with boost covers the straight-line distance by
/// then (compared on squares, both sides being non-negative).
pub open spec fn intercept_feasible(
    start: Vec2,
    speed: int,
    boost: int,
    p: FramePredicate,
    f: PredictedFrame,
    k: int,
) -> bool {
    let reach = car_after(fresh_car(speed, boost), 1000, true, (k + 1) as nat).distance
        + RADII_MILLI;
    pred_holds(p, f) && reach * reach >= dist_sq_2d(start, flat(f.loc))
}

/// The earliest reachable frame of a prediction, with everything a planner
/// needs to aim at it.
#[derive(Clone, Copy, Debug, PartialEq, Eq, Structural)]
pub struct NaiveIntercept {
    pub idx: usize,
    pub time_ms: i64,
    pub ball_loc: Vec3,
    pub ball_vel: Vec3,
    pub car_loc: Vec2,
    pub car_speed: i64,
}

/// How the aim point relates to the rest of a candidate: it sits `RADII_MILLI`
/// short of the ball along the line from the car, clamped into the arena.
pub open spec fn aim_point_of(start: Vec2, ball: Vec2, d: int, c: Vec2) -> bool {
    let dd = if d == 0 {
        1int
    } else {
        d
    };
    &&& c.x == clamp_spec(
        ball.x - muldiv_spec(ball.x - start.x, RADII_MILLI as int, dd),
        -COORD_MAX as int,
        COORD_MAX as int,
    )
    &&& c.y == clamp_spec(
        ball.y - muldiv_spec(ball.y - start.y, RADII_MILLI as int, dd),
        -COORD_MAX as int,
        COORD_MAX as int,
    )
}

/// Everything `naive_ground_intercept` promises of a returned candidate.
pub open spec fn candidate_of(
    frames: Seq<PredictedFrame>,
    start: Vec2,
    speed: int,
    boost: int,
    p: FramePredicate,
    c: NaiveIntercept,
) -> bool {
    &&& 0 <= c.idx < frames.len()
    &&& intercept_feasible(start, speed, boost, p, frames[c.idx as int], c.idx as int)
    &&& forall|j: int|
        0 <= j < c.idx ==> !intercept_feasible(start, speed, boost, p, #[trigger] frames[j], j)
    &&& c.time_ms == frames[c.idx as int].t_ms
    &&& c.ball_loc == frames[c.idx as int].loc
    &&& c.ball_vel == frames[c.idx as int].vel
    &&& c.car_speed == car_after(fresh_car(speed, boost), 1000, true, (c.idx + 1) as nat).speed
    &&& exists|d: int|
        #[trigger] is_isqrt(dist_sq_2d(start, flat(frames[c.idx as int].loc)), d) && aim_point_of(
            start,
            flat(frames[c.idx as int].loc),
            d,
            c.car_loc,
        )
    &&& vec2_bounded(c.car_loc)
    &&& abs_spec(c.car_loc.x as int) <= abs_spec(c.ball_loc.x as int) + RADII_MILLI
    &&& abs_spec(c.car_loc.y as int) <= abs_spec(c.ball_loc.y as int) + RADII_MILLI
}

/// Search the prediction for the earliest frame that passes the test and
/// that the car can reach in time. Absence of such a frame is a normal
/// outcome, not an error.
pub fn naive_ground_intercept(
    frames: &Vec<PredictedFrame>,
    start_loc: Vec2,
    speed: i64,
    boost: i64,
    p: FramePredicate,
) -> (r: Option<NaiveIntercept>)
    requires
        frames@.len() <= SEARCH_MAX_FRAMES,
        vec2_bounded(start_loc),
        forall|i: int| 0 <= i < frames@.len() ==> vec3_bounded(#[trigger] frames@[i].loc),
    ensures
        match r {
            Some(c) => candidate_of(frames@, start_loc, speed as int, boost as int, p, c),
            None => forall|j: int|
                0 <= j < frames@.len() ==> !intercept_feasible(
                    start_loc,
                    speed as int,
                    boost as int,
                    p,
                    #[trigger] frames@[j],
                    j,
                ),
        },
{
    let ghost car0 = fresh_car(speed as int, boost as int);
    let mut car = Car1D::new(speed, boost);
    let mut i: usize = 0;
    let n = frames.len();
    while i < n
        invariant
            0 <= i <= n,
            n == frames@.len(),
            n <= SEARCH_MAX_FRAMES,
            vec2_bounded(start_loc),
            forall|k: int| 0 <= k < frames@.len() ==> vec3_bounded(#[trigger] frames@[k].loc),
            car0 == fresh_car(speed as int, boost as int),
            car == car_after(car0, 1000, true, i as nat),
            crate::drive::car_ok(car),
            car.time_ms == i * DT_MS,
            forall|j: int|
                0 <= j < i ==> !intercept_feasible(
                    start_loc,
                    speed as int,
                    boost as int,
                    p,
                    #[trigger] frames@[j],
                    j,
                ),
        decreases n - i,
    {
        car.step(1000, true);
        proof {
            assert(car_after(car0, 1000, true, (i + 1) as nat) == crate::drive::step_car_spec(
                car_after(car0, 1000, true, i as nat),
                1000,
                true,
            ));
        }
        let f = frames[i];
        let passes = eval_pred(p, &f);
        let dx: i64 = start_loc.x - f.loc.x;
        let dy: i64 = start_loc.y - f.loc.y;
        proof {
            assert(0 <= (dx as int) * (dx as int) <= 40_000_000_000_000_000int && 0 <= (dy
                as int) * (dy as int) <= 40_000_000_000_000_000int) by (nonlinear_arith)
                requires
                    -200_000_000 <= dx <= 200_000_000,
                    -200_000_000 <= dy <= 200_000_000,
            ;
        }
        let d2: i64 = dx * dx + dy * dy;
        let reach: i64 = car.distance + RADII_MILLI;
        proof {
            assert(0 <= (reach as int) * (reach as int) <= 5_600_000_000_000_000int)
                by (nonlinear_arith)
                requires
                    0 <= reach <= 74_000_000,
            ;
        }
        if passes && reach * reach >= d2 {
            let d = isqrt(d2);
            let dd: i64 = if d == 0 {
                1
            } else {
                d
            };
            proof {
                assert((dx as int) * (dx as int) <= d2 && (dy as int) * (dy as int) <= d2)
                    by (nonlinear_arith)
                    requires
                        d2 == (dx as int) * (dx as int) + (dy as int) * (dy as int),
                ;
                assert(abs_spec(dx as int) <= dd && abs_spec(dy as int) <= dd)
                    by (nonlinear_arith)
                    requires
                        (dx as int) * (dx as int) <= d2,
                        (dy as int) * (dy as int) <= d2,
                        is_isqrt(d2 as int, d as int),
                        dd == if d == 0 { 1int } else { d as int },
                ;
            }
            let cx = clamp_i64(f.loc.x - muldiv(f.loc.x - start_loc.x, RADII_MILLI, dd),
                -COORD_MAX, COORD_MAX);
            let cy = clamp_i64(f.loc.y - muldiv(f.loc.y - start_loc.y, RADII_MILLI, dd),
                -COORD_MAX, COORD_MAX);
            let c = NaiveIntercept {
                idx: i,
                time_ms: f.t_ms,
                ball_loc: f.loc,
                ball_vel: f.vel,
                car_loc: Vec2 { x: cx, y: cy },
                car_speed: car.speed,
            };
            proof {
                assert(f == frames@[c.idx as int]);
                assert(is_isqrt(dist_sq_2d(start_loc, flat(frames@[c.idx as int].loc)), d as int));
                assert(aim_point_of(start_loc, flat(frames@[c.idx as int].loc), d as int, c.car_loc));
                assert(exists|w: int|
                    #[trigger] is_isqrt(dist_sq_2d(start_loc, flat(frames@[c.idx as int].loc)), w)
                        && aim_point_of(start_loc, flat(frames@[c.idx as int].loc), w, c.car_loc));
                assert(candidate_of(frames@, start_loc, speed as int, boost as int, p, c));
            }
            return Some(c);
        }
        i = i + 1;
    }
    None
}

/// The height above which the estimator gives up on a frame, in milli-units.
pub const ESTIMATE_MAX_BALL_Z: i64 = 100_000;

/// A rough car-ball meeting estimate: when, where the ball is, and where the
/// car's center should be.
#[derive(Clone, Copy, Debug, PartialEq, Eq, Structural)]
pub struct InterceptResult {
    pub time_ms: i64,
    pub ball_loc: Vec3,
    pub car_loc: Vec3,
}

/// Whether, `k + 1` steps from now, the ball is low enough and the car model
/// on plain throttle has covered the straight-line distance to it.
pub open spec fn chase_hit(car_loc: Vec3, speed: int, ball: BallState, k: int) -> bool {
    let bk = ball_after(ball, (k + 1) as nat);
    let ck = car_after(fresh_car(speed, 0), 1000, false, (k + 1) as nat);
    let reach = ck.distance + RADII_MILLI;
    bk.loc.z <= ESTIMATE_MAX_BALL_Z && reach * reach >= dist_sq_3d(bk.loc, car_loc)
}

/// How the estimator's meeting point relates to the ball and the car: it
/// sits `RADII_MILLI` short of the ball along the line from the car, clamped
/// into the arena.
pub open spec fn meet_point_of(car: Vec3, ball: Vec3, d: int, c: Vec3) -> bool {
    let dd = if d == 0 {
        1int
    } else {
        d
    };
    &&& c.x == clamp_spec(
        ball.x - muldiv_spec(ball.x - car.x, RADII_MILLI as int, dd),
        -COORD_MAX as int,
        COORD_MAX as int,
    )
    &&& c.y == clamp_spec(
        ball.y - muldiv_spec(ball.y - car.y, RADII_MILLI as int, dd),
        -COORD_MAX as int,
        COORD_MAX as int,
    )
    &&& c.z == clamp_spec(
        ball.z - muldiv_spec(ball.z - car.z, RADII_MILLI as int, dd),
        -COORD_MAX as int,
        COORD_MAX as int,
    )
}

/// Everything `estimate_intercept_car_ball` promises of its result at step
/// index `k`.
pub open spec fn estimate_of(
    car_loc: Vec3,
    ball: BallState,
    k: int,
    r: InterceptResult,
) -> bool {
    let bk = ball_after(ball, (k + 1) as nat);
    &&& r.time_ms == (k + 1) * DT_MS
    &&& r.ball_loc == bk.loc
    &&& exists|d: int|
        #[trigger] is_isqrt(dist_sq_3d(bk.loc, car_loc), d) && meet_point_of(
            car_loc,
            bk.loc,
            d,
            r.car_loc,
        )
    &&& vec3_bounded(r.car_loc)
}

/// Estimate when and where the car could first meet the ball: both models
/// are stepped together until the ball is low and the car has covered the
/// distance, or the horizon runs out (in which case the last frame is
/// reported).
pub fn estimate_intercept_car_ball(car_loc: Vec3, car_speed: i64, ball: &BallState) -> (r:
    InterceptResult)
    requires
        vec3_bounded(car_loc),
        crate::ball::ball_ok(*ball),
    ensures
        (exists|k: int| 0 <= k < HORIZON_STEPS && chase_hit(car_loc, car_speed as int, *ball, k))
            ==> exists|k: int|
            {
                &&& 0 <= k < HORIZON_STEPS
                &&& #[trigger] chase_hit(car_loc, car_speed as int, *ball, k)
                &&& forall|j: int| 0 <= j < k ==> !chase_hit(car_loc, car_speed as int, *ball, j)
                &&& estimate_of(car_loc, *ball, k, r)
            },
        !(exists|k: int| 0 <= k < HORIZON_STEPS && chase_hit(car_loc, car_speed as int, *ball, k))
            ==> estimate_of(car_loc, *ball, HORIZON_STEPS - 1, r),
{
    let ghost car0 = fresh_car(car_speed as int, 0);
    let mut cur: BallState = *ball;
    let mut car = Car1D::new(car_speed, 0);
    let mut k: usize = 0;
    let mut found = false;
    while k < HORIZON_STEPS && !found
        invariant
            0 <= k <= HORIZON_STEPS,
            crate::ball::ball_ok(*ball),
            crate::ball::ball_ok(cur),
            crate::drive::car_ok(car),
            vec3_bounded(car_loc),
            car0 == fresh_car(car_speed as int, 0),
            cur == ball_after(*ball, k as nat),
            car == car_after(car0, 1000, false, k as nat),
            car.time_ms == k * DT_MS,
            !found ==> forall|j: int|
                0 <= j < k ==> !chase_hit(car_loc, car_speed as int, *ball, j),
            found ==> {
                &&& k >= 1
                &&& chase_hit(car_loc, car_speed as int, *ball, k - 1)
                &&& forall|j: int|
                    0 <= j < k - 1 ==> !chase_hit(car_loc, car_speed as int, *ball, j)
            },
        decreases HORIZON_STEPS - k,
    {
        let next = crate::ball::step_ball(&cur);
        car.step(1000, false);
        proof {
            assert(ball_after(*ball, (k + 1) as nat) == crate::ball::step_ball_spec(
                ball_after(*ball, k as nat),
            ));
            assert(car_after(car0, 1000, false, (k + 1) as nat) == crate::drive::step_car_spec(
                car_after(car0, 1000, false, k as nat),
                1000,
                false,
            ));
        }
        cur = next;
        k = k + 1;
        if cur.loc.z <= ESTIMATE_MAX_BALL_Z {
            let dx: i64 = cur.loc.x - car_loc.x;
            let dy: i64 = cur.loc.y - car_loc.y;
            let dz: i64 = cur.loc.z - car_loc.z;
            proof {
                assert(0 <= (dx as int) * (dx as int) <= 40_000_000_000_000_000int && 0 <= (dy
                    as int) * (dy as int) <= 40_000_000_000_000_000int && 0 <= (dz as int) * (dz
                    as int) <= 40_000_000_000_000_000int) by (nonlinear_arith)
                    requires
                        -200_000_000 <= dx <= 200_000_000,
                        -200_000_000 <= dy <= 200_000_000,
                        -200_000_000 <= dz <= 200_000_000,
                ;
            }
            let d2: i64 = dx * dx + dy * dy + dz * dz;
            let reach: i64 = car.distance + RADII_MILLI;
            proof {
                assert(0 <= (reach as int) * (reach as int) <= 5_600_000_000_000_000int)
                    by (nonlinear_arith)
                    requires
                        0 <= reach <= 74_000_000,
                ;
            }
            if reach * reach >= d2 {
                found = true;
            }
        }
    }
    let dx: i64 = cur.loc.x - car_loc.x;
    let dy: i64 = cur.loc.y - car_loc.y;
    let dz: i64 = cur.loc.z - car_loc.z;
    proof {
        assert(0 <= (dx as int) * (dx as int) <= 40_000_000_000_000_000int && 0 <= (dy as int)
            * (dy as int) <= 40_000_000_000_000_000int && 0 <= (dz as int) * (dz as int)
            <= 40_000_000_000_000_000int) by (nonlinear_arith)
            requires
                -200_000_000 <= dx <= 200_000_000,
                -200_000_000 <= dy <= 200_000_000,
                -200_000_000 <= dz <= 200_000_000,
        ;
    }
    let d2: i64 = dx * dx + dy * dy + dz * dz;
    let d = isqrt(d2);
    let dd: i64 = if d == 0 {
        1
    } else {
        d
    };
    proof {
        assert((dx as int) * (dx as int) <= d2 && (dy as int) * (dy as int) <= d2 && (dz as int)
            * (dz as int) <= d2) by (nonlinear_arith)
            requires
                d2 == (dx as int) * (dx as int) + (dy as int) * (dy as int) + (dz as int) * (dz
                    as int),
        ;
        assert(abs_spec(dx as int) <= dd && abs_spec(dy as int) <= dd && abs_spec(dz as int)
            <= dd) by (nonlinear_arith)
            requires
                (dx as int) * (dx as int) <= d2,
                (dy as int) * (dy as int) <= d2,
                (dz as int) * (dz as int) <= d2,
                is_isqrt(d2 as int, d as int),
                dd == if d == 0 { 1int } else { d as int },
        ;
    }
    let cx = clamp_i64(cur.loc.x - muldiv(cur.loc.x - car_loc.x, RADII_MILLI, dd), -COORD_MAX,
        COORD_MAX);
    let cy = clamp_i64(cur.loc.y - muldiv(cur.loc.y - car_loc.y, RADII_MILLI, dd), -COORD_MAX,
        COORD_MAX);
    let cz = clamp_i64(cur.loc.z - muldiv(cur.loc.z - car_loc.z, RADII_MILLI, dd), -COORD_MAX,
        COORD_MAX);
    let t: i64 = (k as i64) * DT_MS;
    let r = InterceptResult {
        time_ms: t,
        ball_loc: cur.loc,
        car_loc: Vec3 { x: cx, y: cy, z: cz },
    };
    proof {
        let ghost ki: int = if found {
            k - 1
        } else {
            HORIZON_STEPS - 1
        };
        assert(cur == ball_after(*ball, (ki + 1) as nat));
        assert(is_isqrt(dist_sq_3d(ball_after(*ball, (ki + 1) as nat).loc, car_loc), d as int));
        assert(meet_point_of(car_loc, ball_after(*ball, (ki + 1) as nat).loc, d as int, r.car_loc));
        assert(exists|w: int|
            #[trigger] is_isqrt(dist_sq_3d(ball_after(*ball, (ki + 1) as nat).loc, car_loc), w)
                && meet_point_of(car_loc, ball_after(*ball, (ki + 1) as nat).loc, w, r.car_loc));
        assert(estimate_of(car_loc, *ball, ki, r));
        if found {
            assert(0 <= ki < HORIZON_STEPS && chase_hit(car_loc, car_speed as int, *ball, ki));
        }
    }
    r
}

/// Intercept feasibility: a returned candidate names a frame on which the
/// feasibility test holds and which the 1-D car model reaches in time —
/// the straight-line distance, compared on squares, is within the model's
/// reach by the frame's time.
pub proof fn lemma_candidate_feasible(
    frames: Seq<PredictedFrame>,
    start: Vec2,
    speed: int,
    boost: int,
    p: FramePredicate,
    c: NaiveIntercept,
)
    requires
        candidate_of(frames, start, speed, boost, p, c),
    ensures
        pred_holds(p, frames[c.idx as int]),
        (car_after(fresh_car(speed, boost), 1000, true, (c.idx + 1) as nat).distance
            + RADII_MILLI) * (car_after(fresh_car(speed, boost), 1000, true, (c.idx + 1) as nat).distance
            + RADII_MILLI) >= dist_sq_2d(start, flat(frames[c.idx as int].loc)),
        forall|j: int|
            0 <= j < c.idx ==> !intercept_feasible(start, speed, boost, p, #[trigger] frames[j], j),
{
}

} // verus!
