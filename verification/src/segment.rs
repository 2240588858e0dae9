//! Trajectory segments: a closed description of one leg of a ground route
//! (a circular turn or a straight drive), each with exact start and end
//! states, plus the runners that turn a committed segment into one control
//! command per tick.

use vstd::prelude::*;

use crate::drive::{BOOST_FULL, CAR_MAX_SPEED};
use crate::geom::{
    abs_i64, abs_spec, angle_normalized, atan2_micro, atan2_spec, clamp_i64, clamp_spec, div_zero,
    div_zero_spec, is_isqrt, isqrt, muldiv, muldiv_spec, norm_angle_spec, normalize_angle, rotate,
    rotate_x_spec, rotate_y_spec, vec2_bounded, Vec2, PI_URAD, TWO_PI_URAD,
};
use crate::intercept::dist_sq_2d;

verus! {

/// The base turning radius at rest, in milli-units.
pub const TURN_RADIUS_BASE: i64 = 250_000;

/// Three degrees in microradians: the yaw tolerance for ending a turn.
pub const YAW_EPS_URAD: i64 = 52_360;

/// Eleven sixths of pi: a swept angle at least this large means angular
/// momentum has carried the car the wrong way round, which self-corrects.
pub const DEGENERATE_SWEEP_URAD: i64 = 5_759_585;

/// How close the car must come to a straight segment's end point to count
/// as arrived, in milli-units.
pub const ARRIVE_EPS_MILLI: i64 = 100_000;

/// The slowest speed a straight segment plans with, in milli-units per
/// second.
pub const ASSUME_SPEED_MIN: i64 = 1_000_000;

/// The agent's physical state on the ground plane: position, heading,
/// forward speed, boost, and the two flags the planners guard on.
#[derive(Clone, Copy, Debug, PartialEq, Eq, Structural)]
pub struct CarState {
    pub loc: Vec2,
    pub yaw: i64,
    pub speed: i64,
    pub boost: i64,
    pub on_flat_ground: bool,
    pub skidding: bool,
}

/// The well-formed car states.
pub open spec fn car_state_ok(c: CarState) -> bool {
    &&& vec2_bounded(c.loc)
    &&& -50_000_000 <= c.loc.x <= 50_000_000
    &&& -50_000_000 <= c.loc.y <= 50_000_000
    &&& angle_normalized(c.yaw as int)
    &&& 0 <= c.speed <= CAR_MAX_SPEED
    &&& 0 <= c.boost <= BOOST_FULL
}

/// One tick's control command: analog axes in milli-units of full
/// deflection, switches as booleans.
#[derive(Clone, Copy, Debug, PartialEq, Eq, Structural)]
pub struct CarControls {
    pub throttle: i64,
    pub steer: i64,
    pub pitch: i64,
    pub yaw: i64,
    pub roll: i64,
    pub jump: bool,
    pub boost: bool,
    pub handbrake: bool,
}

impl Default for CarControls {
    /// The neutral command: every axis centered, every switch off.
    fn default() -> (r: CarControls)
        ensures
            r == (CarControls {
                throttle: 0,
                steer: 0,
                pitch: 0,
                yaw: 0,
                roll: 0,
                jump: false,
                boost: false,
                handbrake: false,
            }),
    {
        CarControls {
            throttle: 0,
            steer: 0,
            pitch: 0,
            yaw: 0,
            roll: 0,
            jump: false,
            boost: false,
            handbrake: false,
        }
    }
}

/// The neutral command, at the spec level.
pub open spec fn neutral_controls() -> CarControls {
    CarControls {
        throttle: 0,
        steer: 0,
        pitch: 0,
        yaw: 0,
        roll: 0,
        jump: false,
        boost: false,
        handbrake: false,
    }
}

/// The neutral command: every axis centered, every switch off.
pub fn neutral_controls_exec() -> (r: CarControls)
    ensures
        r == neutral_controls(),
{
    CarControls {
        throttle: 0,
        steer: 0,
        pitch: 0,
        yaw: 0,
        roll: 0,
        jump: false,
        boost: false,
        handbrake: false,
    }
}

/// A circular arc about `center` with signed `sweep`, aimed at
/// `target_loc`; `end` is the exact state the arc delivers the car into.
#[derive(Clone, Copy, Debug, PartialEq, Eq, Structural)]
pub struct TurnSegment {
    pub start: CarState,
    pub target_loc: Vec2,
    pub center: Vec2,
    pub radius: i64,
    pub sweep: i64,
    pub end: CarState,
}

/// A straight drive from `start.loc` to `end.loc`; `dist_milli` is the
/// length of the leg and `duration_ms` the time it is planned to take.
#[derive(Clone, Copy, Debug, PartialEq, Eq, Structural)]
pub struct StraightSegment {
    pub start: CarState,
    pub end: CarState,
    pub dist_milli: i64,
    pub duration_ms: i64,
}

/// What a turn planned from `start` toward `target` must be: sweep is the
/// normalized heading error, the radius grows with speed, the center sits a
/// radius to the side the turn bends toward, and the end state is the start
/// state carried around the arc.
pub open spec fn turn_segment_of(start: CarState, target: Vec2, t: TurnSegment) -> bool {
    let sweep = norm_angle_spec(
        atan2_spec(target.y - start.loc.y, target.x - start.loc.x) - start.yaw,
    );
    let radius = TURN_RADIUS_BASE + start.speed / 4;
    let side = if sweep >= 0 {
        radius as int
    } else {
        -radius as int
    };
    let arm = Vec2 { x: (start.loc.x - t.center.x) as i64, y: (start.loc.y - t.center.y) as i64 };
    &&& t.start == start
    &&& t.target_loc == target
    &&& t.sweep == sweep
    &&& t.radius == radius
    &&& t.center.x == start.loc.x + rotate_x_spec(Vec2 { x: 0, y: side as i64 }, start.yaw as int)
    &&& t.center.y == start.loc.y + rotate_y_spec(Vec2 { x: 0, y: side as i64 }, start.yaw as int)
    &&& t.end.loc.x == t.center.x + rotate_x_spec(arm, sweep)
    &&& t.end.loc.y == t.center.y + rotate_y_spec(arm, sweep)
    &&& t.end.yaw == norm_angle_spec(start.yaw + sweep)
    &&& t.end.speed == start.speed
    &&& t.end.boost == start.boost
    &&& t.end.on_flat_ground == true
    &&& t.end.skidding == false
}

/// What a straight leg planned from `start` to `target` must be: the end
/// point is the target, the end heading faces down the leg, and the
/// duration is the length over the assumed speed.
pub open spec fn straight_segment_of(start: CarState, target: Vec2, s: StraightSegment) -> bool {
    let assume_speed = if start.speed >= ASSUME_SPEED_MIN {
        start.speed as int
    } else {
        ASSUME_SPEED_MIN as int
    };
    &&& s.start == start
    &&& is_isqrt(dist_sq_2d(start.loc, target), s.dist_milli as int)
    &&& s.end.loc == target
    &&& s.end.yaw == (if s.dist_milli > 0 {
        norm_angle_spec(atan2_spec(target.y - start.loc.y, target.x - start.loc.x))
    } else {
        start.yaw as int
    })
    &&& s.end.speed == assume_speed
    &&& s.end.boost == start.boost
    &&& s.end.on_flat_ground == true
    &&& s.end.skidding == false
    &&& s.duration_ms == muldiv_spec(s.dist_milli as int, 1000, assume_speed)
}

/// One leg of a route.
#[derive(Clone, Copy, Debug, PartialEq, Eq, Structural)]
pub enum Segment {
    Straight(StraightSegment),
    Turn(TurnSegment),
}

/// The state a segment begins in.
pub open spec fn seg_start(s: Segment) -> CarState {
    match s {
        Segment::Straight(x) => x.start,
        Segment::Turn(x) => x.start,
    }
}

/// The state a segment delivers the car into.
pub open spec fn seg_end(s: Segment) -> CarState {
    match s {
        Segment::Straight(x) => x.end,
        Segment::Turn(x) => x.end,
    }
}

/// A well-formed segment: its stored fields satisfy the defining relation
/// for its own start and target, and both endpoint states are sound.
pub open spec fn seg_wf(s: Segment) -> bool {
    match s {
        Segment::Straight(x) => {
            &&& straight_segment_of(x.start, x.end.loc, x)
            &&& car_state_ok(x.start)
            &&& car_state_ok(x.end)
        },
        Segment::Turn(x) => {
            &&& turn_segment_of(x.start, x.target_loc, x)
            &&& car_state_ok(x.start)
            &&& car_state_ok(x.end)
            &&& vec2_bounded(x.center)
            &&& vec2_bounded(x.target_loc)
            &&& 0 < x.radius <= 1_000_000
            &&& -PI_URAD <= x.sweep <= PI_URAD
        },
    }
}

impl Segment {
    /// The name of this kind of leg.
    pub fn name(&self) -> (r: &'static str) {
        match self {
            Segment::Straight(_) => "Straight",
            Segment::Turn(_) => "Turn",
        }
    }

    /// The state this leg begins in.
    pub fn start(&self) -> (r: CarState)
        ensures
            r == seg_start(*self),
    {
        match self {
            Segment::Straight(x) => x.start,
            Segment::Turn(x) => x.start,
        }
    }

    /// The state this leg delivers the car into.
    pub fn end(&self) -> (r: CarState)
        ensures
            r == seg_end(*self),
    {
        match self {
            Segment::Straight(x) => x.end,
            Segment::Turn(x) => x.end,
        }
    }

    /// How long this leg is planned to take, in milliseconds: for a turn,
    /// the arc length over an assumed speed of at least twice the current
    /// one.
    pub fn duration_ms(&self) -> (r: i64)
        requires
            seg_wf(*self),
        ensures
            match *self {
                Segment::Straight(x) => r == x.duration_ms,
                Segment::Turn(x) => r == muldiv_spec(
                    x.radius as int,
                    abs_spec(x.sweep as int),
                    (if 2 * x.start.speed >= 1_600_000 {
                        2 * x.start.speed as int
                    } else {
                        1_600_000int
                    }) * 1000,
                ),
            },
    {
        match self {
            Segment::Straight(x) => x.duration_ms,
            Segment::Turn(x) => {
                let sweep_abs = abs_i64(x.sweep);
                let assume_speed: i64 = if 2 * x.start.speed >= 1_600_000 {
                    2 * x.start.speed
                } else {
                    1_600_000
                };
                muldiv(x.radius, sweep_abs, assume_speed * 1000)
            },
        }
    }
}

/// Build the turn a planner commits to: from `start`, bend toward `target`.
pub fn plan_turn_segment(start: CarState, target: Vec2) -> (t: TurnSegment)
    requires
        car_state_ok(start),
        -35_000_000 <= start.loc.x <= 35_000_000,
        -35_000_000 <= start.loc.y <= 35_000_000,
        vec2_bounded(target),
        -34_000_000 <= target.x <= 34_000_000,
        -34_000_000 <= target.y <= 34_000_000,
    ensures
        turn_segment_of(start, target, t),
        seg_wf(Segment::Turn(t)),
{
    let dx: i64 = target.x - start.loc.x;
    let dy: i64 = target.y - start.loc.y;
    let heading_to_target = atan2_micro(dy, dx);
    let sweep = normalize_angle(heading_to_target - start.yaw);
    let radius: i64 = TURN_RADIUS_BASE + start.speed / 4;
    proof {
        vstd::arithmetic::div_mod::lemma_div_pos_is_pos(start.speed as int, 4);
        vstd::arithmetic::div_mod::lemma_div_is_ordered(
            start.speed as int,
            CAR_MAX_SPEED as int,
            4,
        );
    }
    let side: i64 = if sweep >= 0 {
        radius
    } else {
        -radius
    };
    let offset = rotate(Vec2 { x: 0, y: side }, start.yaw);
    let center = Vec2 { x: start.loc.x + offset.x, y: start.loc.y + offset.y };
    let arm = Vec2 { x: start.loc.x - center.x, y: start.loc.y - center.y };
    let swung = rotate(arm, sweep);
    let end_loc = Vec2 { x: center.x + swung.x, y: center.y + swung.y };
    let end_yaw = normalize_angle(start.yaw + sweep);
    let end = CarState {
        loc: end_loc,
        yaw: end_yaw,
        speed: start.speed,
        boost: start.boost,
        on_flat_ground: true,
        skidding: false,
    };
    TurnSegment { start, target_loc: target, center, radius, sweep, end }
}

/// Build the straight leg a planner commits to: from `start` to `target`.
pub fn plan_straight_segment(start: CarState, target: Vec2) -> (s: StraightSegment)
    requires
        car_state_ok(start),
        vec2_bounded(target),
        -34_000_000 <= target.x <= 34_000_000,
        -34_000_000 <= target.y <= 34_000_000,
    ensures
        straight_segment_of(start, target, s),
        seg_wf(Segment::Straight(s)),
{
    let dx: i64 = target.x - start.loc.x;
    let dy: i64 = target.y - start.loc.y;
    proof {
        assert(0 <= (dx as int) * (dx as int) <= 8_100_000_000_000_000int && 0 <= (dy as int) * (
        dy as int) <= 8_100_000_000_000_000int) by (nonlinear_arith)
            requires
                -90_000_000 <= dx <= 90_000_000,
                -90_000_000 <= dy <= 90_000_000,
        ;
    }
    let d2: i64 = dx * dx + dy * dy;
    let d = isqrt(d2);
    proof {
        assert(d <= 130_000_000) by (nonlinear_arith)
            requires
                is_isqrt(d2 as int, d as int),
                0 <= d2 <= 16_200_000_000_000_000int,
        ;
        assert(dist_sq_2d(start.loc, target) == d2) by (nonlinear_arith)
            requires
                d2 == (dx as int) * (dx as int) + (dy as int) * (dy as int),
                dx == target.x - start.loc.x,
                dy == target.y - start.loc.y,
                dist_sq_2d(start.loc, target) == (start.loc.x - target.x) * (start.loc.x
                    - target.x) + (start.loc.y - target.y) * (start.loc.y - target.y),
        ;
    }
    let assume_speed: i64 = if start.speed >= ASSUME_SPEED_MIN {
        start.speed
    } else {
        ASSUME_SPEED_MIN
    };
    let duration_ms = muldiv(d, 1000, assume_speed);
    let end_yaw: i64 = if d > 0 {
        normalize_angle(atan2_micro(dy, dx))
    } else {
        start.yaw
    };
    let end = CarState {
        loc: target,
        yaw: end_yaw,
        speed: assume_speed,
        boost: start.boost,
        on_flat_ground: true,
        skidding: false,
    };
    StraightSegment { start, end, dist_milli: d, duration_ms }
}

/// What a segment runner reports for one tick: a command to emit, or a
/// terminal outcome.
#[derive(Clone, Copy, Debug, PartialEq, Eq, Structural)]
pub enum SegmentRunAction {
    Yield(CarControls),
    Success,
    Failure,
}

/// The angle already swept from the turn's start to the car's position,
/// counted in the turn's own direction.
pub open spec fn sweep_to_spec(t: TurnSegment, loc: Vec2) -> int {
    let a = atan2_spec(t.start.loc.y - t.center.y, t.start.loc.x - t.center.x);
    let b = atan2_spec(loc.y - t.center.y, loc.x - t.center.x);
    let result = norm_angle_spec(b - a);
    if result < 0 && t.sweep >= 0 {
        result + TWO_PI_URAD
    } else if result > 0 && t.sweep < 0 {
        result - TWO_PI_URAD
    } else {
        result
    }
}

/// What the turn runner decides on one tick: fail off the ground, succeed
/// once the heading error to the target is under three degrees or the arc
/// has been swept (unless the sweep is degenerate), otherwise steer into
/// the turn at full throttle.
pub open spec fn turn_step_spec(t: TurnSegment, car: CarState) -> SegmentRunAction {
    if !car.on_flat_ground {
        SegmentRunAction::Failure
    } else {
        let yaw_diff = norm_angle_spec(
            atan2_spec(t.target_loc.y - car.loc.y, t.target_loc.x - car.loc.x) - car.yaw,
        );
        if abs_spec(yaw_diff) < YAW_EPS_URAD {
            SegmentRunAction::Success
        } else {
            let swept = sweep_to_spec(t, car.loc);
            let degenerate = abs_spec(swept) >= DEGENERATE_SWEEP_URAD;
            if !degenerate && abs_spec(swept) >= abs_spec(t.sweep as int) - YAW_EPS_URAD {
                SegmentRunAction::Success
            } else {
                SegmentRunAction::Yield(
                    CarControls {
                        throttle: 1000,
                        steer: if yaw_diff >= 0 {
                            1000i64
                        } else {
                            -1000i64
                        },
                        pitch: 0,
                        yaw: 0,
                        roll: 0,
                        jump: false,
                        boost: false,
                        handbrake: false,
                    },
                )
            }
        }
    }
}

/// What the straight runner decides on one tick: fail off the ground,
/// succeed within the arrival tolerance of the end point, otherwise steer
/// proportionally toward it at full throttle, boosting while any boost is
/// left — the same boost-assisted model the intercept search promised
/// reachability with.
pub open spec fn straight_step_spec(s: StraightSegment, car: CarState) -> SegmentRunAction {
    if !car.on_flat_ground {
        SegmentRunAction::Failure
    } else if dist_sq_2d(car.loc, s.end.loc) <= (ARRIVE_EPS_MILLI as int) * (
    ARRIVE_EPS_MILLI as int) {
        SegmentRunAction::Success
    } else {
        let yaw_diff = norm_angle_spec(
            atan2_spec(s.end.loc.y - car.loc.y, s.end.loc.x - car.loc.x) - car.yaw,
        );
        SegmentRunAction::Yield(
            CarControls {
                throttle: 1000,
                steer: clamp_spec(div_zero_spec(yaw_diff, 500), -1000, 1000) as i64,
                pitch: 0,
                yaw: 0,
                roll: 0,
                jump: false,
                boost: car.boost > 0,
                handbrake: false,
            },
        )
    }
}

/// What a runner decides on one tick, by segment kind.
pub open spec fn runner_step_spec(r: SegmentRunner, car: CarState) -> SegmentRunAction {
    match r {
        SegmentRunner::Straight(s) => straight_step_spec(s, car),
        SegmentRunner::Turn(t) => turn_step_spec(t, car),
    }
}

/// The stateful driver of one committed segment.
#[derive(Clone, Copy, Debug)]
pub enum SegmentRunner {
    Straight(StraightSegment),
    Turn(TurnSegment),
}

/// Which segment a runner was created for.
pub open spec fn runner_of(r: SegmentRunner) -> Segment {
    match r {
        SegmentRunner::Straight(s) => Segment::Straight(s),
        SegmentRunner::Turn(t) => Segment::Turn(t),
    }
}

impl Segment {
    /// Create the runner for this segment.
    pub fn run(&self) -> (r: SegmentRunner)
        ensures
            runner_of(r) == *self,
    {
        match self {
            Segment::Straight(s) => SegmentRunner::Straight(*s),
            Segment::Turn(t) => SegmentRunner::Turn(*t),
        }
    }
}

impl SegmentRunner {
    /// The name of this runner, as the logs print it.
    pub fn name(&self) -> (r: &'static str) {
        match self {
            SegmentRunner::Straight(_) => "StraightRunner",
            SegmentRunner::Turn(_) => "Turner",
        }
    }

    /// Decide this tick's outcome against the live car state.
    pub fn execute(&self, car: &CarState) -> (r: SegmentRunAction)
        requires
            seg_wf(runner_of(*self)),
            car_state_ok(*car),
        ensures
            r == runner_step_spec(*self, *car),
    {
        match self {
            SegmentRunner::Straight(s) => {
                if !car.on_flat_ground {
                    return SegmentRunAction::Failure;
                }
                let dx: i64 = car.loc.x - s.end.loc.x;
                let dy: i64 = car.loc.y - s.end.loc.y;
                proof {
                    assert(0 <= (dx as int) * (dx as int) <= 40_000_000_000_000_000int && 0 <= (
                    dy as int) * (dy as int) <= 40_000_000_000_000_000int) by (nonlinear_arith)
                        requires
                            -200_000_000 <= dx <= 200_000_000,
                            -200_000_000 <= dy <= 200_000_000,
                    ;
                }
                let d2: i64 = dx * dx + dy * dy;
                if d2 <= ARRIVE_EPS_MILLI * ARRIVE_EPS_MILLI {
                    return SegmentRunAction::Success;
                }
                let yaw_diff = normalize_angle(
                    atan2_micro(s.end.loc.y - car.loc.y, s.end.loc.x - car.loc.x) - car.yaw,
                );
                SegmentRunAction::Yield(
                    CarControls {
                        throttle: 1000,
                        steer: clamp_i64(div_zero(yaw_diff, 500), -1000, 1000),
                        pitch: 0,
                        yaw: 0,
                        roll: 0,
                        jump: false,
                        boost: car.boost > 0,
                        handbrake: false,
                    },
                )
            },
            SegmentRunner::Turn(t) => {
                if !car.on_flat_ground {
                    return SegmentRunAction::Failure;
                }
                let yaw_diff = normalize_angle(
                    atan2_micro(t.target_loc.y - car.loc.y, t.target_loc.x - car.loc.x) - car.yaw,
                );
                if abs_i64(yaw_diff) < YAW_EPS_URAD {
                    return SegmentRunAction::Success;
                }
                let a = atan2_micro(t.start.loc.y - t.center.y, t.start.loc.x - t.center.x);
                let b = atan2_micro(car.loc.y - t.center.y, car.loc.x - t.center.x);
                let base = normalize_angle(b - a);
                let swept: i64 = if base < 0 && t.sweep >= 0 {
                    base + TWO_PI_URAD
                } else if base > 0 && t.sweep < 0 {
                    base - TWO_PI_URAD
                } else {
                    base
                };
                let degenerate = abs_i64(swept) >= DEGENERATE_SWEEP_URAD;
                if !degenerate && abs_i64(swept) >= abs_i64(t.sweep) - YAW_EPS_URAD {
                    return SegmentRunAction::Success;
                }
                SegmentRunAction::Yield(
                    CarControls {
                        throttle: 1000,
                        steer: if yaw_diff >= 0 {
                            1000
                        } else {
                            -1000
                        },
                        pitch: 0,
                        yaw: 0,
                        roll: 0,
                        jump: false,
                        boost: false,
                        handbrake: false,
                    },
                )
            },
        }
    }
}

} // verus!
