//! Route planning: composable planners that turn a snapshot of the world
//! into a committed trajectory segment plus, optionally, the next planner to
//! invoke when that segment completes; provisional expansion simulates the
//! whole remaining chain against each segment's end state, side-effect free,
//! so that a plan that would fail later is rejected before anything runs.

use vstd::prelude::*;

use crate::ball::{ball_in_field, PredictedFrame};
use crate::geom::{
    abs_i64, abs_spec, cos_micro, cos_spec, muldiv, muldiv_spec, sin_micro, sin_spec, vec2_bounded,
    vec3_bounded, Vec2,
};
use crate::intercept::{
    candidate_of, flat, intercept_feasible, naive_ground_intercept, FramePredicate, NaiveIntercept,
    SEARCH_MAX_FRAMES,
};
use crate::segment::{
    car_state_ok, plan_straight_segment, plan_turn_segment, seg_end, seg_start, seg_wf,
    straight_segment_of, turn_segment_of, CarState, Segment,
};

verus! {

/// A ball higher than this cannot be hit from the ground, in milli-units.
pub const INTERCEPT_MAX_Z: i64 = 220_000;

/// A ball rising faster than this is still climbing away, in milli-units
/// per second.
pub const INTERCEPT_MAX_VZ: i64 = 25_000;

/// Half the goal's width, in milli-units.
pub const GOALPOST_X_MILLI: i64 = 892_755;

/// How far inside the walls a pathing waypoint is placed, in milli-units.
pub const WAYPOINT_MARGIN_MILLI: i64 = 125_000;

/// The farthest from the origin a planner will accept a start state, in
/// milli-units.
pub const PLAN_LOC_MAX: i64 = 35_000_000;

/// The farthest from the origin a planner will aim, in milli-units.
pub const TARGET_LOC_MAX: i64 = 34_000_000;

/// The most segments one provisional expansion will materialize.
pub const EXPAND_MAX_SEGMENTS: usize = 8;

/// The closed taxonomy of planning failures. The skidding and
/// not-on-flat-ground errors are recoverable (they carry what a recovery
/// behavior needs); the others are fatal.
#[derive(Clone, Copy, Debug, PartialEq, Eq, Structural)]
pub enum RoutePlanError {
    MustBeOnFlatGround,
    MustNotBeSkidding { recover_target_loc: Vec2 },
    UnknownIntercept,
    OutOfBounds,
    NoPath,
}

/// Whether a recovery behavior exists for this error.
pub open spec fn recoverable(e: RoutePlanError) -> bool {
    match e {
        RoutePlanError::MustBeOnFlatGround => true,
        RoutePlanError::MustNotBeSkidding { .. } => true,
        RoutePlanError::UnknownIntercept => false,
        RoutePlanError::OutOfBounds => false,
        RoutePlanError::NoPath => false,
    }
}

/// Executable twin of `recoverable`.
pub fn is_recoverable(e: &RoutePlanError) -> (r: bool)
    ensures
        r == recoverable(*e),
{
    match e {
        RoutePlanError::MustBeOnFlatGround => true,
        RoutePlanError::MustNotBeSkidding { .. } => true,
        RoutePlanError::UnknownIntercept => false,
        RoutePlanError::OutOfBounds => false,
        RoutePlanError::NoPath => false,
    }
}

/// The composable planners. `GroundIntercept` finds the ball and turns
/// toward it, deferring a `GroundInterceptStraight` for the final approach;
/// `TurnTo` and `StraightTo` commit one geometric leg each; `Chained` runs
/// one planner and then another.
pub enum RoutePlanner {
    GroundIntercept,
    GroundInterceptStraight,
    TurnTo { target_loc: Vec2, next: Option<Box<RoutePlanner>> },
    StraightTo { target_loc: Vec2 },
    Chained { head: Box<RoutePlanner>, tail: Box<RoutePlanner> },
}

/// Whether a planner's own parameters are within the modeled arena.
pub open spec fn planner_wf(p: RoutePlanner) -> bool
    decreases p,
{
    match p {
        RoutePlanner::GroundIntercept => true,
        RoutePlanner::GroundInterceptStraight => true,
        RoutePlanner::TurnTo { target_loc, next } => {
            &&& vec2_bounded(target_loc)
            &&& -TARGET_LOC_MAX <= target_loc.x <= TARGET_LOC_MAX
            &&& -TARGET_LOC_MAX <= target_loc.y <= TARGET_LOC_MAX
            &&& match next {
                Some(n) => planner_wf(*n),
                None => true,
            }
        },
        RoutePlanner::StraightTo { target_loc } => {
            &&& vec2_bounded(target_loc)
            &&& -TARGET_LOC_MAX <= target_loc.x <= TARGET_LOC_MAX
            &&& -TARGET_LOC_MAX <= target_loc.y <= TARGET_LOC_MAX
        },
        RoutePlanner::Chained { head, tail } => planner_wf(*head) && planner_wf(*tail),
    }
}

impl RoutePlanner {
    /// The name of this planner, as the logs print it.
    pub fn name(&self) -> (r: &'static str) {
        match self {
            RoutePlanner::GroundIntercept => "GroundIntercept",
            RoutePlanner::GroundInterceptStraight => "GroundInterceptStraight",
            RoutePlanner::TurnTo { .. } => "TurnTo",
            RoutePlanner::StraightTo { .. } => "StraightTo",
            RoutePlanner::Chained { .. } => "Chained",
        }
    }

    /// An exact copy of this planner.
    pub fn duplicate(&self) -> (r: RoutePlanner)
        ensures
            r == *self,
        decreases *self,
    {
        match self {
            RoutePlanner::GroundIntercept => RoutePlanner::GroundIntercept,
            RoutePlanner::GroundInterceptStraight => RoutePlanner::GroundInterceptStraight,
            RoutePlanner::TurnTo { target_loc, next } => RoutePlanner::TurnTo {
                target_loc: *target_loc,
                next: match next {
                    Some(b) => Some(Box::new((**b).duplicate())),
                    None => None,
                },
            },
            RoutePlanner::StraightTo { target_loc } => RoutePlanner::StraightTo {
                target_loc: *target_loc,
            },
            RoutePlanner::Chained { head, tail } => RoutePlanner::Chained {
                head: Box::new((**head).duplicate()),
                tail: Box::new((**tail).duplicate()),
            },
        }
    }
}

/// One committed step of a route: the segment to run now, and the planner
/// that will produce the rest once it completes.
pub struct RoutePlan {
    pub segment: Segment,
    pub next: Option<RoutePlanner>,
}

/// The read-only snapshot every planner works from: the agent's state and
/// the current ball prediction.
pub struct PlanningContext {
    pub start: CarState,
    pub ball_prediction: Vec<PredictedFrame>,
}

/// What a planner may assume of its inputs.
pub open spec fn plan_input_ok(start: CarState, frames: Seq<PredictedFrame>) -> bool {
    &&& car_state_ok(start)
    &&& -PLAN_LOC_MAX <= start.loc.x <= PLAN_LOC_MAX
    &&& -PLAN_LOC_MAX <= start.loc.y <= PLAN_LOC_MAX
    &&& frames.len() <= SEARCH_MAX_FRAMES
    &&& forall|i: int| 0 <= i < frames.len() ==> vec3_bounded(#[trigger] frames[i].loc)
    &&& forall|i: int| 0 <= i < frames.len() ==> ball_in_field(#[trigger] frames[i].loc)
}

/// The feasibility test the ground planners hand to the intercept search.
pub open spec fn ground_pred() -> FramePredicate {
    FramePredicate { max_z: INTERCEPT_MAX_Z, max_vz: INTERCEPT_MAX_VZ }
}

/// Whether the intercept search can find any frame at all for the ground
/// planners.
pub open spec fn some_intercept(start: CarState, frames: Seq<PredictedFrame>) -> bool {
    exists|j: int|
        0 <= j < frames.len() && intercept_feasible(
            start.loc,
            start.speed as int,
            start.boost as int,
            ground_pred(),
            #[trigger] frames[j],
            j,
        )
}

/// Everything `plan` promises, by planner. Success is owed exactly when the
/// guards pass; each error names the guard that failed; every committed
/// segment starts in the given start state, which is what makes chains
/// continuous.
pub open spec fn plan_spec(
    p: RoutePlanner,
    start: CarState,
    frames: Seq<PredictedFrame>,
    r: Result<RoutePlan, RoutePlanError>,
) -> bool
    decreases p,
{
    match p {
        RoutePlanner::GroundIntercept => {
            if !start.on_flat_ground {
                r == Result::<RoutePlan, RoutePlanError>::Err(RoutePlanError::MustBeOnFlatGround)
            } else if !some_intercept(start, frames) {
                r == Result::<RoutePlan, RoutePlanError>::Err(RoutePlanError::UnknownIntercept)
            } else if start.skidding {
                match r {
                    Result::Err(RoutePlanError::MustNotBeSkidding { recover_target_loc }) => {
                        exists|c: NaiveIntercept|
                            #[trigger] candidate_of(
                                frames,
                                start.loc,
                                start.speed as int,
                                start.boost as int,
                                ground_pred(),
                                c,
                            ) && recover_target_loc == c.car_loc
                    },
                    _ => false,
                }
            } else {
                match r {
                    Result::Ok(plan) => {
                        exists|c: NaiveIntercept|
                            {
                                &&& #[trigger] candidate_of(
                                    frames,
                                    start.loc,
                                    start.speed as int,
                                    start.boost as int,
                                    ground_pred(),
                                    c,
                                )
                                &&& plan.segment matches Segment::Turn(t) && turn_segment_of(
                                    start,
                                    flat(c.ball_loc),
                                    t,
                                )
                                &&& plan.next matches Some(n) && n
                                    == RoutePlanner::GroundInterceptStraight
                            }
                    },
                    _ => false,
                }
            }
        },
        RoutePlanner::GroundInterceptStraight => {
            if !start.on_flat_ground {
                r == Result::<RoutePlan, RoutePlanError>::Err(RoutePlanError::MustBeOnFlatGround)
            } else if !some_intercept(start, frames) {
                r == Result::<RoutePlan, RoutePlanError>::Err(RoutePlanError::UnknownIntercept)
            } else if start.skidding {
                match r {
                    Result::Err(RoutePlanError::MustNotBeSkidding { recover_target_loc }) => {
                        exists|c: NaiveIntercept|
                            #[trigger] candidate_of(
                                frames,
                                start.loc,
                                start.speed as int,
                                start.boost as int,
                                ground_pred(),
                                c,
                            ) && recover_target_loc == c.car_loc
                    },
                    _ => false,
                }
            } else {
                match r {
                    Result::Ok(plan) => {
                        exists|c: NaiveIntercept|
                            {
                                &&& #[trigger] candidate_of(
                                    frames,
                                    start.loc,
                                    start.speed as int,
                                    start.boost as int,
                                    ground_pred(),
                                    c,
                                )
                                &&& plan.segment matches Segment::Straight(s)
                                    && straight_segment_of(start, c.car_loc, s)
                                &&& plan.next is None
                            }
                    },
                    _ => false,
                }
            }
        },
        RoutePlanner::TurnTo { target_loc, next } => {
            if !start.on_flat_ground {
                r == Result::<RoutePlan, RoutePlanError>::Err(RoutePlanError::MustBeOnFlatGround)
            } else {
                match r {
                    Result::Ok(plan) => {
                        &&& plan.segment matches Segment::Turn(t) && turn_segment_of(
                            start,
                            target_loc,
                            t,
                        )
                        &&& match next {
                            Some(n) => plan.next matches Some(m) && m == *n,
                            None => plan.next is None,
                        }
                    },
                    _ => false,
                }
            }
        },
        RoutePlanner::StraightTo { target_loc } => {
            if !start.on_flat_ground {
                r == Result::<RoutePlan, RoutePlanError>::Err(RoutePlanError::MustBeOnFlatGround)
            } else {
                match r {
                    Result::Ok(plan) => {
                        &&& plan.segment matches Segment::Straight(s) && straight_segment_of(
                            start,
                            target_loc,
                            s,
                        )
                        &&& plan.next is None
                    },
                    _ => false,
                }
            }
        },
        RoutePlanner::Chained { head, tail } => {
            match r {
                Result::Ok(plan) => {
                    ||| (plan.next matches Some(RoutePlanner::Chained { head: h2, tail: t2 })
                        && t2 == tail && plan_spec(
                        *head,
                        start,
                        frames,
                        Result::<RoutePlan, RoutePlanError>::Ok(
                            RoutePlan { segment: plan.segment, next: Some(*h2) },
                        ),
                    ))
                    ||| (plan.next matches Some(m) && m == *tail && plan_spec(
                        *head,
                        start,
                        frames,
                        Result::<RoutePlan, RoutePlanError>::Ok(
                            RoutePlan { segment: plan.segment, next: None },
                        ),
                    ))
                },
                Result::Err(e) => plan_spec(
                    *head,
                    start,
                    frames,
                    Result::<RoutePlan, RoutePlanError>::Err(e),
                ),
            }
        },
    }
}

/// Derive the ground planners' common guards: flat ground, an intercept,
/// no skidding. On success hands back the candidate.
fn ground_guards(start: &CarState, frames: &Vec<PredictedFrame>) -> (r: Result<
    NaiveIntercept,
    RoutePlanError,
>)
    requires
        plan_input_ok(*start, frames@),
    ensures
        match r {
            Result::Ok(c) => {
                &&& start.on_flat_ground
                &&& !start.skidding
                &&& candidate_of(
                    frames@,
                    start.loc,
                    start.speed as int,
                    start.boost as int,
                    ground_pred(),
                    c,
                )
            },
            Result::Err(e) => match e {
                RoutePlanError::MustBeOnFlatGround => !start.on_flat_ground,
                RoutePlanError::UnknownIntercept => start.on_flat_ground && !some_intercept(
                    *start,
                    frames@,
                ),
                RoutePlanError::MustNotBeSkidding { recover_target_loc } => {
                    &&& start.on_flat_ground
                    &&& start.skidding
                    &&& vec2_bounded(recover_target_loc)
                    &&& exists|c: NaiveIntercept|
                        #[trigger] candidate_of(
                            frames@,
                            start.loc,
                            start.speed as int,
                            start.boost as int,
                            ground_pred(),
                            c,
                        ) && recover_target_loc == c.car_loc
                },
                _ => false,
            },
        },
{
    if !start.on_flat_ground {
        return Result::Err(RoutePlanError::MustBeOnFlatGround);
    }
    let pred = FramePredicate { max_z: INTERCEPT_MAX_Z, max_vz: INTERCEPT_MAX_VZ };
    let guess = naive_ground_intercept(frames, start.loc, start.speed, start.boost, pred);
    match guess {
        Option::None => {
            proof {
                assert(!some_intercept(*start, frames@));
            }
            Result::Err(RoutePlanError::UnknownIntercept)
        },
        Option::Some(c) => {
            proof {
                assert(some_intercept(*start, frames@)) by {
                    assert(intercept_feasible(
                        start.loc,
                        start.speed as int,
                        start.boost as int,
                        ground_pred(),
                        frames@[c.idx as int],
                        c.idx as int,
                    ));
                }
            }
            if start.skidding {
                Result::Err(RoutePlanError::MustNotBeSkidding { recover_target_loc: c.car_loc })
            } else {
                Result::Ok(c)
            }
        },
    }
}

/// Plan one committed step: the next segment to run, and the planner for
/// the rest of the route. Pure: reads the snapshot, mutates nothing.
pub fn plan(p: &RoutePlanner, start: CarState, frames: &Vec<PredictedFrame>) -> (r: Result<
    RoutePlan,
    RoutePlanError,
>)
    requires
        planner_wf(*p),
        plan_input_ok(start, frames@),
    ensures
        plan_spec(*p, start, frames@, r),
        r matches Result::Ok(plan) ==> seg_start(plan.segment) == start && seg_wf(plan.segment)
            && (plan.next matches Some(n) ==> planner_wf(n)),
        r matches Result::Err(RoutePlanError::MustNotBeSkidding { recover_target_loc }) ==>
            vec2_bounded(recover_target_loc),
    decreases *p,
{
    match p {
        RoutePlanner::GroundIntercept => {
            let c = match ground_guards(&start, frames) {
                Result::Ok(c) => c,
                Result::Err(e) => {
                    return Result::Err(e);
                },
            };
            let target = Vec2 { x: c.ball_loc.x, y: c.ball_loc.y };
            let t = plan_turn_segment(start, target);
            let plan = RoutePlan {
                segment: Segment::Turn(t),
                next: Some(RoutePlanner::GroundInterceptStraight),
            };
            proof {
                assert(target == flat(c.ball_loc));
            }
            Result::Ok(plan)
        },
        RoutePlanner::GroundInterceptStraight => {
            let c = match ground_guards(&start, frames) {
                Result::Ok(c) => c,
                Result::Err(e) => {
                    return Result::Err(e);
                },
            };
            let s = plan_straight_segment(start, c.car_loc);
            Result::Ok(RoutePlan { segment: Segment::Straight(s), next: None })
        },
        RoutePlanner::TurnTo { target_loc, next } => {
            if !start.on_flat_ground {
                return Result::Err(RoutePlanError::MustBeOnFlatGround);
            }
            let t = plan_turn_segment(start, *target_loc);
            let n: Option<RoutePlanner> = match next {
                Some(b) => Some((**b).duplicate()),
                None => None,
            };
            proof {
                assert(match *next {
                    Some(bn) => n matches Some(m) && m == *bn,
                    None => n is None,
                });
            }
            Result::Ok(RoutePlan { segment: Segment::Turn(t), next: n })
        },
        RoutePlanner::StraightTo { target_loc } => {
            if !start.on_flat_ground {
                return Result::Err(RoutePlanError::MustBeOnFlatGround);
            }
            let s = plan_straight_segment(start, *target_loc);
            Result::Ok(RoutePlan { segment: Segment::Straight(s), next: None })
        },
        RoutePlanner::Chained { head, tail } => {
            let hr = match plan(head, start, frames) {
                Result::Ok(hr) => hr,
                Result::Err(e) => {
                    return Result::Err(e);
                },
            };
            let next: RoutePlanner = match hr.next {
                Some(n) => RoutePlanner::Chained {
                    head: Box::new(n),
                    tail: Box::new((**tail).duplicate()),
                },
                None => (**tail).duplicate(),
            };
            let plan = RoutePlan { segment: hr.segment, next: Some(next) };
            Result::Ok(plan)
        },
    }
}

/// Continuity across a chain: every segment begins exactly in the state the
/// one before it ends in.
pub open spec fn chain_continuous(s: Seq<Segment>) -> bool {
    forall|i: int| 0 <= i < s.len() - 1 ==> seg_end(#[trigger] s[i]) == seg_start(s[i + 1])
}

/// Whether a state lies within the planning area the expansion checks
/// before invoking a deferred planner.
pub open spec fn in_plan_area(c: CarState) -> bool {
    -PLAN_LOC_MAX <= c.loc.x <= PLAN_LOC_MAX && -PLAN_LOC_MAX <= c.loc.y <= PLAN_LOC_MAX
}

/// The first `plans.len()` steps of materializing a deferred chain: each
/// plan is exactly what `plan_spec` commits for the chain's planner at that
/// step, invoked against the previous segment's end state; after these
/// steps the chain stands at planner `rem` in state `rem_start`.
pub open spec fn expands_prefix(
    next: Option<RoutePlanner>,
    start: CarState,
    frames: Seq<PredictedFrame>,
    plans: Seq<RoutePlan>,
    rem: Option<RoutePlanner>,
    rem_start: CarState,
) -> bool
    decreases plans.len(),
{
    if plans.len() == 0 {
        rem == next && rem_start == start
    } else {
        &&& next matches Some(p) && in_plan_area(start) && plan_spec(
            p,
            start,
            frames,
            Result::<RoutePlan, RoutePlanError>::Ok(plans[0]),
        )
        &&& expands_prefix(
            plans[0].next,
            seg_end(plans[0].segment),
            frames,
            plans.skip(1),
            rem,
            rem_start,
        )
    }
}

/// The segments a sequence of plans commits, in order.
pub open spec fn plan_segments(plans: Seq<RoutePlan>) -> Seq<Segment> {
    plans.map_values(|p: RoutePlan| p.segment)
}

/// What the expansion returns on success: the tail is exactly the segments
/// of a full materialization of the deferred chain, run to its end.
pub open spec fn expansion_ok(plan: RoutePlan, frames: Seq<PredictedFrame>, tail: Seq<Segment>) -> bool {
    exists|plans: Seq<RoutePlan>, rem_start: CarState|
        #[trigger] expands_prefix(
            plan.next,
            seg_end(plan.segment),
            frames,
            plans,
            Option::<RoutePlanner>::None,
            rem_start,
        ) && tail == plan_segments(plans)
}

/// Why one expansion step fails: past the budget it is `NoPath`, outside
/// the planning area it is `OutOfBounds`, otherwise it is the planner's own
/// error.
pub open spec fn expand_step_fails(
    p: RoutePlanner,
    start: CarState,
    frames: Seq<PredictedFrame>,
    steps_done: int,
    e: RoutePlanError,
) -> bool {
    if steps_done >= EXPAND_MAX_SEGMENTS {
        e is NoPath
    } else if !in_plan_area(start) {
        e is OutOfBounds
    } else {
        plan_spec(p, start, frames, Result::<RoutePlan, RoutePlanError>::Err(e))
    }
}

/// What the expansion returns on failure: some prefix of the chain
/// materialized, and the step it stopped at fails with exactly the
/// reported error.
pub open spec fn expansion_failed(
    plan: RoutePlan,
    frames: Seq<PredictedFrame>,
    e: RoutePlanError,
) -> bool {
    exists|plans: Seq<RoutePlan>, rem_p: RoutePlanner, rem_start: CarState|
        #[trigger] expands_prefix(
            plan.next,
            seg_end(plan.segment),
            frames,
            plans,
            Some(rem_p),
            rem_start,
        ) && expand_step_fails(rem_p, rem_start, frames, plans.len() as int, e)
}

/// A materialized step prepends to a prefix of the rest of the chain.
pub proof fn lemma_expands_prefix_prepend(
    next: Option<RoutePlanner>,
    start: CarState,
    frames: Seq<PredictedFrame>,
    first: RoutePlan,
    plans: Seq<RoutePlan>,
    rem: Option<RoutePlanner>,
    rem_start: CarState,
)
    requires
        next matches Some(p) && plan_spec(
            p,
            start,
            frames,
            Result::<RoutePlan, RoutePlanError>::Ok(first),
        ),
        in_plan_area(start),
        expands_prefix(first.next, seg_end(first.segment), frames, plans, rem, rem_start),
    ensures
        expands_prefix(next, start, frames, seq![first] + plans, rem, rem_start),
{
    let s = seq![first] + plans;
    assert(s.len() == 1 + plans.len());
    assert(s[0] == first);
    assert(s.skip(1) =~= plans);
}

impl RoutePlan {
    /// Simulate the whole remaining chain of deferred planners against each
    /// segment's end state, committing nothing: the result is only a preview,
    /// and a chain that would fail at any step is rejected here, before any
    /// of its segments is ever handed a live runner.
    ///
    /// On success the committed segment followed by the returned tail is a
    /// continuous chain of well-formed segments, and the tail is exactly the
    /// materialization of the deferred chain (`expansion_ok`); on failure
    /// some prefix materialized and the reported error is the failing
    /// step's own (`expansion_failed`).
    pub fn provisional_expand(&self, frames: &Vec<PredictedFrame>) -> (r: Result<
        Vec<Segment>,
        RoutePlanError,
    >)
        requires
            seg_wf(self.segment),
            self.next matches Some(n) ==> planner_wf(n),
            frames@.len() <= SEARCH_MAX_FRAMES,
            forall|i: int| 0 <= i < frames@.len() ==> vec3_bounded(#[trigger] frames@[i].loc),
            forall|i: int| 0 <= i < frames@.len() ==> ball_in_field(#[trigger] frames@[i].loc),
        ensures
            match r {
                Result::Ok(tail) => {
                    &&& chain_continuous(seq![self.segment] + tail@)
                    &&& forall|i: int| 0 <= i < tail@.len() ==> seg_wf(#[trigger] tail@[i])
                    &&& (self.next is None ==> tail@.len() == 0)
                    &&& tail@.len() <= EXPAND_MAX_SEGMENTS
                    &&& expansion_ok(*self, frames@, tail@)
                },
                Result::Err(e) => {
                    &&& self.next is Some
                    &&& (e matches RoutePlanError::MustNotBeSkidding { recover_target_loc }
                        ==> vec2_bounded(recover_target_loc))
                    &&& expansion_failed(*self, frames@, e)
                },
            },
    {
        let ghost end0 = seg_end(self.segment);
        let mut tail: Vec<Segment> = Vec::new();
        let mut cur_end: CarState = self.segment.end();
        let mut next: Option<RoutePlanner> = match &self.next {
            Some(n) => Some(n.duplicate()),
            None => None,
        };
        let ghost mut plans: Seq<RoutePlan> = Seq::empty();
        proof {
            assert(next == self.next);
            assert(tail@ =~= plan_segments(plans));
            assert forall|rp: Seq<RoutePlan>, rem: Option<RoutePlanner>, rs: CarState|
                #[trigger] expands_prefix(next, cur_end, frames@, rp, rem, rs) implies
                expands_prefix(self.next, end0, frames@, plans + rp, rem, rs) by {
                assert(plans + rp =~= rp);
            }
        }
        let mut i: usize = 0;
        while i < EXPAND_MAX_SEGMENTS
            invariant
                0 <= i <= EXPAND_MAX_SEGMENTS,
                tail@.len() == i,
                plans.len() == i,
                tail@ == plan_segments(plans),
                end0 == seg_end(self.segment),
                frames@.len() <= SEARCH_MAX_FRAMES,
                forall|k: int| 0 <= k < frames@.len() ==> vec3_bounded(#[trigger] frames@[k].loc),
                forall|k: int| 0 <= k < frames@.len() ==> ball_in_field(#[trigger] frames@[k].loc),
                seg_wf(self.segment),
                chain_continuous(seq![self.segment] + tail@),
                forall|k: int| 0 <= k < tail@.len() ==> seg_wf(#[trigger] tail@[k]),
                cur_end == seg_end((seq![self.segment] + tail@).last()),
                car_state_ok(cur_end),
                next matches Some(p) ==> planner_wf(p),
                self.next is None ==> tail@.len() == 0 && next is None,
                forall|rp: Seq<RoutePlan>, rem: Option<RoutePlanner>, rs: CarState|
                    #[trigger] expands_prefix(next, cur_end, frames@, rp, rem, rs)
                        ==> expands_prefix(self.next, end0, frames@, plans + rp, rem, rs),
            decreases EXPAND_MAX_SEGMENTS - i,
        {
            let ghost prev_next = next;
            let ghost prev_end = cur_end;
            let ghost prev_plans = plans;
            let p = match next {
                None => {
                    proof {
                        assert(expands_prefix(
                            prev_next,
                            cur_end,
                            frames@,
                            Seq::<RoutePlan>::empty(),
                            Option::<RoutePlanner>::None,
                            cur_end,
                        ));
                        assert(plans + Seq::<RoutePlan>::empty() =~= plans);
                        assert(expands_prefix(
                            self.next,
                            end0,
                            frames@,
                            plans,
                            Option::<RoutePlanner>::None,
                            cur_end,
                        ));
                        assert(expansion_ok(*self, frames@, tail@));
                    }
                    return Result::Ok(tail);
                },
                Some(p) => p,
            };
            proof {
                assert(prev_next == Some(p));
            }
            if cur_end.loc.x > PLAN_LOC_MAX || cur_end.loc.x < -PLAN_LOC_MAX || cur_end.loc.y
                > PLAN_LOC_MAX || cur_end.loc.y < -PLAN_LOC_MAX {
                proof {
                    assert(expands_prefix(
                        prev_next,
                        cur_end,
                        frames@,
                        Seq::<RoutePlan>::empty(),
                        Some(p),
                        cur_end,
                    ));
                    assert(plans + Seq::<RoutePlan>::empty() =~= plans);
                    assert(expands_prefix(self.next, end0, frames@, plans, Some(p), cur_end));
                    assert(expand_step_fails(
                        p,
                        cur_end,
                        frames@,
                        plans.len() as int,
                        RoutePlanError::OutOfBounds,
                    ));
                    assert(expansion_failed(*self, frames@, RoutePlanError::OutOfBounds));
                }
                return Result::Err(RoutePlanError::OutOfBounds);
            }
            let step = match plan(&p, cur_end, frames) {
                Result::Ok(step) => step,
                Result::Err(e) => {
                    proof {
                        assert(expands_prefix(
                            prev_next,
                            cur_end,
                            frames@,
                            Seq::<RoutePlan>::empty(),
                            Some(p),
                            cur_end,
                        ));
                        assert(plans + Seq::<RoutePlan>::empty() =~= plans);
                        assert(expands_prefix(self.next, end0, frames@, plans, Some(p), cur_end));
                        assert(expand_step_fails(p, cur_end, frames@, plans.len() as int, e));
                        assert(expansion_failed(*self, frames@, e));
                    }
                    return Result::Err(e);
                },
            };
            let ghost old_tail = tail@;
            let ghost first = step;
            tail.push(step.segment);
            proof {
                plans = prev_plans.push(first);
                assert(tail@ =~= plan_segments(plans)) by {
                    assert(plan_segments(plans) =~= plan_segments(prev_plans).push(first.segment));
                }
                assert((seq![self.segment] + tail@).len() == 2 + old_tail.len());
                assert(seq![self.segment] + tail@ == (seq![self.segment] + old_tail).push(
                    step.segment,
                ));
                assert(chain_continuous(seq![self.segment] + tail@)) by {
                    let s_old = seq![self.segment] + old_tail;
                    let s_new = seq![self.segment] + tail@;
                    assert forall|k: int| 0 <= k < s_new.len() - 1 implies seg_end(
                        #[trigger] s_new[k],
                    ) == seg_start(s_new[k + 1]) by {
                        if k < s_old.len() - 1 {
                            assert(s_new[k] == s_old[k] && s_new[k + 1] == s_old[k + 1]);
                        } else {
                            assert(s_new[k] == s_old.last() && s_new[k + 1] == step.segment);
                            assert(seg_start(step.segment) == prev_end);
                        }
                    }
                }
            }
            cur_end = step.segment.end();
            next = step.next;
            proof {
                assert forall|rp: Seq<RoutePlan>, rem: Option<RoutePlanner>, rs: CarState|
                    #[trigger] expands_prefix(next, cur_end, frames@, rp, rem, rs) implies
                    expands_prefix(self.next, end0, frames@, plans + rp, rem, rs) by {
                    lemma_expands_prefix_prepend(
                        prev_next,
                        prev_end,
                        frames@,
                        first,
                        rp,
                        rem,
                        rs,
                    );
                    assert(expands_prefix(
                        prev_next,
                        prev_end,
                        frames@,
                        seq![first] + rp,
                        rem,
                        rs,
                    ));
                    assert(expands_prefix(
                        self.next,
                        end0,
                        frames@,
                        prev_plans + (seq![first] + rp),
                        rem,
                        rs,
                    ));
                    assert(plans + rp =~= prev_plans + (seq![first] + rp));
                }
            }
            i = i + 1;
        }
        if next.is_none() {
            proof {
                assert(expands_prefix(
                    next,
                    cur_end,
                    frames@,
                    Seq::<RoutePlan>::empty(),
                    Option::<RoutePlanner>::None,
                    cur_end,
                ));
                assert(plans + Seq::<RoutePlan>::empty() =~= plans);
                assert(expands_prefix(
                    self.next,
                    end0,
                    frames@,
                    plans,
                    Option::<RoutePlanner>::None,
                    cur_end,
                ));
                assert(expansion_ok(*self, frames@, tail@));
            }
            return Result::Ok(tail);
        }
        proof {
            let rem_p = choose|q: RoutePlanner| next == Some(q);
            assert(next == Some(rem_p));
            assert(expands_prefix(
                next,
                cur_end,
                frames@,
                Seq::<RoutePlan>::empty(),
                Some(rem_p),
                cur_end,
            ));
            assert(plans + Seq::<RoutePlan>::empty() =~= plans);
            assert(expands_prefix(self.next, end0, frames@, plans, Some(rem_p), cur_end));
            assert(expand_step_fails(
                rem_p,
                cur_end,
                frames@,
                plans.len() as int,
                RoutePlanError::NoPath,
            ));
            assert(expansion_failed(*self, frames@, RoutePlanError::NoPath));
        }
        Result::Err(RoutePlanError::NoPath)
    }
}

/// The sign convention the pathing math uses: non-negative means plus one.
pub open spec fn sgn_spec(v: int) -> int {
    if v >= 0 {
        1
    } else {
        -1
    }
}

/// Where `avoid_goal_wall_waypoint` answers, and with what. Driving from
/// `start` straight to `target` is a goal-wall hazard when the two lie on
/// opposite sides of the goal line and the heading crosses that line inside
/// or too close to the goal mouth; the waypoint is the near corner of the
/// field, pulled in by the margin.
pub open spec fn goal_wall_waypoint_spec(start: CarState, target: Vec2) -> Option<Vec2> {
    let sy = sgn_spec(start.loc.y as int);
    let brink = (crate::ball::FIELD_Y_MILLI as int) * sy;
    if sgn_spec(brink - start.loc.y) == sgn_spec(brink - target.y) {
        Option::None
    } else if abs_spec(start.loc.x as int) >= GOALPOST_X_MILLI + 200_000 {
        Option::None
    } else {
        let brink2 = ((crate::ball::FIELD_Y_MILLI - 50_000) as int) * sy;
        let ray_x = cos_spec(start.yaw as int);
        let ray_y = sin_spec(start.yaw as int);
        let crossing = if ray_y == 0 {
            true
        } else {
            let cross_x = start.loc.x + muldiv_spec(
                brink2 - start.loc.y,
                ray_x,
                abs_spec(ray_y),
            ) * sgn_spec(ray_y);
            abs_spec(cross_x) >= GOALPOST_X_MILLI - WAYPOINT_MARGIN_MILLI
        };
        if crossing {
            let cx = if ray_y == 0 {
                1int
            } else {
                sgn_spec(
                    start.loc.x + muldiv_spec(brink2 - start.loc.y, ray_x, abs_spec(ray_y))
                        * sgn_spec(ray_y),
                )
            };
            Option::Some(
                Vec2 {
                    x: ((GOALPOST_X_MILLI - WAYPOINT_MARGIN_MILLI) as int * cx) as i64,
                    y: (((crate::ball::FIELD_Y_MILLI - WAYPOINT_MARGIN_MILLI) as int) * sy) as i64,
                },
            )
        } else {
            Option::None
        }
    }
}

/// Whether driving straight from `start` to `target_loc` would cross the
/// goal line too close to the goal mouth; if so, the corner waypoint to
/// drive to first.
pub fn avoid_goal_wall_waypoint(start: &CarState, target_loc: Vec2) -> (r: Option<Vec2>)
    requires
        car_state_ok(*start),
        vec2_bounded(target_loc),
    ensures
        r == goal_wall_waypoint_spec(*start, target_loc),
        r matches Some(w) ==> vec2_bounded(w) && -TARGET_LOC_MAX <= w.x <= TARGET_LOC_MAX
            && -TARGET_LOC_MAX <= w.y <= TARGET_LOC_MAX,
{
    let sy: i64 = if start.loc.y >= 0 {
        1
    } else {
        -1
    };
    let brink: i64 = crate::ball::FIELD_Y_MILLI * sy;
    let s1: i64 = if brink - start.loc.y >= 0 {
        1
    } else {
        -1
    };
    let s2: i64 = if brink - target_loc.y >= 0 {
        1
    } else {
        -1
    };
    if s1 == s2 {
        proof {
            assert(goal_wall_waypoint_spec(*start, target_loc) is None);
        }
        return Option::None;
    }
    if abs_i64(start.loc.x) >= GOALPOST_X_MILLI + 200_000 {
        proof {
            assert(goal_wall_waypoint_spec(*start, target_loc) is None);
        }
        return Option::None;
    }
    let brink2: i64 = (crate::ball::FIELD_Y_MILLI - 50_000) * sy;
    let ray_x = cos_micro(start.yaw);
    let ray_y = sin_micro(start.yaw);
    if ray_y == 0 {
        let w = Vec2 {
            x: GOALPOST_X_MILLI - WAYPOINT_MARGIN_MILLI,
            y: (crate::ball::FIELD_Y_MILLI - WAYPOINT_MARGIN_MILLI) * sy,
        };
        proof {
            assert(goal_wall_waypoint_spec(*start, target_loc) matches Some(v) && v == w);
        }
        return Option::Some(w);
    }
    let ry_abs = abs_i64(ray_y);
    let off = muldiv(brink2 - start.loc.y, ray_x, ry_abs);
    proof {
        assert(abs_spec(off as int) <= 60_000_000_000_000int) by (nonlinear_arith)
            requires
                abs_spec(off as int) <= abs_spec((brink2 - start.loc.y) as int) * abs_spec(
                    ray_x as int,
                ),
                abs_spec((brink2 - start.loc.y) as int) <= 60_000_000,
                abs_spec(ray_x as int) <= 1_000_000,
        ;
    }
    let cross_x: i64 = if ray_y >= 0 {
        start.loc.x + off
    } else {
        start.loc.x - off
    };
    if abs_i64(cross_x) >= GOALPOST_X_MILLI - WAYPOINT_MARGIN_MILLI {
        let cx: i64 = if cross_x >= 0 {
            1
        } else {
            -1
        };
        let w = Vec2 {
            x: (GOALPOST_X_MILLI - WAYPOINT_MARGIN_MILLI) * cx,
            y: (crate::ball::FIELD_Y_MILLI - WAYPOINT_MARGIN_MILLI) * sy,
        };
        proof {
            assert(ray_y == sin_spec(start.yaw as int) && ray_x == cos_spec(start.yaw as int));
            assert(ry_abs == abs_spec(sin_spec(start.yaw as int)));
            assert(off == muldiv_spec(
                (brink2 - start.loc.y) as int,
                cos_spec(start.yaw as int),
                abs_spec(sin_spec(start.yaw as int)),
            ));
            let m = muldiv_spec(
                (brink2 - start.loc.y) as int,
                cos_spec(start.yaw as int),
                abs_spec(sin_spec(start.yaw as int)),
            );
            let sg = sgn_spec(sin_spec(start.yaw as int));
            if ray_y >= 0 {
                assert(sg == 1);
                assert(m * sg == m) by (nonlinear_arith)
                    requires
                        sg == 1,
                ;
            } else {
                assert(sg == -1);
                assert(m * sg == -m) by (nonlinear_arith)
                    requires
                        sg == -1,
                ;
            }
            assert(cross_x as int == start.loc.x + m * sg);
            assert(goal_wall_waypoint_spec(*start, target_loc) matches Some(v) && v == w);
        }
        Option::Some(w)
    } else {
        proof {
            let m = muldiv_spec(
                (brink2 - start.loc.y) as int,
                cos_spec(start.yaw as int),
                abs_spec(sin_spec(start.yaw as int)),
            );
            let sg = sgn_spec(sin_spec(start.yaw as int));
            if ray_y >= 0 {
                assert(sg == 1);
                assert(m * sg == m) by (nonlinear_arith)
                    requires
                        sg == 1,
                ;
            } else {
                assert(sg == -1);
                assert(m * sg == -m) by (nonlinear_arith)
                    requires
                        sg == -1,
                ;
            }
            assert(goal_wall_waypoint_spec(*start, target_loc) is None);
        }
        Option::None
    }
}

/// Whether driving straight to `target_loc` would plow into the goal wall;
/// if so, the route to follow instead: turn to the corner waypoint, then
/// drive straight to it.
pub fn avoid_plowing_into_goal_wall(start: &CarState, target_loc: Vec2) -> (r: Option<
    RoutePlanner,
>)
    requires
        car_state_ok(*start),
        vec2_bounded(target_loc),
    ensures
        match r {
            Option::Some(p) => {
                &&& goal_wall_waypoint_spec(*start, target_loc) matches Some(w)
                    && p matches RoutePlanner::Chained { head: h, tail: t } && *h == (
                RoutePlanner::TurnTo { target_loc: w, next: None }) && *t == (
                RoutePlanner::StraightTo { target_loc: w })
                &&& planner_wf(p)
            },
            Option::None => goal_wall_waypoint_spec(*start, target_loc) is None,
        },
{
    match avoid_goal_wall_waypoint(start, target_loc) {
        Option::None => Option::None,
        Option::Some(w) => {
            let p = RoutePlanner::Chained {
                head: Box::new(RoutePlanner::TurnTo { target_loc: w, next: None }),
                tail: Box::new(RoutePlanner::StraightTo { target_loc: w }),
            };
            proof {
                assert(planner_wf(RoutePlanner::TurnTo { target_loc: w, next: None }));
                assert(planner_wf(RoutePlanner::StraightTo { target_loc: w }));
                assert(planner_wf(p));
            }
            Option::Some(p)
        },
    }
}

/// Every successfully planned segment begins exactly in the start state it
/// was planned from.
pub proof fn lemma_plan_starts_at(
    p: RoutePlanner,
    start: CarState,
    frames: Seq<PredictedFrame>,
    plan: RoutePlan,
)
    requires
        plan_spec(p, start, frames, Result::<RoutePlan, RoutePlanError>::Ok(plan)),
    ensures
        seg_start(plan.segment) == start,
    decreases p,
{
    match p {
        RoutePlanner::GroundIntercept => {},
        RoutePlanner::GroundInterceptStraight => {},
        RoutePlanner::TurnTo { .. } => {},
        RoutePlanner::StraightTo { .. } => {},
        RoutePlanner::Chained { head, tail } => {
            match plan.next {
                Some(RoutePlanner::Chained { head: h2, tail: t2 }) => {
                    if t2 == tail && plan_spec(
                        *head,
                        start,
                        frames,
                        Result::<RoutePlan, RoutePlanError>::Ok(
                            RoutePlan { segment: plan.segment, next: Some(*h2) },
                        ),
                    ) {
                        lemma_plan_starts_at(
                            *head,
                            start,
                            frames,
                            RoutePlan { segment: plan.segment, next: Some(*h2) },
                        );
                    } else {
                        lemma_plan_starts_at(
                            *head,
                            start,
                            frames,
                            RoutePlan { segment: plan.segment, next: None },
                        );
                    }
                },
                _ => {
                    lemma_plan_starts_at(
                        *head,
                        start,
                        frames,
                        RoutePlan { segment: plan.segment, next: None },
                    );
                },
            }
        },
    }
}

/// Continuity of committed plans: when a deferred planner is invoked
/// against the end state of the segment before it — as the route follower
/// and the provisional expansion both do — the segment it commits begins
/// exactly where the previous one ends. The tolerance is zero.
pub proof fn lemma_two_segment_continuity(
    p1: RoutePlanner,
    p2: RoutePlanner,
    start: CarState,
    frames1: Seq<PredictedFrame>,
    frames2: Seq<PredictedFrame>,
    plan1: RoutePlan,
    plan2: RoutePlan,
)
    requires
        plan_spec(p1, start, frames1, Result::<RoutePlan, RoutePlanError>::Ok(plan1)),
        plan_spec(
            p2,
            seg_end(plan1.segment),
            frames2,
            Result::<RoutePlan, RoutePlanError>::Ok(plan2),
        ),
    ensures
        seg_end(plan1.segment) == seg_start(plan2.segment),
{
    lemma_plan_starts_at(p2, seg_end(plan1.segment), frames2, plan2);
}

} // verus!
