//! Behaviors: resumable decision units that each tick inspect the world and
//! produce exactly one `Action` — emit a command, call a child, return to
//! the parent, abort, replace the whole stack, or tail-call a sibling.
//! `FollowRoute` wraps the route planner and segment runner pair as one such
//! behavior.

use vstd::prelude::*;

use crate::ball::{ball_ok, BallState, PredictedFrame};
use crate::geom::{
    atan2_micro, atan2_spec, clamp_i64, clamp_spec, div_zero, div_zero_spec, norm_angle_spec,
    normalize_angle, vec2_bounded, Vec2,
};
use crate::route::{
    chain_continuous, expansion_failed, expansion_ok, plan, plan_input_ok, plan_spec, planner_wf,
    recoverable, RoutePlan, RoutePlanError, RoutePlanner,
};
use crate::segment::{
    runner_of, seg_wf, CarControls, CarState, Segment, SegmentRunAction, SegmentRunner,
};

verus! {

/// How many chained segments `FollowRoute` will advance through within a
/// single tick before giving up.
pub const GO_MAX_STEPS: usize = 8;

/// How far the ball's velocity may drift, per axis in milli-units per
/// second, before the trajectory counts as changed.
pub const SAME_TRAJECTORY_TOL: i64 = 100_000;

/// The read-only snapshot a behavior is resumed with each tick.
pub struct Context {
    pub me: CarState,
    pub ball: BallState,
    pub ball_prediction: Vec<PredictedFrame>,
    pub time_ms: i64,
}

/// What every behavior may assume of its context.
pub open spec fn context_ok(ctx: Context) -> bool {
    &&& plan_input_ok(ctx.me, ctx.ball_prediction@)
    &&& ball_ok(ctx.ball)
    &&& 0 <= ctx.time_ms <= 100_000_000
}

/// The total order composite behaviors use to decide preemption.
#[derive(Clone, Copy, Debug, PartialEq, Eq, Structural)]
pub enum Priority {
    Idle,
    Defense,
    Save,
    Strike,
    Force,
}

/// A priority's place in the order.
pub open spec fn priority_rank(p: Priority) -> int {
    match p {
        Priority::Idle => 0,
        Priority::Defense => 1,
        Priority::Save => 2,
        Priority::Strike => 3,
        Priority::Force => 4,
    }
}

impl Priority {
    /// This priority's place in the order.
    pub fn rank(&self) -> (r: u8)
        ensures
            r as int == priority_rank(*self),
    {
        match self {
            Priority::Idle => 0,
            Priority::Defense => 1,
            Priority::Save => 2,
            Priority::Strike => 3,
            Priority::Force => 4,
        }
    }

    /// Whether a candidate at this priority preempts one already running at
    /// `incumbent`: strictly higher only, so ties keep whichever is running.
    pub fn preempts(&self, incumbent: &Priority) -> (r: bool)
        ensures
            r == (priority_rank(*self) > priority_rank(*incumbent)),
    {
        self.rank() > incumbent.rank()
    }
}

/// The one control-transfer outcome a behavior produces each tick.
pub enum Action {
    Yield(CarControls),
    Return,
    Abort,
    Call(Box<Behavior>),
    RootCall(Box<Behavior>),
    TailCall(Box<Behavior>),
}

/// A condition a `While` behavior re-checks every tick.
pub trait Predicate: Sized {
    /// Whether the predicate holds of this context.
    spec fn holds(&self, ctx: &Context) -> bool;

    /// Evaluate the predicate; it may update its own bookkeeping but must
    /// answer exactly `holds` of its pre-state.
    fn evaluate(&mut self, ctx: &Context) -> (r: bool)
        ensures
            r == old(self).holds(ctx),
            *final(self) == *old(self),
    ;
}

/// A predicate that holds until a deadline on the simulation clock.
#[derive(Clone, Copy, Debug, PartialEq, Eq, Structural)]
pub struct TimeLimit {
    pub deadline_ms: i64,
}

impl Predicate for TimeLimit {
    open spec fn holds(&self, ctx: &Context) -> bool {
        ctx.time_ms < self.deadline_ms
    }

    fn evaluate(&mut self, ctx: &Context) -> (r: bool) {
        ctx.time_ms < self.deadline_ms
    }
}

/// Run `child` while `predicate` holds true; return to the parent the tick
/// it first fails.
pub struct While<P: Predicate> {
    pub predicate: P,
    pub child: Box<Behavior>,
}

impl<P: Predicate> While<P> {
    /// Wrap `child` so that it only keeps running while `predicate` holds.
    pub fn new(predicate: P, child: Behavior) -> (r: While<P>)
        ensures
            r.predicate == predicate,
            *r.child == child,
    {
        While { predicate, child: Box::new(child) }
    }
}

/// Steer back toward a recovery target while the wheels have grip again;
/// the recovery behavior for a skidding start state.
#[derive(Clone, Copy, Debug, PartialEq, Eq, Structural)]
pub struct SkidRecover {
    pub target_loc: Vec2,
}

/// What `SkidRecover` does on one tick: full throttle, steering
/// proportionally toward the target.
pub open spec fn skid_step_spec(target_loc: Vec2, me: CarState) -> CarControls {
    let yaw_diff = norm_angle_spec(
        atan2_spec(target_loc.y - me.loc.y, target_loc.x - me.loc.x) - me.yaw,
    );
    CarControls {
        throttle: 1000,
        steer: clamp_spec(div_zero_spec(yaw_diff, 500), -1000, 1000) as i64,
        pitch: 0,
        yaw: 0,
        roll: 0,
        jump: false,
        boost: false,
        handbrake: false,
    }
}

impl SkidRecover {
    /// One tick of skid recovery: always yields a steering command.
    pub fn execute(&self, ctx: &Context) -> (r: Action)
        requires
            context_ok(*ctx),
            vec2_bounded(self.target_loc),
        ensures
            r matches Action::Yield(c) && c == skid_step_spec(self.target_loc, ctx.me),
    {
        let yaw_diff = normalize_angle(
            atan2_micro(self.target_loc.y - ctx.me.loc.y, self.target_loc.x - ctx.me.loc.x)
                - ctx.me.yaw,
        );
        Action::Yield(
            CarControls {
                throttle: 1000,
                steer: clamp_i64(div_zero(yaw_diff, 500), -1000, 1000),
                pitch: 0,
                yaw: 0,
                roll: 0,
                jump: false,
                boost: false,
                handbrake: false,
            },
        )
    }
}

/// Drive flat-out until the wheels are back on flat ground; the recovery
/// behavior for a start state that is not on flat ground.
#[derive(Clone, Copy, Debug, PartialEq, Eq, Structural)]
pub struct GetToFlatGround {}

impl GetToFlatGround {
    /// One tick: done once the car reports flat ground, else hold throttle
    /// and wait for physics to bring it down.
    pub fn execute(&self, ctx: &Context) -> (r: Action)
        ensures
            ctx.me.on_flat_ground ==> r is Return,
            !ctx.me.on_flat_ground ==> (r matches Action::Yield(c) && c == forward_controls()),
    {
        if ctx.me.on_flat_ground {
            Action::Return
        } else {
            Action::Yield(
                CarControls {
                    throttle: 1000,
                    steer: 0,
                    pitch: 0,
                    yaw: 0,
                    roll: 0,
                    jump: false,
                    boost: false,
                    handbrake: false,
                },
            )
        }
    }
}

/// Watches for the ball being touched: remembers the ball's velocity when
/// first consulted and reports a change once it drifts past the tolerance.
#[derive(Clone, Copy, Debug, PartialEq, Eq, Structural)]
pub struct SameBallTrajectory {
    pub expected_vel: Option<crate::geom::Vec3>,
}

/// The states the trajectory watcher keeps itself in: any remembered
/// velocity was once a real ball velocity.
pub open spec fn traj_wf(s: SameBallTrajectory) -> bool {
    match s.expected_vel {
        Some(v) => {
            &&& -crate::ball::BALL_SPEED_MAX <= v.x <= crate::ball::BALL_SPEED_MAX
            &&& -crate::ball::BALL_SPEED_MAX <= v.y <= crate::ball::BALL_SPEED_MAX
            &&& -crate::ball::BALL_SPEED_MAX <= v.z <= crate::ball::BALL_SPEED_MAX
        },
        None => true,
    }
}

/// Whether two velocities are within the trajectory tolerance of each
/// other, axis by axis.
pub open spec fn vel_close(a: crate::geom::Vec3, b: crate::geom::Vec3) -> bool {
    &&& -SAME_TRAJECTORY_TOL <= a.x - b.x <= SAME_TRAJECTORY_TOL
    &&& -SAME_TRAJECTORY_TOL <= a.y - b.y <= SAME_TRAJECTORY_TOL
    &&& -SAME_TRAJECTORY_TOL <= a.z - b.z <= SAME_TRAJECTORY_TOL
}

impl SameBallTrajectory {
    /// A fresh watcher with nothing remembered yet.
    pub fn new() -> (r: SameBallTrajectory)
        ensures
            r.expected_vel is None,
    {
        SameBallTrajectory { expected_vel: None }
    }

    /// Check the ball against the remembered velocity: `Some(Abort)` the
    /// tick the trajectory has visibly changed, `None` while it has not.
    pub fn execute(&mut self, ctx: &Context) -> (r: Option<Action>)
        requires
            traj_wf(*old(self)),
            ball_ok(ctx.ball),
        ensures
            traj_wf(*final(self)),
            match old(self).expected_vel {
                Option::None => r is None && final(self).expected_vel == Some(ctx.ball.vel),
                Option::Some(v) => {
                    if vel_close(v, ctx.ball.vel) {
                        r is None && *final(self) == *old(self)
                    } else {
                        r matches Some(a) && a is Abort && final(self).expected_vel == Some(
                            ctx.ball.vel,
                        )
                    }
                },
            },
    {
        match self.expected_vel {
            Option::None => {
                self.expected_vel = Some(ctx.ball.vel);
                None
            },
            Option::Some(v) => {
                let dx = v.x - ctx.ball.vel.x;
                let dy = v.y - ctx.ball.vel.y;
                let dz = v.z - ctx.ball.vel.z;
                let close = -SAME_TRAJECTORY_TOL <= dx && dx <= SAME_TRAJECTORY_TOL
                    && -SAME_TRAJECTORY_TOL <= dy && dy <= SAME_TRAJECTORY_TOL
                    && -SAME_TRAJECTORY_TOL <= dz && dz <= SAME_TRAJECTORY_TOL;
                if close {
                    None
                } else {
                    self.expected_vel = Some(ctx.ball.vel);
                    Some(Action::Abort)
                }
            },
        }
    }
}

/// Which recovery behavior an error calls for, if any.
pub open spec fn recovery_of(e: RoutePlanError) -> Option<Behavior> {
    match e {
        RoutePlanError::MustBeOnFlatGround => Some(Behavior::GetToFlatGround(GetToFlatGround {  })),
        RoutePlanError::MustNotBeSkidding { recover_target_loc } => Some(
            Behavior::SkidRecover(SkidRecover { target_loc: recover_target_loc }),
        ),
        _ => Option::<Behavior>::None,
    }
}

/// Full throttle with everything else neutral: what the simple recovery
/// behaviors drive with.
pub open spec fn forward_controls() -> CarControls {
    CarControls {
        throttle: 1000,
        steer: 0,
        pitch: 0,
        yaw: 0,
        roll: 0,
        jump: false,
        boost: false,
        handbrake: false,
    }
}

/// How a planning or expansion error becomes this tick's action: a
/// recoverable error root-calls its recovery behavior unless the circuit
/// breaker is set; everything else aborts.
pub open spec fn error_action(never_recover: bool, e: RoutePlanError, a: Action) -> bool {
    if recoverable(e) && !never_recover {
        a matches Action::RootCall(b) && recovery_of(e) matches Some(rb) && *b == rb
    } else {
        a is Abort
    }
}

/// Whether the planner slot still holds its planner: the two-state union
/// that replaces a nullable slot drained exactly once.
pub enum PlannerSlot {
    NotStarted(RoutePlanner),
    Started,
}

/// The committed part of a route being followed: the plan, the live runner
/// for its segment, and the preview tail from provisional expansion.
pub struct Current {
    pub plan: RoutePlan,
    pub runner: SegmentRunner,
    pub provisional_expansion_tail: Vec<Segment>,
}

/// Follow a planned route segment by segment: plan, validate the whole
/// chain provisionally, run the committed segment tick by tick, then plan
/// the deferred rest against the live world state.
pub struct FollowRoute {
    pub planner: PlannerSlot,
    pub current: Option<Current>,
    pub never_recover: bool,
    pub same_ball_trajectory: Option<SameBallTrajectory>,
}

/// The states `FollowRoute` keeps itself in.
pub open spec fn follow_route_wf(fr: FollowRoute) -> bool {
    &&& match fr.planner {
        PlannerSlot::NotStarted(p) => planner_wf(p),
        PlannerSlot::Started => true,
    }
    &&& match fr.same_ball_trajectory {
        Some(w) => traj_wf(w),
        None => true,
    }
    &&& match fr.current {
        Some(c) => {
            &&& seg_wf(c.plan.segment)
            &&& runner_of(c.runner) == c.plan.segment
            &&& (c.plan.next matches Some(n) ==> planner_wf(n))
            &&& chain_continuous(seq![c.plan.segment] + c.provisional_expansion_tail@)
            &&& forall|i: int|
                0 <= i < c.provisional_expansion_tail@.len() ==> seg_wf(
                    #[trigger] c.provisional_expansion_tail@[i],
                )
        },
        None => true,
    }
}

impl FollowRoute {
    /// Follow the route the given planner produces.
    pub fn new(planner: RoutePlanner) -> (r: FollowRoute)
        requires
            planner_wf(planner),
        ensures
            r.planner matches PlannerSlot::NotStarted(p) && p == planner,
            r.current is None,
            r.never_recover == false,
            r.same_ball_trajectory is None,
            follow_route_wf(r),
    {
        FollowRoute {
            planner: PlannerSlot::NotStarted(planner),
            current: None,
            never_recover: false,
            same_ball_trajectory: None,
        }
    }

    /// Follow the route a boxed planner produces.
    pub fn new_boxed(planner: Box<RoutePlanner>) -> (r: FollowRoute)
        requires
            planner_wf(*planner),
        ensures
            r.planner matches PlannerSlot::NotStarted(p) && p == *planner,
            r.current is None,
            r.never_recover == false,
            r.same_ball_trajectory is None,
            follow_route_wf(r),
    {
        FollowRoute {
            planner: PlannerSlot::NotStarted(*planner),
            current: None,
            never_recover: false,
            same_ball_trajectory: None,
        }
    }

    /// The circuit breaker: a route created to recover from a planning
    /// error sets this so a recovery that fails the same way aborts instead
    /// of recursing.
    pub fn never_recover(self, never_recover: bool) -> (r: FollowRoute)
        requires
            follow_route_wf(self),
        ensures
            r.never_recover == never_recover,
            r.planner == self.planner,
            r.current == self.current,
            r.same_ball_trajectory == self.same_ball_trajectory,
            follow_route_wf(r),
    {
        FollowRoute { never_recover, ..self }
    }

    /// Watch the ball while following: abort the route the tick the ball's
    /// trajectory visibly changes.
    pub fn same_ball_trajectory(self, same_ball_trajectory: bool) -> (r: FollowRoute)
        requires
            follow_route_wf(self),
        ensures
            r.same_ball_trajectory is Some <==> same_ball_trajectory,
            r.same_ball_trajectory matches Some(w) ==> w.expected_vel is None,
            r.planner == self.planner,
            r.current == self.current,
            r.never_recover == self.never_recover,
            follow_route_wf(r),
    {
        FollowRoute {
            same_ball_trajectory: if same_ball_trajectory {
                Some(SameBallTrajectory::new())
            } else {
                None
            },
            ..self
        }
    }

    /// The committed segment and the provisional preview after it: what a
    /// caller renders as the route's lookahead. Recomputing or discarding
    /// this never influences control decisions.
    pub fn draw(&self) -> (r: Vec<Segment>)
        ensures
            match self.current {
                Some(c) => r@ == seq![c.plan.segment] + c.provisional_expansion_tail@,
                None => r@.len() == 0,
            },
    {
        let mut out: Vec<Segment> = Vec::new();
        match &self.current {
            None => out,
            Some(c) => {
                out.push(c.plan.segment);
                let mut i: usize = 0;
                let n = c.provisional_expansion_tail.len();
                while i < n
                    invariant
                        0 <= i <= n,
                        n == c.provisional_expansion_tail@.len(),
                        self.current matches Some(cc) && cc.provisional_expansion_tail@
                            == c.provisional_expansion_tail@ && cc.plan.segment == c.plan.segment,
                        out@ == seq![c.plan.segment] + c.provisional_expansion_tail@.take(i as int),
                    decreases n - i,
                {
                    out.push(c.provisional_expansion_tail[i]);
                    proof {
                        assert(c.provisional_expansion_tail@.take((i + 1) as int)
                            == c.provisional_expansion_tail@.take(i as int).push(
                            c.provisional_expansion_tail@[i as int],
                        ));
                    }
                    i = i + 1;
                }
                proof {
                    assert(c.provisional_expansion_tail@.take(n as int)
                        == c.provisional_expansion_tail@);
                }
                out
            },
        }
    }

    /// Turn a planning error into this tick's action. Recoverable errors
    /// root-call their recovery behavior — unless this route was marked
    /// never-recover, the circuit breaker that surfaces Abort instead of
    /// recursing. Fatal errors abort.
    pub fn handle_error(&mut self, error: RoutePlanError) -> (r: Action)
        requires
            error matches RoutePlanError::MustNotBeSkidding { recover_target_loc }
                ==> vec2_bounded(recover_target_loc),
        ensures
            *final(self) == *old(self),
            r matches Action::RootCall(b) ==> behavior_wf(*b),
            error_action(old(self).never_recover, error, r),
    {
        match error {
            RoutePlanError::MustBeOnFlatGround => {
                if self.never_recover {
                    Action::Abort
                } else {
                    Action::RootCall(Box::new(Behavior::GetToFlatGround(GetToFlatGround {  })))
                }
            },
            RoutePlanError::MustNotBeSkidding { recover_target_loc } => {
                if self.never_recover {
                    Action::Abort
                } else {
                    Action::RootCall(
                        Box::new(
                            Behavior::SkidRecover(SkidRecover { target_loc: recover_target_loc }),
                        ),
                    )
                }
            },
            _ => Action::Abort,
        }
    }

    /// Plan with `planner`, provisionally expand the whole remaining chain,
    /// and only if every step of it succeeds commit the plan and create its
    /// runner. On any failure nothing is committed — no segment beyond the
    /// failing step is ever handed a live runner — and the returned action
    /// is what this tick must produce.
    pub fn advance(&mut self, planner: &RoutePlanner, ctx: &Context) -> (r: Result<(), Action>)
        requires
            old(self).current is None,
            follow_route_wf(*old(self)),
            planner_wf(*planner),
            context_ok(*ctx),
        ensures
            advance_post(*old(self), *final(self), *planner, *ctx, r),
            follow_route_wf(*final(self)),
            r matches Result::Err(a) ==> (a is Abort || a is RootCall) && (old(self).never_recover
                ==> a is Abort),
    {
        let plan_result = plan(planner, ctx.me, &ctx.ball_prediction);
        let route_plan = match plan_result {
            Result::Ok(p) => p,
            Result::Err(e) => {
                let a = self.handle_error(e);
                proof {
                    assert(error_action(old(self).never_recover, e, a));
                    assert(plan_spec(
                        *planner,
                        ctx.me,
                        ctx.ball_prediction@,
                        Result::<RoutePlan, RoutePlanError>::Err(e),
                    ));
                }
                return Result::Err(a);
            },
        };
        let tail = match route_plan.provisional_expand(&ctx.ball_prediction) {
            Result::Ok(tail) => tail,
            Result::Err(e) => {
                let a = self.handle_error(e);
                proof {
                    assert(error_action(old(self).never_recover, e, a));
                    assert(plan_spec(
                        *planner,
                        ctx.me,
                        ctx.ball_prediction@,
                        Result::<RoutePlan, RoutePlanError>::Ok(route_plan),
                    ));
                    assert(expansion_failed(route_plan, ctx.ball_prediction@, e));
                }
                return Result::Err(a);
            },
        };
        let runner = route_plan.segment.run();
        self.current = Some(
            Current { plan: route_plan, runner, provisional_expansion_tail: tail },
        );
        Result::Ok(())
    }
}

/// Everything `advance` promises. On success the committed plan is one
/// `plan_spec` admits for this planner against the live car state, its
/// runner drives exactly that segment, and the stored preview is a full
/// materialization of the deferred chain. On failure nothing is committed
/// and the action is the circuit-breaker mapping of the step that actually
/// failed — planning, or some step of the provisional expansion.
pub open spec fn advance_post(
    pre: FollowRoute,
    post: FollowRoute,
    planner: RoutePlanner,
    ctx: Context,
    r: Result<(), Action>,
) -> bool {
    &&& post.never_recover == pre.never_recover
    &&& post.planner == pre.planner
    &&& post.same_ball_trajectory == pre.same_ball_trajectory
    &&& match r {
        Result::Ok(()) => {
            &&& post.current matches Some(c)
            &&& plan_spec(
                planner,
                ctx.me,
                ctx.ball_prediction@,
                Result::<RoutePlan, RoutePlanError>::Ok(c.plan),
            )
            &&& runner_of(c.runner) == c.plan.segment
            &&& expansion_ok(c.plan, ctx.ball_prediction@, c.provisional_expansion_tail@)
        },
        Result::Err(a) => {
            &&& post.current is None
            &&& (a matches Action::RootCall(b) ==> behavior_wf(*b))
            &&& exists|e: RoutePlanError|
                #[trigger] error_action(pre.never_recover, e, a) && (plan_spec(
                    planner,
                    ctx.me,
                    ctx.ball_prediction@,
                    Result::<RoutePlan, RoutePlanError>::Err(e),
                ) || exists|hr: RoutePlan|
                    #[trigger] plan_spec(
                        planner,
                        ctx.me,
                        ctx.ball_prediction@,
                        Result::<RoutePlan, RoutePlanError>::Ok(hr),
                    ) && expansion_failed(hr, ctx.ball_prediction@, e))
        },
    }
}

/// The behaviors of this crate, as one closed dispatch: the active unit of
/// the behavior stack.
pub enum Behavior {
    FollowRoute(FollowRoute),
    SkidRecover(SkidRecover),
    GetToFlatGround(GetToFlatGround),
    While(While<TimeLimit>),
}

/// How deeply `While` wrappers nest in a behavior; execution recurses along
/// this measure.
pub open spec fn behavior_height(b: Behavior) -> nat
    decreases b,
{
    match b {
        Behavior::While(w) => 1 + behavior_height(*w.child),
        _ => 0,
    }
}

/// The states a behavior keeps itself in.
pub open spec fn behavior_wf(b: Behavior) -> bool
    decreases b,
{
    match b {
        Behavior::FollowRoute(fr) => follow_route_wf(fr),
        Behavior::SkidRecover(s) => vec2_bounded(s.target_loc),
        Behavior::GetToFlatGround(_) => true,
        Behavior::While(w) => behavior_wf(*w.child),
    }
}

/// Everything `go` promises. The first committed segment's runner decides
/// the tick: its command is passed through unchanged, its failure aborts
/// the route, and its success either finishes the route (no deferred
/// planner) or re-plans with the deferred planner against the live context
/// — so whatever is committed afterwards was planned from `ctx.me`.
pub open spec fn go_post(pre: FollowRoute, post: FollowRoute, ctx: Context, r: Action) -> bool {
    &&& post.never_recover == pre.never_recover
    &&& post.planner == pre.planner
    &&& post.same_ball_trajectory == pre.same_ball_trajectory
    &&& !(r is Call) && !(r is TailCall)
    &&& (r matches Action::RootCall(b) ==> behavior_wf(*b))
    &&& (pre.never_recover ==> !(r is RootCall))
    &&& (r matches Action::Yield(cmd) ==> post.current matches Some(c)
        && crate::segment::runner_step_spec(c.runner, ctx.me) == SegmentRunAction::Yield(cmd))
    &&& (r is Return ==> post.current is None)
    &&& match pre.current {
        Some(c) => {
            let first = crate::segment::runner_step_spec(c.runner, ctx.me);
            &&& (first matches SegmentRunAction::Yield(cmd) ==> r == Action::Yield(cmd) && post
                == pre)
            &&& (first is Failure ==> r is Abort && post == pre)
            &&& (first is Success && c.plan.next is None ==> r is Return)
            &&& (first is Success ==> (post.current matches Some(c2) ==> exists|pl: RoutePlanner|
                #[trigger] plan_spec(
                    pl,
                    ctx.me,
                    ctx.ball_prediction@,
                    Result::<RoutePlan, RoutePlanError>::Ok(c2.plan),
                ) && runner_of(c2.runner) == c2.plan.segment))
        },
        None => r is Abort,
    }
}

impl FollowRoute {
    /// Drive the committed segment one tick. A yielded command is this
    /// tick's output; on segment success the deferred planner is re-run
    /// against the live world state and the next segment begins at once; on
    /// segment failure, or when advancing fails, the route aborts upward.
    pub fn go(&mut self, ctx: &Context) -> (r: Action)
        requires
            follow_route_wf(*old(self)),
            old(self).current is Some,
            context_ok(*ctx),
        ensures
            follow_route_wf(*final(self)),
            go_post(*old(self), *final(self), *ctx, r),
    {
        let first_action = match &self.current {
            Some(c) => c.runner.execute(&ctx.me),
            None => {
                return Action::Abort;
            },
        };
        match first_action {
            SegmentRunAction::Yield(cmd) => {
                return Action::Yield(cmd);
            },
            SegmentRunAction::Failure => {
                return Action::Abort;
            },
            SegmentRunAction::Success => {},
        }
        let next: Option<RoutePlanner> = match &self.current {
            Some(c) => match &c.plan.next {
                Some(n) => Some(n.duplicate()),
                None => None,
            },
            None => None,
        };
        self.current = None;
        let p0 = match next {
            None => {
                return Action::Return;
            },
            Some(n) => n,
        };
        match self.advance(&p0, ctx) {
            Result::Ok(()) => {},
            Result::Err(a) => {
                return a;
            },
        }
        let mut i: usize = 1;
        while i < GO_MAX_STEPS
            invariant
                1 <= i <= GO_MAX_STEPS,
                follow_route_wf(*self),
                context_ok(*ctx),
                self.never_recover == old(self).never_recover,
                self.planner == old(self).planner,
                self.same_ball_trajectory == old(self).same_ball_trajectory,
                self.current is Some,
                match old(self).current {
                    Some(c0) => crate::segment::runner_step_spec(c0.runner, ctx.me) is Success
                        && c0.plan.next is Some,
                    None => false,
                },
                self.current matches Some(c2) ==> exists|pl: RoutePlanner|
                    #[trigger] plan_spec(
                        pl,
                        ctx.me,
                        ctx.ball_prediction@,
                        Result::<RoutePlan, RoutePlanError>::Ok(c2.plan),
                    ) && runner_of(c2.runner) == c2.plan.segment,
            decreases GO_MAX_STEPS - i,
        {
            let action = match &self.current {
                Some(c) => c.runner.execute(&ctx.me),
                None => {
                    return Action::Abort;
                },
            };
            match action {
                SegmentRunAction::Yield(cmd) => {
                    return Action::Yield(cmd);
                },
                SegmentRunAction::Failure => {
                    return Action::Abort;
                },
                SegmentRunAction::Success => {
                    let nx: Option<RoutePlanner> = match &self.current {
                        Some(c) => match &c.plan.next {
                            Some(n) => Some(n.duplicate()),
                            None => None,
                        },
                        None => None,
                    };
                    self.current = None;
                    match nx {
                        None => {
                            return Action::Return;
                        },
                        Some(n) => {
                            match self.advance(&n, ctx) {
                                Result::Ok(()) => {},
                                Result::Err(a) => {
                                    return a;
                                },
                            }
                        },
                    }
                },
            }
            i = i + 1;
        }
        Action::Abort
    }

    /// One tick of following the route: watch the ball's trajectory, plan
    /// on the first tick, then drive the committed segment.
    pub fn execute(&mut self, ctx: &Context) -> (r: Action)
        requires
            follow_route_wf(*old(self)),
            context_ok(*ctx),
        ensures
            follow_route_wf(*final(self)),
            follow_execute_post(*old(self), *final(self), *ctx, r),
    {
        match &mut self.same_ball_trajectory {
            Some(w) => {
                match w.execute(ctx) {
                    Some(a) => {
                        proof {
                            assert(a is Abort);
                        }
                        return a;
                    },
                    None => {},
                }
            },
            None => {},
        }
        if self.current.is_none() {
            let p: Option<RoutePlanner> = match &self.planner {
                PlannerSlot::NotStarted(p) => Some(p.duplicate()),
                PlannerSlot::Started => None,
            };
            let p = match p {
                Some(p) => p,
                None => {
                    return Action::Return;
                },
            };
            self.planner = PlannerSlot::Started;
            let ghost pre1 = *self;
            match self.advance(&p, ctx) {
                Result::Ok(()) => {
                    let ghost mid = *self;
                    let r = self.go(ctx);
                    proof {
                        assert(advance_post(pre1, mid, p, *ctx, Result::<(), Action>::Ok(())));
                        assert(go_post(mid, *self, *ctx, r));
                    }
                    return r;
                },
                Result::Err(a) => {
                    let ghost mid = *self;
                    proof {
                        assert(advance_post(pre1, mid, p, *ctx, Result::<(), Action>::Err(a)));
                    }
                    return a;
                },
            }
        }
        self.go(ctx)
    }
}

/// Whether the ball-trajectory watcher trips this tick: it is armed and
/// the ball's velocity has drifted past the tolerance.
pub open spec fn trip_watch(pre: FollowRoute, ctx: Context) -> bool {
    pre.same_ball_trajectory matches Some(w) && w.expected_vel matches Some(v) && !vel_close(
        v,
        ctx.ball.vel,
    )
}

/// Everything one tick of `FollowRoute` promises. A tripped trajectory
/// watcher aborts without touching the route. Otherwise: a `Started` slot
/// with nothing current means the route already finished and returns; a
/// still-held planner is consumed — exactly once, the slot never leaves
/// `Started` — and planned against this very context, failures mapped
/// through the circuit breaker; a committed segment is driven as `go_post`
/// says.
pub open spec fn follow_execute_post(
    pre: FollowRoute,
    post: FollowRoute,
    ctx: Context,
    r: Action,
) -> bool {
    &&& post.never_recover == pre.never_recover
    &&& !(r is Call) && !(r is TailCall)
    &&& (r matches Action::RootCall(b) ==> behavior_wf(*b))
    &&& (r matches Action::Yield(cmd) ==> post.current matches Some(c)
        && crate::segment::runner_step_spec(c.runner, ctx.me) == SegmentRunAction::Yield(cmd))
    &&& (r is Return ==> post.current is None)
    &&& (pre.planner is Started ==> post.planner is Started)
    &&& (trip_watch(pre, ctx) ==> r is Abort && post.planner == pre.planner && post.current
        == pre.current)
    &&& (!trip_watch(pre, ctx) ==> {
        &&& (pre.current is Some ==> post.planner == pre.planner)
        &&& (pre.current is None ==> post.planner is Started)
        &&& (pre.current is None && pre.planner is Started ==> r is Return && post.current
            is None)
        &&& (pre.current matches Some(c) ==> {
            let first = crate::segment::runner_step_spec(c.runner, ctx.me);
            &&& (first matches SegmentRunAction::Yield(cmd) ==> r == Action::Yield(cmd))
            &&& (first is Failure ==> r is Abort)
            &&& (first is Success && c.plan.next is None ==> r is Return)
        })
        &&& match pre.planner {
            PlannerSlot::NotStarted(p) => pre.current is None ==> exists|
                pre1: FollowRoute,
                mid: FollowRoute,
                ar: Result<(), Action>,
            |
                {
                    &&& pre1.current is None
                    &&& pre1.never_recover == pre.never_recover
                    &&& #[trigger] advance_post(pre1, mid, p, ctx, ar)
                    &&& match ar {
                        Result::Err(a) => r == a && post.current is None,
                        Result::Ok(()) => go_post(mid, post, ctx, r),
                    }
                },
            PlannerSlot::Started => true,
        }
    })
}

/// Everything one tick of a behavior promises, by variant: the recovery
/// leaves are pinned to their exact command, a route follower to
/// `follow_execute_post`, and a `While` wrapper returns `Return` the tick
/// its predicate first fails and otherwise passes its child's action
/// through unchanged.
pub open spec fn behavior_post(pre: Behavior, post: Behavior, ctx: Context, r: Action) -> bool
    decreases pre,
{
    match pre {
        Behavior::FollowRoute(fr) => post matches Behavior::FollowRoute(fr1)
            && follow_execute_post(fr, fr1, ctx, r),
        Behavior::SkidRecover(s) => post == pre && r == Action::Yield(
            skid_step_spec(s.target_loc, ctx.me),
        ),
        Behavior::GetToFlatGround(_) => post == pre && (if ctx.me.on_flat_ground {
            r is Return
        } else {
            r == Action::Yield(forward_controls())
        }),
        Behavior::While(w) => {
            if !w.predicate.holds(&ctx) {
                r is Return && post == pre
            } else {
                post matches Behavior::While(w1) && w1.predicate == w.predicate && behavior_post(
                    *w.child,
                    *w1.child,
                    ctx,
                    r,
                )
            }
        },
    }
}

/// The priority a behavior is weighed at; a `While` wrapper carries its
/// child's priority.
pub open spec fn behavior_priority(b: Behavior) -> Priority
    decreases b,
{
    match b {
        Behavior::FollowRoute(_) => Priority::Idle,
        Behavior::SkidRecover(_) => Priority::Force,
        Behavior::GetToFlatGround(_) => Priority::Force,
        Behavior::While(w) => behavior_priority(*w.child),
    }
}

impl Behavior {
    /// The name of this behavior, as the logs print it.
    pub fn name(&self) -> (r: &'static str) {
        match self {
            Behavior::FollowRoute(_) => "FollowRoute",
            Behavior::SkidRecover(_) => "SkidRecover",
            Behavior::GetToFlatGround(_) => "GetToFlatGround",
            Behavior::While(_) => "While",
        }
    }

    /// The priority composite behaviors weigh this behavior at; a `While`
    /// wrapper carries its child's priority.
    pub fn priority(&self) -> (r: Priority)
        ensures
            r == behavior_priority(*self),
        decreases behavior_height(*self),
    {
        match self {
            Behavior::FollowRoute(_) => Priority::Idle,
            Behavior::SkidRecover(_) => Priority::Force,
            Behavior::GetToFlatGround(_) => Priority::Force,
            Behavior::While(w) => w.child.priority(),
        }
    }

    /// Resume this behavior for one tick and produce its action.
    pub fn execute(&mut self, ctx: &Context) -> (r: Action)
        requires
            behavior_wf(*old(self)),
            context_ok(*ctx),
        ensures
            behavior_wf(*final(self)),
            r matches Action::Call(b) ==> behavior_wf(*b),
            r matches Action::RootCall(b) ==> behavior_wf(*b),
            r matches Action::TailCall(b) ==> behavior_wf(*b),
            behavior_post(*old(self), *final(self), *ctx, r),
        decreases behavior_height(*old(self)),
    {
        match self {
            Behavior::FollowRoute(fr) => fr.execute(ctx),
            Behavior::SkidRecover(s) => s.execute(ctx),
            Behavior::GetToFlatGround(g) => g.execute(ctx),
            Behavior::While(w) => {
                let keep = w.predicate.evaluate(ctx);
                if !keep {
                    Action::Return
                } else {
                    w.child.execute(ctx)
                }
            },
        }
    }
}

} // verus!
