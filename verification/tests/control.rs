//! Tests for the segments and their runners, the route planner with its
//! provisional expansion, the behaviors and the engine, and the scripted
//! scenarios.

use brain::ball::{predict, BallState};
use brain::behavior::{
    Action, Behavior, Context, FollowRoute, GetToFlatGround, PlannerSlot, Predicate, Priority,
    SkidRecover, TimeLimit, While,
};
use brain::engine::Runner;
use brain::geom::{Vec2, Vec3, HALF_PI_URAD, PI_URAD};
use brain::route::{
    avoid_goal_wall_waypoint, avoid_plowing_into_goal_wall, is_recoverable, plan, RoutePlanError,
    RoutePlanner,
};
use brain::scenario::{Dodge, DodgePhase, PowerslideTurn, ScenarioStepResult};
use brain::segment::{plan_straight_segment, plan_turn_segment, CarState, Segment, SegmentRunAction};

fn car_at(x: i64, y: i64, yaw: i64) -> CarState {
    CarState { loc: Vec2 { x, y }, yaw, speed: 0, boost: 100_000, on_flat_ground: true, skidding: false }
}

fn descending_ball() -> BallState {
    BallState { loc: Vec3 { x: 2_000_000, y: 0, z: 1_100_000 }, vel: Vec3 { x: 0, y: 0, z: -500_000 } }
}

fn unreachable_ball() -> BallState {
    BallState { loc: Vec3 { x: 4_000_000, y: 5_000_000, z: 93_000 }, vel: Vec3 { x: 0, y: 0, z: 0 } }
}

fn ctx_with(me: CarState, ball: BallState) -> Context {
    let frames = predict(&ball);
    Context { me, ball, ball_prediction: frames, time_ms: 0 }
}

#[test]
fn turn_segment_geometry_quarter_turn() {
    // Facing along x, target straight up the y axis: a ninety-degree left
    // turn of the base radius.
    let start = car_at(0, 0, 0);
    let t = plan_turn_segment(start, Vec2 { x: 0, y: 2_000_000 });
    assert_eq!(t.sweep, HALF_PI_URAD);
    assert_eq!(t.radius, 250_000);
    assert_eq!(t.center, Vec2 { x: 0, y: 250_000 });
    assert_eq!(t.end.loc, Vec2 { x: 250_000, y: 250_000 });
    assert_eq!(t.end.yaw, HALF_PI_URAD);
    assert_eq!(t.start, start);
}

#[test]
fn turn_duration_is_arc_over_assumed_speed() {
    // A quarter turn of the base radius at rest: about a quarter second at
    // the slowest assumed turning speed.
    let start = car_at(0, 0, 0);
    let t = plan_turn_segment(start, Vec2 { x: 0, y: 2_000_000 });
    assert_eq!(Segment::Turn(t).duration_ms(), 245);
}

#[test]
fn straight_segment_geometry() {
    let start = car_at(0, 0, 0);
    let s = plan_straight_segment(start, Vec2 { x: 3_000_000, y: 4_000_000 });
    assert_eq!(s.dist_milli, 5_000_000);
    assert_eq!(s.end.loc, Vec2 { x: 3_000_000, y: 4_000_000 });
    // Planned at the slowest assumed speed: five seconds for five thousand
    // units.
    assert_eq!(s.duration_ms, 5_000);
    assert_eq!(s.end.speed, 1_000_000);
}

#[test]
fn turn_runner_completes_within_three_degrees() {
    // A turn with sweep plus ninety degrees: spin the car in place as the
    // runner asks until it reports Success, then check the yaw against the
    // segment's nominal end heading.
    let start = car_at(0, 0, 0);
    let t = plan_turn_segment(start, Vec2 { x: 0, y: 2_000_000 });
    let seg = Segment::Turn(t);
    let runner = seg.run();
    let mut me = start;
    let mut done = false;
    for _ in 0..400 {
        match runner.execute(&me) {
            SegmentRunAction::Success => {
                done = true;
                break;
            },
            SegmentRunAction::Failure => panic!("turn failed"),
            SegmentRunAction::Yield(cmd) => {
                assert_eq!(cmd.throttle, 1000);
                // Rotate in place, twenty milliradians per tick, in the
                // steered direction.
                let dyaw = if cmd.steer >= 0 { 20_000 } else { -20_000 };
                me.yaw += dyaw;
            },
        }
    }
    assert!(done, "turn never completed");
    let err = (me.yaw - t.end.yaw).abs();
    assert!(err <= 52_360, "yaw error {} above three degrees", err);
}

#[test]
fn turn_runner_fails_off_the_ground() {
    let start = car_at(0, 0, 0);
    let t = plan_turn_segment(start, Vec2 { x: 0, y: 2_000_000 });
    let runner = Segment::Turn(t).run();
    let mut airborne = start;
    airborne.on_flat_ground = false;
    assert_eq!(runner.execute(&airborne), SegmentRunAction::Failure);
}

#[test]
fn straight_runner_succeeds_on_arrival() {
    let start = car_at(0, 0, 0);
    let s = plan_straight_segment(start, Vec2 { x: 1_000_000, y: 0 });
    let runner = Segment::Straight(s).run();
    // Far away: drive, boosting while boost remains — the same assisted
    // model the intercept search promised reachability with.
    match runner.execute(&start) {
        SegmentRunAction::Yield(cmd) => {
            assert_eq!(cmd.throttle, 1000);
            assert_eq!(cmd.steer, 0);
            assert!(cmd.boost);
        },
        other => panic!("expected a command, got {:?}", other),
    }
    // An empty tank drives on throttle alone.
    let mut dry = start;
    dry.boost = 0;
    match runner.execute(&dry) {
        SegmentRunAction::Yield(cmd) => assert!(!cmd.boost),
        other => panic!("expected a command, got {:?}", other),
    }
    // Within the arrival tolerance: done.
    let near = car_at(950_000, 0, 0);
    assert_eq!(runner.execute(&near), SegmentRunAction::Success);
}

#[test]
fn ground_intercept_plan_commits_turn_then_straight() {
    let me = car_at(0, 0, 0);
    let ball = descending_ball();
    let frames = predict(&ball);
    let r = plan(&RoutePlanner::GroundIntercept, me, &frames).expect("plan expected");
    match &r.segment {
        Segment::Turn(t) => {
            assert_eq!(t.start, me);
            assert_eq!(t.target_loc, Vec2 { x: 2_000_000, y: 0 });
        },
        other => panic!("expected a turn, got {:?}", other),
    }
    assert!(matches!(r.next, Some(RoutePlanner::GroundInterceptStraight)));
}

#[test]
fn committed_two_segment_plan_is_continuous() {
    // Plan, then provisionally expand the deferred rest: the committed
    // segment's end state must equal the next segment's start state, field
    // for field, with zero tolerance.
    let me = car_at(0, 0, 0);
    let ball = descending_ball();
    let frames = predict(&ball);
    let r = plan(&RoutePlanner::GroundIntercept, me, &frames).expect("plan expected");
    let tail = r.provisional_expand(&frames).expect("expansion expected");
    assert_eq!(tail.len(), 1);
    assert_eq!(r.segment.end(), tail[0].start());
}

#[test]
fn plan_rejects_a_start_off_flat_ground() {
    let mut me = car_at(0, 0, 0);
    me.on_flat_ground = false;
    let frames = predict(&descending_ball());
    let r = plan(&RoutePlanner::GroundIntercept, me, &frames);
    let e = match r {
        Err(e) => e,
        Ok(_) => panic!("expected an error"),
    };
    assert_eq!(e, RoutePlanError::MustBeOnFlatGround);
}

#[test]
fn plan_reports_unknown_intercept_as_fatal() {
    let me = car_at(-3_500_000, -5_000_000, 0);
    let frames = predict(&unreachable_ball());
    let r = plan(&RoutePlanner::GroundIntercept, me, &frames);
    let e = match r {
        Err(e) => e,
        Ok(_) => panic!("expected an error"),
    };
    assert_eq!(e, RoutePlanError::UnknownIntercept);
    assert!(!is_recoverable(&e));
}

#[test]
fn skidding_start_is_redirected_to_recovery() {
    // The skid-recovery error carries the intercept aim point as its
    // recovery target: never a plain straight-drive plan.
    let mut me = car_at(0, 0, 0);
    me.skidding = true;
    let frames = predict(&descending_ball());
    let r = plan(&RoutePlanner::GroundIntercept, me, &frames);
    let e = match r {
        Err(e) => e,
        Ok(_) => panic!("expected an error"),
    };
    match e {
        RoutePlanError::MustNotBeSkidding { recover_target_loc } => {
            assert_eq!(recover_target_loc, Vec2 { x: 1_760_000, y: 0 });
            assert!(is_recoverable(&RoutePlanError::MustNotBeSkidding { recover_target_loc }));
        },
        other => panic!("expected the skid error, got {:?}", other),
    }
}

#[test]
fn expansion_reports_out_of_bounds() {
    // A fast half-turn right at the edge of the planning area carries the
    // car outside it; the deferred leg is rejected before it is planned.
    let mut me = car_at(-34_000_000, 0, HALF_PI_URAD);
    me.speed = 2_300_000;
    let frames = predict(&descending_ball());
    let planner = RoutePlanner::TurnTo {
        target_loc: Vec2 { x: -34_000_000, y: -5_000_000 },
        next: Some(Box::new(RoutePlanner::StraightTo { target_loc: Vec2 { x: 0, y: 0 } })),
    };
    let r = plan(&planner, me, &frames).expect("the turn itself plans fine");
    match &r.segment {
        Segment::Turn(t) => assert_eq!(t.sweep, PI_URAD),
        other => panic!("expected a turn, got {:?}", other),
    }
    let e = r.provisional_expand(&frames).unwrap_err();
    assert_eq!(e, RoutePlanError::OutOfBounds);
}

#[test]
fn expansion_reports_an_endless_chain() {
    // Nine deferred turns exceed the expansion budget.
    let mut p = RoutePlanner::TurnTo { target_loc: Vec2 { x: 1_000_000, y: 0 }, next: None };
    for _ in 0..9 {
        p = RoutePlanner::TurnTo {
            target_loc: Vec2 { x: 1_000_000, y: 0 },
            next: Some(Box::new(p)),
        };
    }
    let me = car_at(0, 0, 0);
    let frames = predict(&descending_ball());
    let r = plan(&p, me, &frames).expect("the first turn plans fine");
    let e = r.provisional_expand(&frames).unwrap_err();
    assert_eq!(e, RoutePlanError::NoPath);
}

#[test]
fn failed_expansion_commits_nothing() {
    // The deferred planner cannot find an intercept, so the whole plan is
    // rejected up front: the route aborts and no segment ever got a runner.
    let me = car_at(-3_500_000, -5_000_000, 0);
    let ctx = ctx_with(me, unreachable_ball());
    let mut fr = FollowRoute::new(RoutePlanner::TurnTo {
        target_loc: Vec2 { x: 0, y: 0 },
        next: Some(Box::new(RoutePlanner::GroundIntercept)),
    });
    let action = fr.execute(&ctx);
    assert!(matches!(action, Action::Abort));
    assert_eq!(fr.draw().len(), 0);
}

#[test]
fn follow_route_yields_toward_the_intercept() {
    let me = car_at(0, 0, 0);
    let ctx = ctx_with(me, descending_ball());
    let mut fr = FollowRoute::new(RoutePlanner::GroundIntercept);
    match fr.execute(&ctx) {
        Action::Yield(cmd) => {
            assert_eq!(cmd.throttle, 1000);
            assert_eq!(cmd.steer, 0);
        },
        _ => panic!("expected a command"),
    }
    // The lookahead preview shows the committed segment and what follows.
    assert!(fr.draw().len() >= 1);
}

#[test]
fn never_recover_surfaces_abort() {
    // The circuit breaker: the same recoverable skid error aborts instead
    // of root-calling recovery when the route is marked never-recover.
    let mut me = car_at(0, 0, 0);
    me.skidding = true;
    let ctx = ctx_with(me, descending_ball());
    let mut breaker = FollowRoute::new(RoutePlanner::GroundIntercept).never_recover(true);
    assert!(matches!(breaker.execute(&ctx), Action::Abort));
    let ctx2 = ctx_with(me, descending_ball());
    let mut plain = FollowRoute::new(RoutePlanner::GroundIntercept);
    match plain.execute(&ctx2) {
        Action::RootCall(b) => match *b {
            Behavior::SkidRecover(s) => {
                assert_eq!(s.target_loc, Vec2 { x: 1_760_000, y: 0 });
            },
            _ => panic!("expected skid recovery"),
        },
        _ => panic!("expected recovery via RootCall"),
    }
}

#[test]
fn handle_error_maps_the_taxonomy() {
    let mut fr = FollowRoute::new(RoutePlanner::GroundIntercept);
    assert!(matches!(
        fr.handle_error(RoutePlanError::UnknownIntercept),
        Action::Abort
    ));
    assert!(matches!(
        fr.handle_error(RoutePlanError::MustBeOnFlatGround),
        Action::RootCall(_)
    ));
    let mut breaker = FollowRoute::new(RoutePlanner::GroundIntercept).never_recover(true);
    assert!(matches!(
        breaker.handle_error(RoutePlanError::MustBeOnFlatGround),
        Action::Abort
    ));
}

#[test]
fn ball_trajectory_watch_aborts_on_change() {
    let me = car_at(0, 0, 0);
    let ctx = ctx_with(me, descending_ball());
    let mut fr = FollowRoute::new(RoutePlanner::GroundIntercept).same_ball_trajectory(true);
    // First tick: the watcher arms itself and the route yields.
    assert!(matches!(fr.execute(&ctx), Action::Yield(_)));
    // The ball is struck: its velocity changes far past the tolerance.
    let mut struck = descending_ball();
    struck.vel.x = 1_000_000;
    let ctx2 = ctx_with(me, struck);
    assert!(matches!(fr.execute(&ctx2), Action::Abort));
}

#[test]
fn skid_recover_steers_toward_its_target() {
    let s = SkidRecover { target_loc: Vec2 { x: 0, y: 1_000_000 } };
    let ctx = ctx_with(car_at(0, 0, 0), descending_ball());
    match s.execute(&ctx) {
        Action::Yield(cmd) => {
            assert_eq!(cmd.throttle, 1000);
            // The target is ninety degrees to the left: full left steer.
            assert_eq!(cmd.steer, 1000);
        },
        _ => panic!("skid recovery always yields"),
    }
}

#[test]
fn get_to_flat_ground_returns_once_landed() {
    let g = GetToFlatGround {};
    let grounded = ctx_with(car_at(0, 0, 0), descending_ball());
    assert!(matches!(g.execute(&grounded), Action::Return));
    let mut me = car_at(0, 0, 0);
    me.on_flat_ground = false;
    let airborne = ctx_with(me, descending_ball());
    match g.execute(&airborne) {
        Action::Yield(cmd) => assert_eq!(cmd.throttle, 1000),
        _ => panic!("expected a command while airborne"),
    }
}

#[test]
fn while_behavior_stops_when_the_predicate_fails() {
    let child = Behavior::GetToFlatGround(GetToFlatGround {});
    let mut w = Behavior::While(While::new(TimeLimit { deadline_ms: 1000 }, child));
    let mut me = car_at(0, 0, 0);
    me.on_flat_ground = false;
    let mut early = ctx_with(me, descending_ball());
    early.time_ms = 500;
    assert!(matches!(w.execute(&early), Action::Yield(_)));
    let mut late = ctx_with(me, descending_ball());
    late.time_ms = 1500;
    assert!(matches!(w.execute(&late), Action::Return));
}

#[test]
fn time_limit_predicate_answers_the_clock() {
    let mut p = TimeLimit { deadline_ms: 100 };
    let mut ctx = ctx_with(car_at(0, 0, 0), descending_ball());
    ctx.time_ms = 99;
    assert!(p.evaluate(&ctx));
    ctx.time_ms = 100;
    assert!(!p.evaluate(&ctx));
}

#[test]
fn priorities_order_and_ties_keep_the_incumbent() {
    assert!(Priority::Strike.preempts(&Priority::Idle));
    assert!(Priority::Defense.preempts(&Priority::Idle));
    assert!(!Priority::Idle.preempts(&Priority::Defense));
    assert!(!Priority::Strike.preempts(&Priority::Strike));
}

#[test]
fn tail_calls_never_grow_the_stack() {
    let mut runner = Runner::new(Behavior::GetToFlatGround(GetToFlatGround {}));
    assert_eq!(runner.depth(), 1);
    for _ in 0..5 {
        runner.apply_action(Action::TailCall(Box::new(Behavior::GetToFlatGround(
            GetToFlatGround {},
        ))));
        assert_eq!(runner.depth(), 1);
    }
}

#[test]
fn stack_transitions_push_pop_and_replace() {
    let leaf = || Behavior::GetToFlatGround(GetToFlatGround {});
    let mut runner = Runner::new(leaf());
    runner.apply_action(Action::Call(Box::new(leaf())));
    assert_eq!(runner.depth(), 2);
    runner.apply_action(Action::Call(Box::new(leaf())));
    assert_eq!(runner.depth(), 3);
    runner.apply_action(Action::Return);
    assert_eq!(runner.depth(), 2);
    runner.apply_action(Action::RootCall(Box::new(leaf())));
    assert_eq!(runner.depth(), 1);
    runner.apply_action(Action::Abort);
    assert_eq!(runner.depth(), 0);
    // Pops on an empty stack stay empty.
    runner.apply_action(Action::Return);
    assert_eq!(runner.depth(), 0);
}

#[test]
fn engine_emits_one_command_per_tick() {
    let root = Behavior::FollowRoute(FollowRoute::new(RoutePlanner::GroundIntercept));
    let mut runner = Runner::new(root);
    let ctx = ctx_with(car_at(0, 0, 0), descending_ball());
    let cmd = runner.step(&ctx).expect("an active route emits a command");
    assert_eq!(cmd.throttle, 1000);
    assert_eq!(runner.depth(), 1);
}

#[test]
fn engine_is_idle_on_an_empty_stack() {
    let mut runner = Runner::new(Behavior::GetToFlatGround(GetToFlatGround {}));
    runner.apply_action(Action::Abort);
    let ctx = ctx_with(car_at(0, 0, 0), descending_ball());
    assert!(runner.step(&ctx).is_none());
}

#[test]
fn goal_wall_waypoint_cases() {
    // Heading across the goal line straight at the goal mouth: no waypoint.
    let into_goal = CarState {
        loc: Vec2 { x: 0, y: 4_900_000 },
        yaw: HALF_PI_URAD,
        speed: 0,
        boost: 0,
        on_flat_ground: true,
        skidding: false,
    };
    assert!(avoid_goal_wall_waypoint(&into_goal, Vec2 { x: 0, y: 5_500_000 }).is_none());
    // Crossing near the post: a corner waypoint, pulled in by the margin.
    let near_post = CarState { loc: Vec2 { x: 800_000, ..into_goal.loc }, ..into_goal };
    let w = avoid_goal_wall_waypoint(&near_post, Vec2 { x: 800_000, y: 5_500_000 })
        .expect("waypoint expected");
    assert_eq!(w, Vec2 { x: 767_755, y: 4_995_000 });
    // Both points on the same side of the goal line: nothing to avoid.
    assert!(avoid_goal_wall_waypoint(&into_goal, Vec2 { x: 0, y: 4_000_000 }).is_none());
    // The full route around the post: turn to the waypoint, then drive to it.
    match avoid_plowing_into_goal_wall(&near_post, Vec2 { x: 800_000, y: 5_500_000 }) {
        Some(RoutePlanner::Chained { head, tail }) => {
            assert!(matches!(*head, RoutePlanner::TurnTo { target_loc, .. } if target_loc == w));
            assert!(matches!(*tail, RoutePlanner::StraightTo { target_loc } if target_loc == w));
        },
        _ => panic!("expected the around-the-post route"),
    }
}

#[test]
fn follow_route_runs_out_after_its_chain() {
    // Once the planner slot is drained and the chain finished, the behavior
    // returns instead of planning again.
    let me = car_at(0, 0, 0);
    let ctx = ctx_with(me, descending_ball());
    let mut fr = FollowRoute::new(RoutePlanner::StraightTo {
        target_loc: Vec2 { x: 10_000, y: 0 },
    });
    // Already within the arrival tolerance: the single segment succeeds at
    // once and the route is done.
    assert!(matches!(fr.execute(&ctx), Action::Return));
    assert!(matches!(fr.planner, PlannerSlot::Started));
    // A second tick has nothing left to plan.
    let ctx2 = ctx_with(me, descending_ball());
    assert!(matches!(fr.execute(&ctx2), Action::Return));
}

#[test]
fn powerslide_turn_phases() {
    let mut s = PowerslideTurn::new(1_000_000, 500);
    // Too slow: accelerate, frame ignored.
    let (cmd, r) = s.step(0, 0);
    assert_eq!(cmd.throttle, 1000);
    assert!(!cmd.handbrake);
    assert_eq!(r, ScenarioStepResult::Ignore);
    // Fast enough: slide and record.
    let (cmd, r) = s.step(1600, 1_000_000);
    assert_eq!(cmd.throttle, 500);
    assert!(cmd.handbrake);
    assert_eq!(cmd.steer, 1000);
    assert_eq!(r, ScenarioStepResult::Write);
    // Three seconds later: finish.
    let (_, r) = s.step(1600 + 3000, 1_000_000);
    assert_eq!(r, ScenarioStepResult::Finish);
}

#[test]
fn powerslide_boosts_only_toward_high_targets() {
    let mut slow = PowerslideTurn::new(1_000_000, 1000);
    let (cmd, _) = slow.step(0, 0);
    assert!(!cmd.boost);
    let mut fast = PowerslideTurn::new(2_000_000, 1000);
    let (cmd, _) = fast.step(0, 0);
    assert!(cmd.boost);
}

#[test]
fn dodge_walks_its_phases() {
    let mut d = Dodge::new(1_000_000);
    // Accelerating.
    let (cmd, r) = d.step(0, 0);
    assert_eq!(cmd.throttle, 1000);
    assert_eq!(r, ScenarioStepResult::Write);
    assert_eq!(d.phase, DodgePhase::Accelerate);
    // Target speed reached: jump on the same frame.
    let (cmd, _) = d.step(160, 1_000_000);
    assert!(cmd.jump);
    assert_eq!(d.phase, DodgePhase::Jump(160));
    // Fifty milliseconds later: hands off.
    let (cmd, _) = d.step(220, 1_000_000);
    assert!(!cmd.jump);
    assert_eq!(d.phase, DodgePhase::Wait(220));
    // Fifty more: the dodge itself, pitched forward.
    let (cmd, _) = d.step(280, 1_000_000);
    assert!(cmd.jump);
    assert_eq!(cmd.pitch, -1000);
    assert_eq!(d.phase, DodgePhase::Dodge(280));
    // Fifty more: landing.
    let (cmd, r) = d.step(340, 1_000_000);
    assert!(!cmd.jump);
    assert_eq!(r, ScenarioStepResult::Write);
    assert_eq!(d.phase, DodgePhase::Land(340));
    // Two seconds of riding it out: finish.
    let (_, r) = d.step(340 + 2000, 1_000_000);
    assert_eq!(r, ScenarioStepResult::Finish);
}
