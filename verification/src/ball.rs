//! The trajectory predictor: a pure, deterministic forward simulation of the
//! ball under gravity, drag and collisions with the ground and the side
//! walls, at a fixed step over a bounded horizon.

use vstd::prelude::*;

use crate::geom::{
    abs_spec, clamp_i64, clamp_spec, div_zero_spec, muldiv, vec3_bounded, Vec3, COORD_MAX,
};

verus! {

/// One simulation step, in milliseconds (about a sixtieth of a second).
pub const DT_MS: i64 = 16;

/// How many steps one prediction covers.
pub const HORIZON_STEPS: usize = 200;

/// The change gravity makes to the vertical speed in one step, in
/// milli-units per second.
pub const GRAV_STEP_MILLI: i64 = -10_400;

/// The ball's radius, in milli-units.
pub const BALL_RADIUS_MILLI: i64 = 92_750;

/// The largest speed the model lets the ball reach, per axis, in milli-units
/// per second.
pub const BALL_SPEED_MAX: i64 = 6_000_000;

/// Air drag per step, in thousandths kept.
pub const DRAG_MILLI: i64 = 997;

/// Energy kept by a bounce, in thousandths.
pub const BOUNCE_MILLI: i64 = 600;

/// Half the field's width (the x walls), in milli-units.
pub const FIELD_X_MILLI: i64 = 4_096_000;

/// Half the field's length (the y walls), in milli-units.
pub const FIELD_Y_MILLI: i64 = 5_120_000;

/// The largest height the model tracks, in milli-units.
pub const CEILING_MILLI: i64 = 2_044_000;

/// The ball's physical state at one instant.
#[derive(Clone, Copy, Debug, PartialEq, Eq, Structural)]
pub struct BallState {
    pub loc: Vec3,
    pub vel: Vec3,
}

/// The ball's predicted state at one future instant, `t_ms` after now.
#[derive(Clone, Copy, Debug, PartialEq, Eq, Structural)]
pub struct PredictedFrame {
    pub t_ms: i64,
    pub loc: Vec3,
    pub vel: Vec3,
}

/// Where the walls keep the ball: one step of the model never leaves the
/// ball's center outside these planar bounds.
pub open spec fn ball_in_field(v: Vec3) -> bool {
    &&& -(FIELD_X_MILLI - BALL_RADIUS_MILLI) <= v.x <= FIELD_X_MILLI - BALL_RADIUS_MILLI
    &&& -(FIELD_Y_MILLI - BALL_RADIUS_MILLI) <= v.y <= FIELD_Y_MILLI - BALL_RADIUS_MILLI
}

/// Whether a ball state lies within the bounds the model keeps it in.
pub open spec fn ball_ok(b: BallState) -> bool {
    &&& vec3_bounded(b.loc)
    &&& -BALL_SPEED_MAX <= b.vel.x <= BALL_SPEED_MAX
    &&& -BALL_SPEED_MAX <= b.vel.y <= BALL_SPEED_MAX
    &&& -BALL_SPEED_MAX <= b.vel.z <= BALL_SPEED_MAX
}

/// One step of the ball model: drag on every axis, gravity on the vertical
/// one, integration of the position, then a damped bounce off the ground,
/// the x walls and the y walls, and a stop at the ceiling.
pub open spec fn step_ball_spec(b: BallState) -> BallState {
    let vx0 = div_zero_spec(b.vel.x * DRAG_MILLI, 1000);
    let vy0 = div_zero_spec(b.vel.y * DRAG_MILLI, 1000);
    let vz0 = clamp_spec(
        div_zero_spec(b.vel.z * DRAG_MILLI, 1000) + GRAV_STEP_MILLI,
        -BALL_SPEED_MAX as int,
        BALL_SPEED_MAX as int,
    );
    let x0 = clamp_spec(
        b.loc.x + div_zero_spec(vx0 * DT_MS, 1000),
        -COORD_MAX as int,
        COORD_MAX as int,
    );
    let y0 = clamp_spec(
        b.loc.y + div_zero_spec(vy0 * DT_MS, 1000),
        -COORD_MAX as int,
        COORD_MAX as int,
    );
    let z0 = clamp_spec(
        b.loc.z + div_zero_spec(vz0 * DT_MS, 1000),
        -COORD_MAX as int,
        COORD_MAX as int,
    );
    let ground = z0 <= BALL_RADIUS_MILLI && vz0 < 0;
    let z1 = if ground {
        BALL_RADIUS_MILLI as int
    } else if z0 > CEILING_MILLI {
        CEILING_MILLI as int
    } else {
        z0
    };
    let vz1 = if ground {
        div_zero_spec(-vz0 * BOUNCE_MILLI, 1000)
    } else if z0 > CEILING_MILLI && vz0 > 0 {
        0int
    } else {
        vz0
    };
    let x_wall = FIELD_X_MILLI - BALL_RADIUS_MILLI;
    let x1 = clamp_spec(x0, -x_wall as int, x_wall as int);
    let vx1 = if (x0 >= x_wall && vx0 > 0) || (x0 <= -x_wall && vx0 < 0) {
        div_zero_spec(-vx0 * BOUNCE_MILLI, 1000)
    } else {
        vx0
    };
    let y_wall = FIELD_Y_MILLI - BALL_RADIUS_MILLI;
    let y1 = clamp_spec(y0, -y_wall as int, y_wall as int);
    let vy1 = if (y0 >= y_wall && vy0 > 0) || (y0 <= -y_wall && vy0 < 0) {
        div_zero_spec(-vy0 * BOUNCE_MILLI, 1000)
    } else {
        vy0
    };
    BallState {
        loc: Vec3 { x: x1 as i64, y: y1 as i64, z: z1 as i64 },
        vel: Vec3 { x: vx1 as i64, y: vy1 as i64, z: vz1 as i64 },
    }
}

/// The ball state `k` steps in the future.
pub open spec fn ball_after(b: BallState, k: nat) -> BallState
    decreases k,
{
    if k == 0 {
        b
    } else {
        step_ball_spec(ball_after(b, (k - 1) as nat))
    }
}

/// One step of the ball model, executable.
pub fn step_ball(b: &BallState) -> (r: BallState)
    requires
        ball_ok(*b),
    ensures
        r == step_ball_spec(*b),
        ball_ok(r),
        ball_in_field(r.loc),
{
    let vx0 = muldiv(b.vel.x, DRAG_MILLI, 1000);
    let vy0 = muldiv(b.vel.y, DRAG_MILLI, 1000);
    proof {
        assert(abs_spec(vx0 as int) <= 6_000_000);
        assert(abs_spec(vy0 as int) <= 6_000_000);
    }
    let vz0 = clamp_i64(
        muldiv(b.vel.z, DRAG_MILLI, 1000) + GRAV_STEP_MILLI,
        -BALL_SPEED_MAX,
        BALL_SPEED_MAX,
    );
    proof {
        assert(abs_spec(vz0 as int) <= 6_000_000);
    }
    let x0 = clamp_i64(b.loc.x + muldiv(vx0, DT_MS, 1000), -COORD_MAX, COORD_MAX);
    let y0 = clamp_i64(b.loc.y + muldiv(vy0, DT_MS, 1000), -COORD_MAX, COORD_MAX);
    let z0 = clamp_i64(b.loc.z + muldiv(vz0, DT_MS, 1000), -COORD_MAX, COORD_MAX);
    let ground = z0 <= BALL_RADIUS_MILLI && vz0 < 0;
    let z1 = if ground {
        BALL_RADIUS_MILLI
    } else if z0 > CEILING_MILLI {
        CEILING_MILLI
    } else {
        z0
    };
    let vz1 = if ground {
        muldiv(-vz0, BOUNCE_MILLI, 1000)
    } else if z0 > CEILING_MILLI && vz0 > 0 {
        0
    } else {
        vz0
    };
    let x_wall = FIELD_X_MILLI - BALL_RADIUS_MILLI;
    let x1 = clamp_i64(x0, -x_wall, x_wall);
    let vx1 = if (x0 >= x_wall && vx0 > 0) || (x0 <= -x_wall && vx0 < 0) {
        muldiv(-vx0, BOUNCE_MILLI, 1000)
    } else {
        vx0
    };
    let y_wall = FIELD_Y_MILLI - BALL_RADIUS_MILLI;
    let y1 = clamp_i64(y0, -y_wall, y_wall);
    let vy1 = if (y0 >= y_wall && vy0 > 0) || (y0 <= -y_wall && vy0 < 0) {
        muldiv(-vy0, BOUNCE_MILLI, 1000)
    } else {
        vy0
    };
    BallState { loc: Vec3 { x: x1, y: y1, z: z1 }, vel: Vec3 { x: vx1, y: vy1, z: vz1 } }
}

/// What `predict` promises of its result: exactly one frame per step of the
/// horizon, each carrying the iterated model state and its time offset.
pub open spec fn prediction_of(b: BallState, frames: Seq<PredictedFrame>) -> bool {
    &&& frames.len() == HORIZON_STEPS
    &&& forall|i: int|
        0 <= i < frames.len() ==> #[trigger] frames[i] == (PredictedFrame {
            t_ms: ((i + 1) * DT_MS) as i64,
            loc: ball_after(b, (i + 1) as nat).loc,
            vel: ball_after(b, (i + 1) as nat).vel,
        })
}

/// Predict the ball's flight over the whole horizon. Pure and deterministic:
/// the result is exactly the iterated one-step model.
pub fn predict(b: &BallState) -> (frames: Vec<PredictedFrame>)
    requires
        ball_ok(*b),
    ensures
        prediction_of(*b, frames@),
        forall|i: int| 0 <= i < frames@.len() ==> ball_ok(
            BallState { loc: #[trigger] frames@[i].loc, vel: frames@[i].vel },
        ),
        forall|i: int| 0 <= i < frames@.len() ==> ball_in_field(#[trigger] frames@[i].loc),
{
    let mut frames: Vec<PredictedFrame> = Vec::new();
    let mut cur: BallState = *b;
    let mut i: usize = 0;
    while i < HORIZON_STEPS
        invariant
            0 <= i <= HORIZON_STEPS,
            frames@.len() == i,
            ball_ok(cur),
            cur == ball_after(*b, i as nat),
            ball_ok(*b),
            forall|j: int|
                0 <= j < i ==> #[trigger] frames@[j] == (PredictedFrame {
                    t_ms: ((j + 1) * DT_MS) as i64,
                    loc: ball_after(*b, (j + 1) as nat).loc,
                    vel: ball_after(*b, (j + 1) as nat).vel,
                }),
            forall|j: int| 0 <= j < i ==> ball_ok(
                BallState { loc: #[trigger] frames@[j].loc, vel: frames@[j].vel },
            ),
            forall|j: int| 0 <= j < i ==> ball_in_field(#[trigger] frames@[j].loc),
        decreases HORIZON_STEPS - i,
    {
        let next = step_ball(&cur);
        proof {
            assert(ball_after(*b, (i + 1) as nat) == step_ball_spec(ball_after(*b, i as nat)));
        }
        cur = next;
        let t: i64 = (i as i64 + 1) * DT_MS;
        frames.push(PredictedFrame { t_ms: t, loc: cur.loc, vel: cur.vel });
        i = i + 1;
    }
    frames
}

/// Prediction is deterministic: two predictions from the same ball state are
/// the same sequence, frame for frame.
pub proof fn lemma_predict_deterministic(
    b: BallState,
    f1: Seq<PredictedFrame>,
    f2: Seq<PredictedFrame>,
)
    requires
        prediction_of(b, f1),
        prediction_of(b, f2),
    ensures
        f1 == f2,
{
    assert forall|i: int| 0 <= i < f1.len() implies f1[i] == f2[i] by {
        assert(f1[i] == (PredictedFrame {
            t_ms: ((i + 1) * DT_MS) as i64,
            loc: ball_after(b, (i + 1) as nat).loc,
            vel: ball_after(b, (i + 1) as nat).vel,
        }));
    }
    assert(f1 =~= f2);
}

} // verus!
