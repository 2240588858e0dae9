//! A simplified one-dimensional model of the car's straight-line motion:
//! throttle or boost-assisted acceleration toward a capped top speed, with
//! the distance covered integrated at the same fixed step as the ball model.

use vstd::prelude::*;

use crate::ball::DT_MS;
use crate::geom::{abs_spec, clamp_spec, div_zero_spec, muldiv, muldiv_spec};

verus! {

/// The top speed the car can reach with boost, in milli-units per second.
pub const CAR_MAX_SPEED: i64 = 2_300_000;

/// The top speed the car can reach on throttle alone.
pub const CAR_NORMAL_SPEED: i64 = 1_410_000;

/// Acceleration from full throttle, in milli-units per second per second.
pub const THROTTLE_ACCEL: i64 = 1_600_000;

/// Extra acceleration while boosting.
pub const BOOST_ACCEL: i64 = 991_000;

/// A full boost tank, in milli-points.
pub const BOOST_FULL: i64 = 100_000;

/// Boost burned in one step, in milli-points.
pub const BOOST_BURN_STEP: i64 = 533;

/// The 1-D car: current speed, boost left, distance covered so far and the
/// simulated time, all in the fixed-point units of the crate.
#[derive(Clone, Copy, Debug, PartialEq, Eq, Structural)]
pub struct Car1D {
    pub speed: i64,
    pub boost: i64,
    pub distance: i64,
    pub time_ms: i64,
}

/// The well-formed states of the 1-D car model.
pub open spec fn car_ok(c: Car1D) -> bool {
    &&& 0 <= c.speed <= CAR_MAX_SPEED
    &&& 0 <= c.boost <= BOOST_FULL
    &&& 0 <= c.time_ms <= 100_000_000
    &&& 0 <= c.distance
    &&& c.distance * 1000 <= c.time_ms * CAR_MAX_SPEED
}

/// One step of the 1-D model under a throttle in `[0, 1000]` and a boost
/// switch. Boost both accelerates harder and raises the speed cap; a speed
/// already above the cap is kept, not cut.
pub open spec fn step_car_spec(c: Car1D, throttle: int, boost_on: bool) -> Car1D {
    let boosting = boost_on && c.boost > 0;
    let accel = if boosting {
        (THROTTLE_ACCEL + BOOST_ACCEL) as int
    } else {
        muldiv_spec(throttle, THROTTLE_ACCEL as int, 1000)
    };
    let cap = if boosting {
        CAR_MAX_SPEED as int
    } else {
        CAR_NORMAL_SPEED as int
    };
    let speed1 = if c.speed >= cap {
        c.speed as int
    } else {
        clamp_spec(c.speed + div_zero_spec(accel * DT_MS, 1000), 0, cap)
    };
    let dist1 = c.distance + div_zero_spec(speed1 * DT_MS, 1000);
    let boost1 = if boosting {
        clamp_spec(c.boost - BOOST_BURN_STEP, 0, BOOST_FULL as int)
    } else {
        c.boost as int
    };
    Car1D {
        speed: speed1 as i64,
        boost: boost1 as i64,
        distance: dist1 as i64,
        time_ms: (c.time_ms + DT_MS) as i64,
    }
}

/// The 1-D car after `k` steps at the given controls.
pub open spec fn car_after(c: Car1D, throttle: int, boost_on: bool, k: nat) -> Car1D
    decreases k,
{
    if k == 0 {
        c
    } else {
        step_car_spec(car_after(c, throttle, boost_on, (k - 1) as nat), throttle, boost_on)
    }
}

impl Car1D {
    /// A fresh model at the given speed and boost, before any distance is
    /// covered.
    pub fn new(speed: i64, boost: i64) -> (r: Car1D)
        ensures
            r == (Car1D {
                speed: clamp_spec(speed as int, 0, CAR_MAX_SPEED as int) as i64,
                boost: clamp_spec(boost as int, 0, BOOST_FULL as int) as i64,
                distance: 0,
                time_ms: 0,
            }),
            car_ok(r),
    {
        let speed = crate::geom::clamp_i64(speed, 0, CAR_MAX_SPEED);
        let boost = crate::geom::clamp_i64(boost, 0, BOOST_FULL);
        Car1D { speed, boost, distance: 0, time_ms: 0 }
    }

    /// Advance the model one step.
    pub fn step(&mut self, throttle: i64, boost_on: bool) -> (r: ())
        requires
            car_ok(*old(self)),
            0 <= throttle <= 1000,
            old(self).time_ms + DT_MS <= 100_000_000,
        ensures
            *final(self) == step_car_spec(*old(self), throttle as int, boost_on),
            car_ok(*final(self)),
            final(self).distance >= old(self).distance,
            final(self).time_ms == old(self).time_ms + DT_MS,
    {
        let boosting = boost_on && self.boost > 0;
        let accel: i64 = if boosting {
            THROTTLE_ACCEL + BOOST_ACCEL
        } else {
            muldiv(throttle, THROTTLE_ACCEL, 1000)
        };
        proof {
            assert(abs_spec(accel as int) <= 2_591_000);
        }
        let cap: i64 = if boosting {
            CAR_MAX_SPEED
        } else {
            CAR_NORMAL_SPEED
        };
        let speed1: i64 = if self.speed >= cap {
            self.speed
        } else {
            crate::geom::clamp_i64(self.speed + muldiv(accel, DT_MS, 1000), 0, cap)
        };
        let dstep: i64 = muldiv(speed1, DT_MS, 1000);
        proof {
            assert(0 <= dstep <= CAR_MAX_SPEED);
            assert(muldiv_spec(speed1 as int, DT_MS as int, 1000) * 1000 <= (speed1 as int) * (
            DT_MS as int)) by (nonlinear_arith)
                requires
                    0 <= speed1,
                    DT_MS > 0,
                    muldiv_spec(speed1 as int, DT_MS as int, 1000) == ((speed1 as int) * (DT_MS
                        as int)) / 1000,
            ;
            assert((speed1 as int) * (DT_MS as int) <= CAR_MAX_SPEED * DT_MS) by (nonlinear_arith)
                requires
                    0 <= speed1 <= CAR_MAX_SPEED,
                    DT_MS > 0,
            ;
        }
        let boost1: i64 = if boosting {
            crate::geom::clamp_i64(self.boost - BOOST_BURN_STEP, 0, BOOST_FULL)
        } else {
            self.boost
        };
        self.speed = speed1;
        self.boost = boost1;
        self.distance = self.distance + dstep;
        self.time_ms = self.time_ms + DT_MS;
    }
}

} // verus!
