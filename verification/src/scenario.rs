//! Scripted data-collection scenarios: small state machines that decide,
//! from the simulation clock and the car's measured speed, which control
//! command to send next and whether the frame should be recorded. The
//! surrounding loop performs the sending and the recording; the decisions
//! live here.

use vstd::prelude::*;

use crate::drive::{CAR_MAX_SPEED, CAR_NORMAL_SPEED};
use crate::geom::{clamp_i64, clamp_spec, div_zero_spec};
use crate::segment::CarControls;

verus! {

/// What the scenario loop should do with the frame just decided: skip it,
/// record it, or stop the scenario.
#[derive(Clone, Copy, Debug, PartialEq, Eq, Structural)]
pub enum ScenarioStepResult {
    Ignore,
    Write,
    Finish,
}

/// Accelerate to a target speed, then hold full steer and handbrake for
/// three seconds while recording.
pub struct PowerslideTurn {
    pub start_speed: i64,
    pub handbrake_throttle: i64,
    pub start_time: Option<i64>,
}

/// The command the powerslide scenario sends while still accelerating.
pub open spec fn powerslide_accel_controls(start_speed: int) -> CarControls {
    CarControls {
        throttle: clamp_spec(div_zero_spec(start_speed, 1000), 0, 1000) as i64,
        steer: 0,
        pitch: 0,
        yaw: 0,
        roll: 0,
        jump: false,
        boost: start_speed >= CAR_NORMAL_SPEED,
        handbrake: false,
    }
}

/// The command the powerslide scenario sends while sliding.
pub open spec fn powerslide_slide_controls(handbrake_throttle: int) -> CarControls {
    CarControls {
        throttle: handbrake_throttle as i64,
        steer: 1000,
        pitch: 0,
        yaw: 0,
        roll: 0,
        jump: false,
        boost: false,
        handbrake: true,
    }
}

/// The powerslide scenario's bookkeeping stays on the simulation clock.
pub open spec fn powerslide_wf(p: PowerslideTurn) -> bool {
    match p.start_time {
        Some(st) => 0 <= st <= 100_000_000,
        None => true,
    }
}

impl PowerslideTurn {
    /// A powerslide scenario that will slide at `handbrake_throttle` once
    /// `start_speed` is reached.
    pub fn new(start_speed: i64, handbrake_throttle: i64) -> (r: PowerslideTurn)
        ensures
            r.start_speed == start_speed,
            r.handbrake_throttle == handbrake_throttle,
            r.start_time is None,
    {
        PowerslideTurn { start_speed, handbrake_throttle, start_time: None }
    }

    /// Decide one frame: accelerate until the target speed is first
    /// reached, then slide for three seconds of recorded frames.
    pub fn step(&mut self, time_ms: i64, current_speed: i64) -> (r: (
        CarControls,
        ScenarioStepResult,
    ))
        requires
            0 <= old(self).start_speed <= CAR_MAX_SPEED,
            -1000 <= old(self).handbrake_throttle <= 1000,
            0 <= time_ms <= 100_000_000,
            powerslide_wf(*old(self)),
        ensures
            powerslide_wf(*final(self)),
            final(self).start_speed == old(self).start_speed,
            final(self).handbrake_throttle == old(self).handbrake_throttle,
            final(self).start_time == (if old(self).start_time is None && current_speed >= old(
                self,
            ).start_speed {
                Some(time_ms)
            } else {
                old(self).start_time
            }),
            match final(self).start_time {
                None => r.0 == powerslide_accel_controls(old(self).start_speed as int) && r.1
                    is Ignore,
                Some(st) => {
                    &&& r.0 == powerslide_slide_controls(old(self).handbrake_throttle as int)
                    &&& (time_ms < st + 3000 ==> r.1 is Write)
                    &&& (time_ms >= st + 3000 ==> r.1 is Finish)
                },
            },
    {
        if self.start_time.is_none() && current_speed >= self.start_speed {
            self.start_time = Some(time_ms);
        }
        match self.start_time {
            None => {
                let throttle = clamp_i64(self.start_speed / 1000, 0, 1000);
                let controls = CarControls {
                    throttle,
                    steer: 0,
                    pitch: 0,
                    yaw: 0,
                    roll: 0,
                    jump: false,
                    boost: self.start_speed >= CAR_NORMAL_SPEED,
                    handbrake: false,
                };
                proof {
                    vstd::arithmetic::div_mod::lemma_div_pos_is_pos(self.start_speed as int, 1000);
                }
                (controls, ScenarioStepResult::Ignore)
            },
            Some(start_time) => {
                let controls = CarControls {
                    throttle: self.handbrake_throttle,
                    steer: 1000,
                    pitch: 0,
                    yaw: 0,
                    roll: 0,
                    jump: false,
                    boost: false,
                    handbrake: true,
                };
                if time_ms < start_time + 3000 {
                    (controls, ScenarioStepResult::Write)
                } else {
                    (controls, ScenarioStepResult::Finish)
                }
            },
        }
    }
}

/// The phases of the dodge scenario, each stamped with when it began.
#[derive(Clone, Copy, Debug, PartialEq, Eq, Structural)]
pub enum DodgePhase {
    Accelerate,
    Jump(i64),
    Wait(i64),
    Dodge(i64),
    Land(i64),
}

/// A phase's place in the fixed order the scenario moves through.
pub open spec fn dodge_phase_rank(p: DodgePhase) -> int {
    match p {
        DodgePhase::Accelerate => 0,
        DodgePhase::Jump(_) => 1,
        DodgePhase::Wait(_) => 2,
        DodgePhase::Dodge(_) => 3,
        DodgePhase::Land(_) => 4,
    }
}

/// Accelerate to a target speed, then jump, pause, dodge forward and ride
/// out the landing, recording everything after the acceleration.
pub struct Dodge {
    pub start_speed: i64,
    pub phase: DodgePhase,
}

/// The dodge scenario's phase stamps stay on the simulation clock.
pub open spec fn dodge_wf(d: Dodge) -> bool {
    match d.phase {
        DodgePhase::Accelerate => true,
        DodgePhase::Jump(st) => 0 <= st <= 100_000_000,
        DodgePhase::Wait(st) => 0 <= st <= 100_000_000,
        DodgePhase::Dodge(st) => 0 <= st <= 100_000_000,
        DodgePhase::Land(st) => 0 <= st <= 100_000_000,
    }
}

/// Which phase one `step` call settles in, given the clock and the speed:
/// phases whose time is up are passed through in order within the call.
pub open spec fn dodge_phase_after(p: DodgePhase, time_ms: int, speed: int) -> DodgePhase {
    match p {
        DodgePhase::Accelerate => DodgePhase::Accelerate,
        DodgePhase::Jump(st) => if time_ms - st >= 50 {
            DodgePhase::Wait(time_ms as i64)
        } else {
            p
        },
        DodgePhase::Wait(st) => if time_ms - st >= 50 {
            DodgePhase::Dodge(time_ms as i64)
        } else {
            p
        },
        DodgePhase::Dodge(st) => if time_ms - st >= 50 {
            DodgePhase::Land(time_ms as i64)
        } else {
            p
        },
        DodgePhase::Land(_) => p,
    }
}

impl Dodge {
    /// A dodge scenario that will jump once `start_speed` is reached.
    pub fn new(start_speed: i64) -> (r: Dodge)
        ensures
            r.start_speed == start_speed,
            r.phase is Accelerate,
    {
        Dodge { start_speed, phase: DodgePhase::Accelerate }
    }

    /// Decide one frame. In `Accelerate` the car throttles (and boosts past
    /// the normal top speed) until the target speed is reached, at which
    /// point the jump begins on the same frame. Each later phase holds its
    /// command for fifty milliseconds; the landing is ridden out for two
    /// seconds, then the scenario finishes.
    pub fn step(&mut self, time_ms: i64, current_speed: i64) -> (r: (
        CarControls,
        ScenarioStepResult,
    ))
        requires
            0 <= old(self).start_speed <= CAR_MAX_SPEED,
            0 <= time_ms <= 100_000_000,
            dodge_wf(*old(self)),
        ensures
            dodge_wf(*final(self)),
            final(self).start_speed == old(self).start_speed,
            old(self).phase is Accelerate && current_speed < old(self).start_speed ==> {
                &&& final(self).phase == old(self).phase
                &&& r.0 == powerslide_accel_controls(old(self).start_speed as int)
                &&& r.1 is Write
            },
            old(self).phase is Accelerate && current_speed >= old(self).start_speed ==> {
                &&& final(self).phase == DodgePhase::Jump(time_ms)
                &&& r.0.jump == true
                &&& r.1 is Write
            },
            !(old(self).phase is Accelerate) ==> final(self).phase == dodge_phase_after(
                old(self).phase,
                time_ms as int,
                current_speed as int,
            ),
            final(self).phase matches DodgePhase::Jump(_) ==> r.0.jump == true && r.1 is Write,
            final(self).phase matches DodgePhase::Wait(_) ==> r.0 == crate::segment::neutral_controls()
                && r.1 is Write,
            final(self).phase matches DodgePhase::Dodge(_) ==> r.0.jump == true && r.0.pitch
                == -1000 && r.1 is Write,
            final(self).phase matches DodgePhase::Land(st) ==> (r.0
                == crate::segment::neutral_controls() && (time_ms - st >= 2000 ==> r.1 is Finish)
                && (time_ms - st < 2000 ==> r.1 is Write)),
    {
        if matches!(self.phase, DodgePhase::Accelerate) {
            if current_speed >= self.start_speed {
                self.phase = DodgePhase::Jump(time_ms);
            } else {
                let throttle = clamp_i64(self.start_speed / 1000, 0, 1000);
                proof {
                    vstd::arithmetic::div_mod::lemma_div_pos_is_pos(self.start_speed as int, 1000);
                }
                let controls = CarControls {
                    throttle,
                    steer: 0,
                    pitch: 0,
                    yaw: 0,
                    roll: 0,
                    jump: false,
                    boost: self.start_speed >= CAR_NORMAL_SPEED,
                    handbrake: false,
                };
                return (controls, ScenarioStepResult::Write);
            }
        } else {
            let next = match self.phase {
                DodgePhase::Accelerate => DodgePhase::Accelerate,
                DodgePhase::Jump(st) => if time_ms - st >= 50 {
                    DodgePhase::Wait(time_ms)
                } else {
                    self.phase
                },
                DodgePhase::Wait(st) => if time_ms - st >= 50 {
                    DodgePhase::Dodge(time_ms)
                } else {
                    self.phase
                },
                DodgePhase::Dodge(st) => if time_ms - st >= 50 {
                    DodgePhase::Land(time_ms)
                } else {
                    self.phase
                },
                DodgePhase::Land(st) => self.phase,
            };
            self.phase = next;
        }
        match self.phase {
            DodgePhase::Accelerate => (
                crate::segment::neutral_controls_exec(),
                ScenarioStepResult::Write,
            ),
            DodgePhase::Jump(_) => {
                let controls = CarControls {
                    throttle: 0,
                    steer: 0,
                    pitch: 0,
                    yaw: 0,
                    roll: 0,
                    jump: true,
                    boost: false,
                    handbrake: false,
                };
                (controls, ScenarioStepResult::Write)
            },
            DodgePhase::Wait(_) => (
                crate::segment::neutral_controls_exec(),
                ScenarioStepResult::Write,
            ),
            DodgePhase::Dodge(_) => {
                let controls = CarControls {
                    throttle: 0,
                    steer: 0,
                    pitch: -1000,
                    yaw: 0,
                    roll: 0,
                    jump: true,
                    boost: false,
                    handbrake: false,
                };
                (controls, ScenarioStepResult::Write)
            },
            DodgePhase::Land(st) => {
                if time_ms - st >= 2000 {
                    (crate::segment::neutral_controls_exec(), ScenarioStepResult::Finish)
                } else {
                    (crate::segment::neutral_controls_exec(), ScenarioStepResult::Write)
                }
            },
        }
    }
}

} // verus!
