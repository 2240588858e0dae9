//! Decision-and-control core for a single simulated ground vehicle.
//!
//! Each fixed time step the library predicts the near-future trajectory of a
//! moving ball, searches that prediction for an intercept the car can reach,
//! plans a multi-segment ground route (turn, then straight drive), executes
//! the committed segment one control command per tick, and surfaces the whole
//! thing as a resumable behavior inside a priority-ordered behavior stack.
//!
//! All physical quantities are fixed-point integers: distances in thousandths
//! of a game unit, speeds in thousandths of a game unit per second, angles in
//! microradians, time in milliseconds. Every executable function is verified;
//! contracts are stated over spec-level mirrors of the arithmetic.

pub mod ball;
pub mod behavior;
pub mod drive;
pub mod engine;
pub mod geom;
pub mod intercept;
pub mod route;
pub mod scenario;
pub mod segment;
