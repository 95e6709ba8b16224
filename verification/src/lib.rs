//! Delay generation for stepper-motor drivers.
//!
//! A [`Stepgen`] hands out, one call at a time, the number of timer ticks to
//! wait before the next step pulse, so that the motor ramps up to its target
//! speed, cruises, and ramps down to a stop exactly at its target.

pub mod error;
pub mod generator;
pub mod laws;
pub mod motion;
pub mod numeric;
pub mod recurrence;
pub mod resolver;
pub mod sequencer;

pub use error::{Error, OperatingMode};
pub use generator::Stepgen;
