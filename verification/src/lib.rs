//! Core logic of a boiler temperature monitor.
//!
//! A fixed set of temperature sensors is sampled on a fast cadence; each
//! reading is republished to a message broker, a fixed-length rolling history
//! per sensor is maintained on a slow cadence, and an aggregate energy
//! estimate is derived from the current readings.
//!
//! Temperatures are carried as signed millidegrees Celsius, energy values as
//! microkilowatt-hours, so that every computation is exact integer
//! arithmetic. The I/O shell around this library converts at its edges.

pub mod config;
pub mod cycle;
pub mod energy;
pub mod history;
pub mod text;
pub mod w1;
