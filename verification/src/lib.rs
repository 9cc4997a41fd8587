//! Core of a vehicle telemetry unit: turns sparse edge events from a wheel
//! sensor and a tachometer into rates (speed, engine RPM), holds them in a
//! shared store that edge handlers write and a periodic sampler reads, and
//! assembles immutable telemetry snapshots.
//!
//! Rates are carried as integers in milli-units (milli-km/h, milli-RPM) and
//! lengths in micrometres, so every value is exact and finite by construction.

pub mod rate;
pub mod state;
pub mod telemetry;
