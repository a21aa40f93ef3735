//! A verified model of a PLONKish arithmetization of a Fibonacci-style
//! recurrence over a finite field: column/gate configuration, the witness
//! assignment protocol, the driver that chains the per-step regions, and the
//! verifier that checks gates, copy constraints and public-input bindings.

pub mod field;
pub mod laws;
pub mod recurrence;
pub mod runner;
pub mod sizing;
pub mod chip;
pub mod circuit;
pub mod checking;
pub mod system;
pub mod table;

