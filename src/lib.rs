//! Decision logic of a harness that watches how a cooperative scheduler
//! propagates cancellation to a background task holding a scoped resource.
//!
//! The library decides; the program around it performs the decisions on a
//! real runtime and reports back what happened.
pub mod harness;
pub mod signal;
pub mod strategy;
pub mod subscriber;
