//! Orchestration of a batch of comic conversions.
//!
//! The library decides; its caller performs. [`comic`] holds the per-file
//! entity and the transitions that the outcomes of outside work drive,
//! [`pipeline`] the registration pass of a batch and the signal that ends
//! it, [`supervisor`] the loop that drives the helper processes of the
//! device-binary format, and [`invariants`] what holds of all of them.

pub mod comic;
pub mod pipeline;
pub mod supervisor;
pub mod invariants;
