//! Core logic of a micro-benchmark that times batches of intentionally
//! invalid blockchain "simulate transaction" RPC calls under two
//! concurrency strategies and reports both elapsed times.
//!
//! This crate holds the verified parts: the simulation-request model and
//! its invalidity invariant, the classification of call outcomes, the
//! batch bookkeeping shared by both strategy runners, and the rendering
//! of the final report. The network calls, the progress rendering and
//! the schedulers themselves live outside the library.

pub mod batch;
pub mod outcome;
pub mod report;
pub mod request;
