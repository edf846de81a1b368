//! Batch compression with a bounded pool of workers.
//!
//! The crate holds the decisions of a batch compressor: which engine command
//! archives a path, what is reported of each outcome, and how a fixed set of
//! workers shares a queue of jobs so that every job runs exactly once.
//! Running the engine and the threads is left to the caller.

pub mod archiver;
pub mod job;
pub mod job_laws;
pub mod level;
pub mod outcome;
pub mod pool;
pub mod pool_laws;
pub mod pool_model;
