//! Bounded parallel screenshot-capture pipeline.
//!
//! The library holds the verified core of a tool that drives an external
//! browser engine to capture one screenshot per target URL: validating and
//! partitioning the input, bounding how many captures run at once, deciding
//! each capture's outcome under a liveness probe and a hard timeout, naming
//! the output files deterministically and collision-free, and supervising
//! the driver process's lifecycle. The unverified shell around it performs
//! the actual process spawning, network probes, browser protocol calls and
//! file writes, and feeds their results back into these state machines as
//! plain events.

pub mod config;
pub mod filename;
pub mod outcome;
pub mod partition;
pub mod scheduler;
pub mod supervisor;
pub mod target;
