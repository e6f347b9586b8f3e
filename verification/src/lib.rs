//! Deterministic crash-consistency testing for storage engines.
//!
//! A storage author marks crash points in the code under test and supplies a
//! workload and a verifier. A supervisor re-runs the test binary once per
//! crash point: an execution child dies at the chosen point, a verify child
//! then checks what survived on disk. This crate holds the rules of that
//! protocol: what a crash point does, how the crash record is written and
//! read back, where each run keeps its files, and what the supervisor decides
//! after each child ends.

pub mod env;
pub mod orchestrator;
pub mod paths;
pub mod record;
pub mod rt;
pub mod schedule;
pub mod text;
pub mod workspace;

pub use env::{CrashInfo, Env, PathError};
pub use rt::crash_point;
pub use crate::test::TestBuilder;
