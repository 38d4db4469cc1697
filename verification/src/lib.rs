//! Pre-flight capability gate and deployment sequencer for a multi-container
//! application stack.
//!
//! The library holds the decision logic: threshold classification of host
//! metrics, the pass/fail capability gate, the report rows shown to the
//! operator, the command plans for each deployment mode, the fail-fast
//! sequencer that gates each step on the success of the one before it, and
//! the compose document used when deploying from published images. The
//! binary around it performs the probes and spawns the external tools.

pub mod classify;
pub mod errors;
pub mod gate;
pub mod checks;
pub mod text;
pub mod report;
pub mod paths;
pub mod plan;
pub mod sequencer;
pub mod compose;
