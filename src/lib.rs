//! A narrow façade over a version-control engine: a closed outcome vocabulary
//! for engine failures, a fast-forward-only update policy, and the step-by-step
//! plans of the repository operations, driven by a caller that owns the engine.

pub mod outcome;
pub mod merge;
pub mod refs;
pub mod credentials;
pub mod session;
pub mod guarantees;
pub mod calls;
