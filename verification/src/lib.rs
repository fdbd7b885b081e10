//! Exam generation and attempt-validation engine.
//!
//! The engine turns an authored exam template (question banks plus sampling
//! quotas) into a concrete generated exam instance, keeps the answer key
//! separate from the client-safe artifact, validates submitted attempts
//! against timing and retake rules, and scores them against the retained key.
//! All operations are pure: callers supply every input, including the
//! randomness seed, and persist the results themselves.

use vstd::prelude::*;

pub mod ids;
pub mod rng;
pub mod config;
pub mod template;
pub mod generated;
pub mod draw;
pub mod moderation;
pub mod sampler;
pub mod attempt;
pub mod score;

verus! {

/// Switch that tells the surrounding service to refuse ordinary requests
/// while administrative work is in progress.
#[derive(Clone, Copy, Debug, PartialEq, Eq, Structural)]
pub struct MaintenanceMode {
    pub enabled: bool,
}

} // verus!
