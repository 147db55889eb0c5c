//! Speaker-diarization policy: processing and privacy modes, errors, error
//! recovery, model routing and the command-level request checks.

pub mod types;
pub mod errors;
pub mod error_recovery;
pub mod router;
pub mod commands;
pub mod identification;
pub mod profiles;
pub mod mapping;
pub mod stages;
