//! Modes that configure speaker diarization.

use vstd::prelude::*;

verus! {

/// How audio is processed for diarization.
#[derive(Clone, Copy, Debug, PartialEq, Eq, Structural)]
pub enum ProcessingMode {
    /// Real-time chunk-based processing for live meetings.
    RealTime { chunk_size_ms: u32 },
    /// Batch processing for recorded meetings (higher accuracy).
    Batch,
}

impl Default for ProcessingMode {
    /// Batch processing.
    fn default() -> (r: Self)
        ensures
            r == ProcessingMode::Batch,
    {
        ProcessingMode::Batch
    }
}

/// Which models diarization may use.
#[derive(Clone, Copy, Debug, PartialEq, Eq, Structural)]
pub enum PrivacyMode {
    /// Never use external models (maximum privacy).
    LocalOnly,
    /// Use external models if available, fall back to local ones.
    PreferExternal,
    /// Fail if external models are unavailable.
    ExternalOnly,
}

impl Default for PrivacyMode {
    /// External models when available.
    fn default() -> (r: Self)
        ensures
            r == PrivacyMode::PreferExternal,
    {
        PrivacyMode::PreferExternal
    }
}

} // verus!
