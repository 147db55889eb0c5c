//! Device naming, recording preferences and speaker-diarization policy logic
//! for a meeting recorder, with contracts checked by Verus.

pub mod text;
pub mod devices;
pub mod diarization;
pub mod recording;
