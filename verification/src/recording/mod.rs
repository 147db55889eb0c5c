//! Recording: preferences, the transcript segments kept during a recording,
//! and the modes a recording runs in.

pub mod preferences;
pub mod preference_store;
pub mod startup;
pub mod transcripts;
