//! Audio device names: parsing raw names and choosing friendly ones.

pub mod patterns;
pub mod pulseaudio;
pub mod friendly_names;
pub mod platform;
