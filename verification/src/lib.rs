//! Verified core of a binding to the PulseAudio "simple" client API.

pub mod low_level;
pub mod pa_simple;
pub mod protocol;
