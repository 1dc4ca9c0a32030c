//! Frames, the payloads decoded from them, and their classification.

pub mod ethernet;
pub mod frame;
pub mod laws;
pub mod types;
