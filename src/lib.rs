//! Real-time duplex audio perturbation engine: sample-format conversion,
//! perturbation injection, the capture-to-playback relay, decimated
//! recording, device negotiation and the session lifecycle.
//!
//! Samples travel through the engine on the signed 16-bit scale: full
//! scale (+1.0) is `sample::FULL_SCALE`, silence is 0.

pub mod negotiation;
pub mod paths;
pub mod perturbation;
pub mod pipeline;
pub mod recorder;
pub mod relay;
pub mod sample;
pub mod session;
