//! Verified core of a speech-synthesis service: request model, parameter
//! cache, language cache, the per-request job state machine that drives a
//! callback-based synthesis engine, and the raw-audio container encoder.

pub mod codec;
pub mod icon;
pub mod errors;
pub mod init;
pub mod language;
pub mod model;
pub mod params;
pub mod voices;
pub mod wave;
pub mod worker;
