//! Dual-stream audio capture core: channel normalization, positional mixing of a
//! system-audio stream with a microphone stream, the recording lifecycle, and the
//! transcript and summary steps that consume the mixed stream.
pub mod capture;
pub mod laws;
pub mod lifecycle;
pub mod mixer;
pub mod normalize;
pub mod summary;
pub mod transcript;
