//! Utterance capture for speech recognition: the decisions that turn a live
//! stream of audio chunks into one finished utterance.
//!
//! - `settings`: the operator's parameters.
//! - `config`: negotiation of the input configuration.
//! - `amplitude`: the extremes of a chunk and the silence test.
//! - `detector`: the timer that tells a pause from a breath.
//! - `assembler`: the utterance as it grows, chunk by chunk.
//! - `session`: whole sessions, and when and with what they end.
//! - `framing`: frames for the denoiser, and the warm-up frame left out.
//! - `error`: what can go wrong, and what of it ends the session.
//!
//! Samples are carried, never computed with: the library is generic in their
//! type and judges a chunk by the integer levels that come with it.

pub mod amplitude;
pub mod assembler;
pub mod config;
pub mod detector;
pub mod error;
pub mod framing;
pub mod session;
pub mod settings;

pub use settings::StreamSettings;
