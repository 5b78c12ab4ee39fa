//! Coordinator for generated speech audio: a persisted synthesis/playback
//! configuration, cache invalidation for the play-mode audio slot, planning of
//! synthesis requests, a bounded readiness probe for files written elsewhere,
//! and the state machine that governs the single active playback session.
//!
//! The library holds the decisions; the surrounding shell performs the actual
//! network synthesis, disk writes and audio output and reports their outcomes
//! back as plain values.

pub mod api;
pub mod config;
pub mod flow;
pub mod invalidate;
pub mod payload;
pub mod playback;
pub mod probe;
pub mod render;
pub mod slot;
pub mod synth;
pub mod voices;
