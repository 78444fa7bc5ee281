//! Streaming capture-and-correlate pipeline for synchronized audio channels.
//!
//! Samples are quantized amplitudes (signed integers in a fixed range).
//! Captured channels accumulate in bounded `SampleBuffer`s, immutable
//! `SignalWindow` snapshots are normalized (DC offset removed) and fed to
//! the `CorrelationEngine`, which sweeps all non-negative lags and reports
//! the lag of maximum correlation.

pub mod buffer;
pub mod correlate;
pub mod errors;
pub mod normalize;
pub mod pipeline;
pub mod session;
pub mod signal;
pub mod window;
