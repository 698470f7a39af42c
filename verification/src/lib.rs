//! Relay layer for a synchronous plugin engine driven by a host frontend.
//!
//! The engine produces one video frame, a batch of interleaved stereo audio
//! samples, and any number of input queries per step; the host renders frames
//! on its own tick, an audio device pulls samples on its own cadence, and host
//! input events arrive asynchronously. The types here reconcile those timing
//! domains: a FIFO audio queue, a single-slot latest-frame store, a keyed
//! table of input levels, and the orchestration state machine that ties them
//! to the engine's callback protocol.

pub mod audio_relay;
pub mod frame_relay;
pub mod input_map;
pub mod input_table;
pub mod orchestrator;
