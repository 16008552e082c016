//! Decisions of a single-shot media job worker, verified: task and parameter
//! resolution, bit rate parsing, resize geometry, frame sampling, scene-cut
//! detection, waveform blocks, encoder settings, the output time line, the
//! output container's write discipline, and the state machine that drives a
//! job from opening its input to closing its output.

pub mod bitrate;
pub mod checksum;
pub mod config;
pub mod error;
pub mod geometry;
pub mod job;
pub mod mux;
pub mod pipeline;
pub mod sampling;
pub mod scene;
pub mod settings;
pub mod task;
pub mod timeline;
pub mod waveform;
