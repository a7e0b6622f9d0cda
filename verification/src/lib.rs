//! The decisions of a real-time audio analysis pipeline, verified.
//!
//! Samples come from a microphone or a decoded file, cross a bounded ring
//! buffer, and are analysed window by window into frames for display: a
//! spectrum, a waveform, a few scalars, a beat flag and a tempo. This crate
//! holds what such a pipeline decides: what a ring buffer keeps and drops,
//! when a window is complete, when a frame is a beat, how playback is paced,
//! what a start and a stop do to a session. Every function is proved
//! against its contract, and none of them panics.
//!
//! No arithmetic on measurements happens here. A measurement is carried as
//! the bits of its IEEE 754 encoding (see `encoding`), compared and ordered
//! as the number it encodes, and otherwise passed through. The transform,
//! the sums and the roots are the caller's, and so are threads, devices and
//! files: the caller reports what happened, and is told what to do next.

pub mod ai;
pub mod audio;
pub mod commands;
pub mod config;
pub mod encoding;
pub mod error;
