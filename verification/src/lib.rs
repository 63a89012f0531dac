//! Presets and argument assembly for transcoding one media file with `ffmpeg`.
//!
//! The library decides; the caller performs. It builds the command lines,
//! derives the output name and sequences the run, while the caller starts the
//! processes, looks at the file system and reports back what happened.

pub mod error;
pub mod ffmpeg;
pub mod format;
pub mod invocation;
pub mod path;
pub mod runner;
pub mod text;
