//! Verified core of an always-on multichannel WAV recorder: configuration
//! resolution, channel selection, file-rotation timing, the WAV header
//! format and crash recovery of interrupted recordings.

pub mod channels;
pub mod config;
pub mod config_file;
pub mod constants;
pub mod error;
pub mod menu;
pub mod text;
pub mod ui;
pub mod wav;
pub mod writer;
pub mod pending;
pub mod recorder;
pub mod recovery;
pub mod rotation;
pub mod status;

pub use constants::OutputMode;
