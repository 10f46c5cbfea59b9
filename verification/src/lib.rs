//! Decision logic of the Koom screen recorder: recording lifecycle, FFmpeg
//! command lines, file naming and the recordings library listing.

pub mod text;
pub mod session;
pub mod status;
pub mod media;
pub mod platform;
pub mod ffmpeg;
pub mod recordings;
pub mod finalize;
pub mod devices;
pub mod audio;
pub mod capture;
