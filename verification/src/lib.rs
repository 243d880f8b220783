//! Verified logic of a desktop front end for yt-dlp and ffmpeg.
pub mod binaries;
pub mod formats;
pub mod invocation;
pub mod progress;
pub mod session;
pub mod text;
