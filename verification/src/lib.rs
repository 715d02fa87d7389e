//! Batch conversion of media files for editing and for delivery: what is
//! decided for each file, how the encoder is asked to do it, how many files
//! run at once, and how the outcomes are counted. Running the prober and the
//! encoder and walking the disk are left to the caller.

pub mod cli;
pub mod config;
pub mod converter;
pub mod ffmpeg;
pub mod file_scanner;
pub mod scheduler;
pub mod stats;
pub mod text;
pub mod types;
