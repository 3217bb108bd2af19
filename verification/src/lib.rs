//! Builds the command line for `yt-dlp` from a URL and the user's options,
//! and decides how the `yt-dlp` executable is found or fetched.
pub mod binary;
pub mod command;
pub mod config;
pub mod decimal;
pub mod download;
pub mod fetch;
pub mod locate;
pub mod platform;
pub mod session;
pub mod text;
