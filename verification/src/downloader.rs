//! The downloader: fetches one thread, downloads its files and thumbnails,
//! and exports it, reporting progress as events.

pub mod config;
pub mod event;
pub mod export;
pub mod download;
pub mod runner;
