pub mod text;
pub mod outside;
pub mod error;
pub mod file;
mod dom;
pub mod post;
pub mod render;
pub mod config;
pub mod events;
pub mod args;
pub mod export;
pub mod backend;
pub mod http;
pub mod downloader;
pub mod tui;
pub mod cli;
