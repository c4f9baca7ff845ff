//! Settings of a download run.

use vstd::prelude::*;
use super::export::ExporterKind;

verus! {

/// What to download and where to put it.
#[derive(Clone)]
pub struct Config {
    /// The thread page.
    pub url: String,
    /// The directory the thread is written to.
    pub dir: String,
    /// How the thread is exported.
    pub exporter: ExporterKind,
    /// Download thumbnails.
    pub thumb: bool,
    /// Download files.
    pub files: bool,
    /// Keep files that are already there instead of downloading them again.
    pub resume: bool,
    /// How many times a download is tried.
    pub download_retries: u32,
}

} // verus!
