//! Settings of a multi-thread scrape.

use vstd::prelude::*;

verus! {

/// Which threads to scrape and what to download with them.
#[derive(Debug, Clone)]
pub struct Config {
    /// The thread pages, in the order they are scraped.
    pub urls: Vec<String>,
    /// Download thumbnails.
    pub thumb: bool,
    /// Download files.
    pub files: bool,
    /// Keep assets that are already there instead of downloading them again.
    pub resume: bool,
}

} // verus!
