//! An attachment of a post.

use vstd::prelude::*;
use crate::text::{extend_str, string_of};

verus! {

/// A file attached to a post.
#[derive(Debug, Clone)]
pub struct File {
    /// Original name, e.g. "videolol.mp4".
    pub name_orig: String,
    /// Timestamp name, e.g. "17699100670710.mp4".
    pub name_timestamp: String,
    /// Thumbnail URL.
    pub url_thumb: String,
    /// File URL.
    pub url: String,
}

/// The printed form of a file: its names on the first line, then its URL
/// and its thumbnail URL on indented lines.
pub open spec fn file_text(f: File) -> Seq<char> {
    f.name_orig@ + " ["@ + f.name_timestamp@ + "]\n  url:   "@ + f.url@ + "\n  thumb: "@
        + f.url_thumb@
}

impl File {
    /// The file in printed form.
    pub fn display(&self) -> (s: String)
        ensures
            s@ == file_text(*self),
    {
        let mut out: Vec<char> = Vec::new();
        extend_file_text(&mut out, self);
        string_of(&out)
    }
}

/// Appends the printed form of a file.
pub fn extend_file_text(out: &mut Vec<char>, f: &File)
    ensures
        final(out)@ == old(out)@ + file_text(*f),
{
    let ghost o0 = out@;
    extend_str(out, f.name_orig.as_str());
    extend_str(out, " [");
    extend_str(out, f.name_timestamp.as_str());
    extend_str(out, "]\n  url:   ");
    extend_str(out, f.url.as_str());
    extend_str(out, "\n  thumb: ");
    extend_str(out, f.url_thumb.as_str());
    assert(out@ =~= o0 + file_text(*f));
}

} // verus!
