//! Export of a thread.

use vstd::prelude::*;
use super::config::Config;
use crate::error::Error;
use crate::post::Post;
use crate::render::{page_html, render_page};
use crate::text::{chars_of, str_eq, string_of};

verus! {

/// A file that an export produces, named relative to the output directory.
pub struct ExportedFile {
    /// File name inside the output directory.
    pub name: String,
    /// What the file holds.
    pub contents: String,
}

/// Exports a thread as static HTML: one `index.html` page holding every
/// post.
#[derive(Clone)]
pub struct HtmlExporter;

/// The ways a thread can be exported.
#[derive(Clone)]
pub enum ExporterKind {
    Html(HtmlExporter),
}

/// An export format: what files a thread becomes.
pub trait Exporter {
    /// The files that the posts of a thread become under the given settings.
    fn export(&self, posts: &[Post], config: &Config) -> Result<Vec<ExportedFile>, Error>;
}

/// The files of an HTML export: nothing at all for no posts (`NoPosts`),
/// else `index.html` with the page of the posts, linking local files and
/// thumbnails when the settings download them.
pub open spec fn html_export(r: Result<Vec<ExportedFile>, Error>, posts: Seq<Post>, config: Config) -> bool {
    if posts.len() == 0 {
        r matches Err(e) && e is NoPosts
    } else {
        r matches Ok(files) && files@.len() == 1 && files@[0].name@ == "index.html"@
            && files@[0].contents@ == page_html(posts, config.files, config.thumb)
    }
}

/// The lower-case form of a string as `str::to_lowercase` gives it (full
/// Unicode case mapping).
pub uninterp spec fn lowercase(s: Seq<char>) -> Seq<char>;

/// Lower-cases a string with std's `str::to_lowercase`; the result is named
/// `lowercase` of the input, a function of the input alone.
#[verifier::external_body]
fn to_lowercase(s: &str) -> (r: String)
    ensures
        r@ == lowercase(s@),
{
    s.to_lowercase()
}

impl ExporterKind {
    /// The exporter with the given name, in any letter case: `html` is the
    /// HTML exporter; any other name is `UnknownExporter` with the name as
    /// given.
    pub fn from_str(s: &str) -> (r: Result<ExporterKind, Error>)
        ensures
            lowercase(s@) == "html"@ ==> r matches Ok(ExporterKind::Html(_)),
            lowercase(s@) != "html"@ ==> (r matches Err(Error::UnknownExporter(name)) && name@
                == s@),
    {
        let lower = to_lowercase(s);
        if str_eq(lower.as_str(), "html") {
            Ok(ExporterKind::Html(HtmlExporter))
        } else {
            Err(Error::UnknownExporter(string_of(&chars_of(s))))
        }
    }
}

impl std::str::FromStr for ExporterKind {
    type Err = Error;

    fn from_str(s: &str) -> (r: Result<ExporterKind, Error>)
        ensures
            lowercase(s@) == "html"@ ==> r matches Ok(ExporterKind::Html(_)),
            lowercase(s@) != "html"@ ==> (r matches Err(Error::UnknownExporter(name)) && name@
                == s@),
    {
        ExporterKind::from_str(s)
    }
}

impl Exporter for HtmlExporter {
    fn export(&self, posts: &[Post], config: &Config) -> (r: Result<Vec<ExportedFile>, Error>)
        ensures
            html_export(r, posts@, *config),
    {
        if posts.len() == 0 {
            return Err(Error::NoPosts);
        }
        let page = render_page(posts, config.files, config.thumb);
        let mut files: Vec<ExportedFile> = Vec::new();
        files.push(ExportedFile { name: String::from_str("index.html"), contents: page });
        Ok(files)
    }
}

impl Exporter for ExporterKind {
    fn export(&self, posts: &[Post], config: &Config) -> (r: Result<Vec<ExportedFile>, Error>)
        ensures
            match *self {
                ExporterKind::Html(_) => html_export(r, posts@, *config),
            },
    {
        match self {
            ExporterKind::Html(html) => html.export(posts, config),
        }
    }
}

} // verus!
