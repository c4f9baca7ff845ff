//! The course of a download run, as a state machine.
//!
//! The machine decides; the program that drives it performs what it asks
//! for (sending an event, fetching, touching the file system) and hands
//! back what came of it. Paths are given as components below the output
//! directory.

use vstd::prelude::*;
use super::config::Config;
use super::event::Event;
use super::export::{ExportedFile, Exporter, ExporterKind, html_export};
use crate::error::{Error, in_context, in_context_text, spec_message, wraps_outside};
use crate::file::File;
use crate::post::{reads_page, Post};
use crate::render::page_html;
use crate::text::{chars_of, extend_str, last_piece, last_piece_chars, string_of, trim, trim_chars};

verus! {

/// All files of the posts, post by post, in order.
pub open spec fn flat_files(posts: Seq<Post>) -> Seq<File>
    decreases posts.len(),
{
    if posts.len() == 0 {
        Seq::empty()
    } else {
        flat_files(posts.drop_last()) + posts.last().files@
    }
}

proof fn lemma_flat_files_prefix(posts: Seq<Post>, j: int)
    requires
        0 <= j <= posts.len(),
    ensures
        flat_files(posts.take(j)).len() <= flat_files(posts).len(),
        forall|k: int|
            0 <= k < flat_files(posts.take(j)).len() ==> #[trigger] flat_files(posts.take(j))[k]
                == flat_files(posts)[k],
    decreases posts.len(),
{
    if j == posts.len() {
        assert(posts.take(j) == posts);
    } else {
        lemma_flat_files_prefix(posts.drop_last(), j);
        assert(posts.drop_last().take(j) == posts.take(j));
    }
}

/// The number of files of the posts.
fn count_files(posts: &[Post]) -> (n: usize)
    requires
        flat_files(posts@).len() <= usize::MAX,
    ensures
        n == flat_files(posts@).len(),
{
    let mut n: usize = 0;
    let mut i: usize = 0;
    while i < posts.len()
        invariant
            i <= posts.len(),
            flat_files(posts@).len() <= usize::MAX,
            n == flat_files(posts@.take(i as int)).len(),
        decreases posts.len() - i,
    {
        assert(posts@.take(i + 1).drop_last() == posts@.take(i as int));
        proof {
            lemma_flat_files_prefix(posts@, i + 1);
        }
        n = n + posts[i].files.len();
        i = i + 1;
    }
    assert(posts@.take(posts.len() as int) == posts@);
    n
}

/// The file at a position of all files of the posts.
fn file_at(posts: &[Post], k: usize) -> (f: &File)
    requires
        k < flat_files(posts@).len(),
    ensures
        *f == flat_files(posts@)[k as int],
{
    let mut base: usize = 0;
    let mut i: usize = 0;
    while i < posts.len()
        invariant
            i <= posts.len(),
            base == flat_files(posts@.take(i as int)).len(),
            base <= k,
            k < flat_files(posts@).len(),
        decreases posts.len() - i,
    {
        assert(posts@.take(i + 1).drop_last() == posts@.take(i as int));
        proof {
            lemma_flat_files_prefix(posts@, i + 1);
        }
        let len = posts[i].files.len();
        if k - base < len {
            assert(flat_files(posts@.take(i + 1))[k as int] == posts@[i as int].files@[k - base]);
            return &posts[i].files[k - base];
        }
        base = base + len;
        i = i + 1;
    }
    assert(posts@.take(posts.len() as int) == posts@);
    proof {
        assert(false);
    }
    &posts[0].files[0]
}

/// An I/O failure, as the driver saw it.
pub struct IoFailure {
    /// What the error says.
    pub text: String,
    /// What the error says followed by what each of its causes says, each
    /// after ": ".
    pub chain: String,
}

/// What the driver hands back after doing what the machine asked for.
///
/// A failure of outside work comes back as text: what the failed error says
/// followed by what each of its causes says, each after ": ".
pub enum Reply {
    /// The run begins.
    Start,
    /// An event was sent, or why not (the receiving side is gone).
    Sent(Result<(), String>),
    /// The thread page was downloaded (with retries), or what failed.
    Page(Result<String, String>),
    /// Nothing was asked of the driver.
    Proceed,
    /// A directory was created or a file written, or what failed.
    Done(Result<(), IoFailure>),
    /// Whether a path exists.
    Exists(bool),
    /// A file was downloaded (with retries): how many bytes came, or what
    /// failed.
    Fetched(Result<usize, String>),
}

/// What the machine asks the driver to do.
pub enum Action {
    /// Send an event.
    Send(Event),
    /// Download the thread page, trying up to `tries` times.
    FetchPage { url: String, tries: u32 },
    /// Nothing to do outside (the machine has just read the page into
    /// posts); hand back `Reply::Proceed`.
    Proceed,
    /// Create a directory and its parents.
    CreateDir(Vec<String>),
    /// Tell whether a path exists.
    CheckExists(Vec<String>),
    /// Download a file, trying up to `tries` times, and keep its bytes.
    FetchFile { url: String, tries: u32 },
    /// Write the bytes of the last downloaded file to a path.
    SaveFile(Vec<String>),
    /// Write text to a path.
    WriteText { path: Vec<String>, contents: String },
    /// The run is over: `Ok`, or the text of the error it ends with and of
    /// its causes, each after ": ".
    Finish(Result<(), String>),
}

/// Where the run is: what the last action was, whose reply comes next.
#[derive(Clone, Copy, PartialEq, Eq, Structural, Debug)]
pub enum Phase {
    Begin,
    GetStarted,
    Page,
    Parse,
    GetDone,
    AllStarted,
    BaseDir,
    SectionStarted,
    SectionDir,
    ItemStarted,
    CheckExists,
    Fetch,
    Save,
    ItemReported,
    SectionDone,
    AllDone,
    ExportStarted,
    ExportDir,
    Write,
    ExportDone,
    Failing,
    Finished,
}

/// Which assets are being downloaded.
#[derive(Clone, Copy, PartialEq, Eq, Structural, Debug)]
pub enum Section {
    Files,
    Thumb,
}

/// The state of a run.
pub struct RunState {
    pub config: Config,
    /// The downloaded thread page.
    pub html: String,
    /// What reading the page gave, until its posts are taken.
    pub parsed: Result<Vec<Post>, Error>,
    pub posts: Vec<Post>,
    pub phase: Phase,
    pub section: Section,
    /// Position (from 1) of the current file among all files.
    pub index: usize,
    /// The number of files.
    pub max_index: usize,
    /// URL of the current file.
    pub item_url: String,
    /// Path of the current file.
    pub item_path: Vec<String>,
    /// The files an export produced.
    pub outputs: Vec<ExportedFile>,
    /// How many of them were written.
    pub written: usize,
    /// The text of the error the run ends with, once its failure event is
    /// sent.
    pub pending: Option<String>,
}

/// The reply is the kind that the phase waits for.
pub open spec fn expects(phase: Phase, r: Reply) -> bool {
    match phase {
        Phase::Begin => r is Start,
        Phase::Page => r is Page,
        Phase::Parse => r is Proceed,
        Phase::BaseDir | Phase::SectionDir | Phase::Save | Phase::ExportDir | Phase::Write => r is Done,
        Phase::CheckExists => r is Exists,
        Phase::Fetch => r is Fetched,
        Phase::Failing => true,
        Phase::Finished => false,
        _ => r is Sent,
    }
}

/// The posts read from the page have few enough files to be numbered with
/// `usize` counters.
pub open spec fn parse_fits(s: RunState) -> bool {
    s.phase == Phase::Parse ==> (s.parsed matches Ok(posts) ==> flat_files(posts@).len()
        < usize::MAX)
}

/// The character sequences of path components.
pub open spec fn path_view(p: Seq<String>) -> Seq<Seq<char>> {
    Seq::new(p.len(), |i: int| p[i]@)
}

/// The folder of a section.
pub open spec fn subdir(s: Section) -> Seq<char> {
    match s {
        Section::Files => "files"@,
        Section::Thumb => "thumb"@,
    }
}

/// The URL a section downloads for a file.
pub open spec fn section_url(s: Section, f: File) -> Seq<char> {
    match s {
        Section::Files => f.url@,
        Section::Thumb => f.url_thumb@,
    }
}

/// The name a downloaded file is saved under: the last part of its URL,
/// trimmed.
pub open spec fn saved_name(url: Seq<char>) -> Seq<char> {
    trim(last_piece(url, '/'))
}

/// The state is consistent: the count of files is that of the posts, and
/// the position stays within it.
pub open spec fn wf(s: RunState) -> bool {
    &&& flat_files(s.posts@).len() < usize::MAX
    &&& s.written <= s.outputs@.len()
    &&& (s.phase == Phase::Write ==> s.written < s.outputs@.len())
    &&& (s.phase is Failing <==> s.pending is Some)
    &&& match s.phase {
        Phase::SectionDir | Phase::ItemStarted | Phase::CheckExists | Phase::Fetch | Phase::Save
        | Phase::ItemReported | Phase::SectionDone => s.max_index == flat_files(s.posts@).len(),
        _ => true,
    }
    &&& match s.phase {
        Phase::ItemStarted | Phase::CheckExists | Phase::Fetch | Phase::Save | Phase::ItemReported => 1
            <= s.index <= s.max_index,
        _ => true,
    }
}

/// The run after its failure event was sent: it will end with the text `m`.
pub open spec fn failing(s: RunState, t: RunState, m: Seq<char>) -> bool {
    &&& t == RunState { phase: Phase::Failing, pending: t.pending, ..s }
    &&& t.pending matches Some(p) && p@ == m
}

/// The texts of an error met while reading the page: `event`, what the
/// error says, and `chain`, that followed by what its causes say (the text
/// of the wrapped outside error, which has no causes of its own).
pub open spec fn parse_texts(e: Error, event: Seq<char>, chain: Seq<char>) -> bool {
    if wraps_outside(e) {
        exists|d: Seq<char>| event == spec_message(e) + d && chain == in_context(event, d)
    } else {
        event == spec_message(e) && chain == event
    }
}

/// A download failure with the text `m`: the `DownloadAllFailed` event with
/// `m`, and the run ends with it under the context "failed to download
/// files".
pub open spec fn download_failure(s: RunState, t: RunState, a: Action, m: Seq<char>) -> bool {
    &&& failing(s, t, in_context("failed to download files"@, m))
    &&& a matches Action::Send(Event::DownloadAllFailed { error })
    &&& error@ == m
}

/// The end of the run without error.
pub open spec fn finishing_ok(s: RunState, t: RunState, a: Action) -> bool {
    &&& t == RunState { phase: Phase::Finished, ..s }
    &&& a matches Action::Finish(Ok(()))
}

/// The end of the run with the error text `m`.
pub open spec fn finishing_err(s: RunState, t: RunState, a: Action, m: Seq<char>) -> bool {
    &&& t == RunState { phase: Phase::Finished, ..s }
    &&& a matches Action::Finish(Err(e))
    &&& e@ == m
}

/// The start of a section: its start event.
pub open spec fn section_start(s: RunState, t: RunState, a: Action, sec: Section) -> bool {
    &&& t == RunState { phase: Phase::SectionStarted, section: sec, ..s }
    &&& match sec {
        Section::Files => a matches Action::Send(Event::DownloadFilesStarted),
        Section::Thumb => a matches Action::Send(Event::DownloadThumbStarted),
    }
}

/// The end of all downloads: the `DownloadAllDone` event.
pub open spec fn downloads_done(s: RunState, t: RunState, a: Action) -> bool {
    &&& t == RunState { phase: Phase::AllDone, ..s }
    &&& a matches Action::Send(Event::DownloadAllDone)
}

/// After the base directory: the files section when files are wanted, else
/// the thumbnails section when those are, else the end of the downloads.
pub open spec fn first_section(s: RunState, t: RunState, a: Action) -> bool {
    if s.config.files {
        section_start(s, t, a, Section::Files)
    } else if s.config.thumb {
        section_start(s, t, a, Section::Thumb)
    } else {
        downloads_done(s, t, a)
    }
}

/// The item at `index` starts (its `DownloadStarted` event), or the section
/// ends (its done event) when all items are through.
pub open spec fn next_item(s: RunState, t: RunState, a: Action, index: usize) -> bool {
    if index <= s.max_index {
        &&& t == RunState { phase: Phase::ItemStarted, index, ..s }
        &&& a matches Action::Send(Event::DownloadStarted { index: i, max_index: m })
        &&& i == index
        &&& m == s.max_index
    } else {
        &&& t == RunState { phase: Phase::SectionDone, index, ..s }
        &&& match s.section {
            Section::Files => a matches Action::Send(Event::DownloadFilesDone),
            Section::Thumb => a matches Action::Send(Event::DownloadThumbDone),
        }
    }
}

/// The current item ends with a `DownloadFailed` event for its URL and the
/// text `m`.
pub open spec fn item_failed(s: RunState, t: RunState, a: Action, m: Seq<char>) -> bool {
    &&& t == RunState { phase: Phase::ItemReported, ..s }
    &&& a matches Action::Send(Event::DownloadFailed { url, error })
    &&& url@ == s.item_url@
    &&& error@ == m
}

/// The output file at `written` is written, or the export ends (its done
/// event) when all are.
pub open spec fn next_output(s: RunState, t: RunState, a: Action, written: usize) -> bool {
    if written < s.outputs@.len() {
        &&& t == RunState { phase: Phase::Write, written, ..s }
        &&& a matches Action::WriteText { path, contents }
        &&& path_view(path@) == seq![s.outputs@[written as int].name@]
        &&& contents@ == s.outputs@[written as int].contents@
    } else {
        &&& t == RunState { phase: Phase::ExportDone, written, ..s }
        &&& a matches Action::Send(Event::ExportDone)
    }
}

/// An export failure: the `ExportFailed` event with `m`, what the error
/// says, and the run ends with `chain`, that followed by what its causes
/// say, under the context "failed to export".
pub open spec fn export_failure(s: RunState, t: RunState, a: Action, m: Seq<char>, chain: Seq<char>) -> bool {
    &&& failing(s, t, in_context("failed to export"@, chain))
    &&& a matches Action::Send(Event::ExportFailed { error })
    &&& error@ == m
}

/// An I/O failure of the export: the library's `Io` error around it.
pub open spec fn export_io_failure(s: RunState, t: RunState, a: Action, f: IoFailure) -> bool {
    export_failure(s, t, a, "I/O error: "@ + f.text@, in_context("I/O error: "@ + f.text@, f.chain@))
}

/// One step of a run: from the state `s` and the reply `r` to the state
/// `t` and the action `a`.
///
/// The run sends `GetStarted`, downloads the page (a failed download ends
/// the run with what failed) and reads its posts (a failed reading sends
/// `GetFailed` with what the error says and ends the run with it under
/// "failed to parse posts"), sends `GetDone`; then `DownloadAllStarted`,
/// creates the output directory, and downloads the files and then the
/// thumbnails (each section only when asked for): the section's start
/// event, its folder, and for every file of every post, numbered from 1, a
/// `DownloadStarted` event, then (when resuming and the file exists) a
/// `DownloadSkipped`, or the download and saving of the file with
/// `DownloadDone` or `DownloadFailed` (an empty download is "empty file: "
/// and the URL), and finally the section's done event; a failure of the
/// downloads as a whole sends `DownloadAllFailed` and ends the run under
/// "failed to download files". Then `DownloadAllDone`, `ExportStarted`, the
/// export into the output directory (a failure sends `ExportFailed` and ends
/// the run under "failed to export"), and `ExportDone`. An event that cannot
/// be sent ends the run with why (inside the downloads, after
/// `DownloadAllFailed`).
pub open spec fn step_spec(s: RunState, r: Reply, t: RunState, a: Action) -> bool {
    match s.phase {
        Phase::Begin => {
            &&& t == RunState { phase: Phase::GetStarted, ..s }
            &&& a matches Action::Send(Event::GetStarted)
        },
        Phase::GetStarted => match r {
            Reply::Sent(Ok(())) => {
                &&& t == RunState { phase: Phase::Page, ..s }
                &&& a matches Action::FetchPage { url, tries }
                &&& url@ == s.config.url@
                &&& tries == s.config.download_retries
            },
            Reply::Sent(Err(m)) => finishing_err(s, t, a, m@),
            _ => false,
        },
        Phase::Page => match r {
            Reply::Page(Ok(html)) => {
                &&& t == RunState { phase: Phase::Parse, html: t.html, parsed: t.parsed, ..s }
                &&& t.html@ == html@
                &&& reads_page(t.parsed, html@)
                &&& a is Proceed
            },
            Reply::Page(Err(m)) => finishing_err(s, t, a, m@),
            _ => false,
        },
        Phase::Parse => match s.parsed {
            Ok(posts) => {
                &&& t == RunState { phase: Phase::GetDone, posts, parsed: t.parsed, ..s }
                &&& a matches Action::Send(Event::GetDone)
            },
            Err(e) => {
                &&& a matches Action::Send(Event::GetFailed { error })
                &&& exists|chain: Seq<char>|
                    parse_texts(e, error@, chain) && failing(
                        s,
                        t,
                        in_context("failed to parse posts"@, chain),
                    )
            },
        },
        Phase::GetDone => match r {
            Reply::Sent(Ok(())) => {
                &&& t == RunState { phase: Phase::AllStarted, ..s }
                &&& a matches Action::Send(Event::DownloadAllStarted)
            },
            Reply::Sent(Err(m)) => finishing_err(s, t, a, m@),
            _ => false,
        },
        Phase::AllStarted => match r {
            Reply::Sent(Ok(())) => {
                &&& t == RunState { phase: Phase::BaseDir, ..s }
                &&& a matches Action::CreateDir(p)
                &&& p@.len() == 0
            },
            Reply::Sent(Err(m)) => finishing_err(s, t, a, m@),
            _ => false,
        },
        Phase::BaseDir => match r {
            Reply::Done(Ok(())) => first_section(s, t, a),
            Reply::Done(Err(f)) => download_failure(s, t, a, f.chain@),
            _ => false,
        },
        Phase::SectionStarted => match r {
            Reply::Sent(Ok(())) => {
                &&& t == RunState { phase: Phase::SectionDir, max_index: flat_files(s.posts@).len() as usize, ..s }
                &&& a matches Action::CreateDir(p)
                &&& path_view(p@) == seq![subdir(s.section)]
            },
            Reply::Sent(Err(m)) => download_failure(s, t, a, m@),
            _ => false,
        },
        Phase::SectionDir => match r {
            Reply::Done(Ok(())) => next_item(s, t, a, 1),
            Reply::Done(Err(f)) => download_failure(s, t, a, f.chain@),
            _ => false,
        },
        Phase::ItemStarted => match r {
            Reply::Sent(Ok(())) => {
                let url = section_url(s.section, flat_files(s.posts@)[s.index - 1]);
                let path = seq![subdir(s.section), saved_name(url)];
                &&& t.item_url@ == url
                &&& path_view(t.item_path@) == path
                &&& if s.config.resume {
                    &&& t == RunState { phase: Phase::CheckExists, item_url: t.item_url, item_path: t.item_path, ..s }
                    &&& a matches Action::CheckExists(p)
                    &&& path_view(p@) == path
                } else {
                    &&& t == RunState { phase: Phase::Fetch, item_url: t.item_url, item_path: t.item_path, ..s }
                    &&& a matches Action::FetchFile { url: u, tries }
                    &&& u@ == url
                    &&& tries == s.config.download_retries
                }
            },
            Reply::Sent(Err(m)) => download_failure(s, t, a, m@),
            _ => false,
        },
        Phase::CheckExists => match r {
            Reply::Exists(true) => {
                &&& t == RunState { phase: Phase::ItemReported, ..s }
                &&& a matches Action::Send(Event::DownloadSkipped { index, max_index })
                &&& index == s.index
                &&& max_index == s.max_index
            },
            Reply::Exists(false) => {
                &&& t == RunState { phase: Phase::Fetch, ..s }
                &&& a matches Action::FetchFile { url, tries }
                &&& url@ == s.item_url@
                &&& tries == s.config.download_retries
            },
            _ => false,
        },
        Phase::Fetch => match r {
            Reply::Fetched(Ok(n)) => if n == 0 {
                item_failed(s, t, a, "empty file: "@ + s.item_url@)
            } else {
                &&& t == RunState { phase: Phase::Save, ..s }
                &&& a matches Action::SaveFile(p)
                &&& path_view(p@) == path_view(s.item_path@)
            },
            Reply::Fetched(Err(m)) => item_failed(s, t, a, m@),
            _ => false,
        },
        Phase::Save => match r {
            Reply::Done(Ok(())) => {
                &&& t == RunState { phase: Phase::ItemReported, ..s }
                &&& a matches Action::Send(Event::DownloadDone { index, max_index })
                &&& index == s.index
                &&& max_index == s.max_index
            },
            Reply::Done(Err(f)) => item_failed(s, t, a, f.chain@),
            _ => false,
        },
        Phase::ItemReported => match r {
            Reply::Sent(Ok(())) => next_item(s, t, a, (s.index + 1) as usize),
            Reply::Sent(Err(m)) => download_failure(s, t, a, m@),
            _ => false,
        },
        Phase::SectionDone => match r {
            Reply::Sent(Ok(())) => if s.section == Section::Files && s.config.thumb {
                section_start(s, t, a, Section::Thumb)
            } else {
                downloads_done(s, t, a)
            },
            Reply::Sent(Err(m)) => download_failure(s, t, a, m@),
            _ => false,
        },
        Phase::AllDone => match r {
            Reply::Sent(Ok(())) => {
                &&& t == RunState { phase: Phase::ExportStarted, ..s }
                &&& a matches Action::Send(Event::ExportStarted)
            },
            Reply::Sent(Err(m)) => finishing_err(s, t, a, m@),
            _ => false,
        },
        Phase::ExportStarted => match r {
            Reply::Sent(Ok(())) => exists|res: Result<Vec<ExportedFile>, Error>| {
                &&& match s.config.exporter {
                    ExporterKind::Html(_) => html_export(res, s.posts@, s.config),
                }
                &&& match res {
                    Ok(files) => {
                        &&& t == RunState { phase: Phase::ExportDir, outputs: files, written: 0, ..s }
                        &&& a matches Action::CreateDir(p)
                        &&& p@.len() == 0
                    },
                    Err(e) => export_failure(s, t, a, spec_message(e), spec_message(e)),
                }
            },
            Reply::Sent(Err(m)) => finishing_err(s, t, a, m@),
            _ => false,
        },
        Phase::ExportDir => match r {
            Reply::Done(Ok(())) => next_output(s, t, a, s.written),
            Reply::Done(Err(f)) => export_io_failure(s, t, a, f),
            _ => false,
        },
        Phase::Write => match r {
            Reply::Done(Ok(())) => next_output(s, t, a, (s.written + 1) as usize),
            Reply::Done(Err(f)) => export_io_failure(s, t, a, f),
            _ => false,
        },
        Phase::ExportDone => match r {
            Reply::Sent(Ok(())) => finishing_ok(s, t, a),
            Reply::Sent(Err(m)) => finishing_err(s, t, a, m@),
            _ => false,
        },
        Phase::Failing => finishing_err(
            RunState { pending: None, ..s },
            t,
            a,
            s.pending.unwrap()@,
        ),
        Phase::Finished => false,
    }
}


/// The position an item event reports, if the action is one.
pub open spec fn reported_index(a: Action) -> Option<(usize, usize)> {
    match a {
        Action::Send(Event::DownloadStarted { index, max_index }) => Some((index, max_index)),
        Action::Send(Event::DownloadDone { index, max_index }) => Some((index, max_index)),
        Action::Send(Event::DownloadSkipped { index, max_index }) => Some((index, max_index)),
        _ => None,
    }
}

/// Every item event of a run numbers its file from 1 up to the count of
/// all files of the posts, and reports that count.
pub proof fn lemma_item_events_in_range(s: RunState, r: Reply, t: RunState, a: Action)
    requires
        wf(s),
        step_spec(s, r, t, a),
    ensures
        reported_index(a) matches Some((index, max_index)) ==> 1 <= index <= max_index
            && max_index == flat_files(s.posts@).len(),
{
}

/// The phase belongs to the downloading of a section.
pub open spec fn in_section(phase: Phase) -> bool {
    match phase {
        Phase::SectionStarted | Phase::SectionDir | Phase::ItemStarted | Phase::CheckExists
        | Phase::Fetch | Phase::Save | Phase::ItemReported | Phase::SectionDone => true,
        _ => false,
    }
}

/// The section is one the settings ask for: files with `files`,
/// thumbnails with `thumb`.
pub open spec fn asked_for(config: Config, sec: Section) -> bool {
    match sec {
        Section::Files => config.files,
        Section::Thumb => config.thumb,
    }
}

/// While a section is being downloaded, it is one the settings ask for.
pub open spec fn sections_as_asked(s: RunState) -> bool {
    in_section(s.phase) ==> asked_for(s.config, s.section)
}

/// A run downloads only what its settings ask for: every section it enters
/// is asked for, so without `files` and `thumb` nothing is downloaded; it
/// looks for existing files only when resuming; and every download is
/// tried as often as the settings say.
pub proof fn lemma_downloads_as_asked(s: RunState, r: Reply, t: RunState, a: Action)
    requires
        wf(s),
        sections_as_asked(s),
        step_spec(s, r, t, a),
    ensures
        sections_as_asked(t),
        t.config == s.config,
        (a is FetchFile || a is SaveFile || a is CheckExists) ==> in_section(t.phase) && asked_for(
            s.config,
            t.section,
        ),
        !s.config.files && !s.config.thumb ==> !(a is FetchFile || a is SaveFile || a is CheckExists),
        a is CheckExists ==> s.config.resume,
        a matches Action::FetchFile { tries, .. } ==> tries == s.config.download_retries,
        a matches Action::FetchPage { tries, .. } ==> tries == s.config.download_retries,
{
}

/// Every section asked for is run before the downloads end: the run
/// sends `DownloadAllDone` straight after creating the output directory only
/// when neither files nor thumbnails are asked for, and otherwise only when
/// a section is done, which is the thumbnails section whenever thumbnails
/// are asked for (whatever `files` says); the files section, when asked
/// for, is the first, and the thumbnails section starts only when asked for.
pub proof fn lemma_every_asked_section_runs(s: RunState, r: Reply, t: RunState, a: Action)
    requires
        wf(s),
        sections_as_asked(s),
        step_spec(s, r, t, a),
    ensures
        a matches Action::Send(Event::DownloadAllDone) ==> (s.phase == Phase::BaseDir
            && !s.config.files && !s.config.thumb) || (s.phase == Phase::SectionDone && (
        s.config.thumb ==> s.section == Section::Thumb)),
        a matches Action::Send(Event::DownloadThumbStarted) ==> s.config.thumb && (s.phase
            == Phase::BaseDir ==> !s.config.files),
        (s.phase == Phase::BaseDir && s.config.files && (r matches Reply::Done(Ok(())))) ==> (a matches Action::Send(
            Event::DownloadFilesStarted,
        )),
        (s.phase == Phase::SectionDone && s.section == Section::Files && s.config.thumb && (r matches Reply::Sent(
            Ok(()),
        ))) ==> (a matches Action::Send(Event::DownloadThumbStarted)) && t.section == Section::Thumb,
{
}

/// The current file is to be saved in its section's folder under the name
/// its URL ends with, and the export produces at most the one page
/// `index.html`.
pub open spec fn paths_consistent(s: RunState) -> bool {
    &&& match s.phase {
        Phase::CheckExists | Phase::Fetch | Phase::Save => path_view(s.item_path@) == seq![
            subdir(s.section),
            saved_name(s.item_url@),
        ],
        _ => true,
    }
    &&& s.outputs@.len() <= 1
    &&& forall|i: int| 0 <= i < s.outputs@.len() ==> #[trigger] s.outputs@[i].name@ == "index.html"@
}

/// Everything a run creates, looks for or writes lies in the output
/// directory: the directory itself, `files/` and `thumb/` (each only when
/// asked for) with the downloaded files named after the last part of their
/// URLs, and the page `index.html`.
pub proof fn lemma_writes_in_output_dir(s: RunState, r: Reply, t: RunState, a: Action)
    requires
        wf(s),
        sections_as_asked(s),
        paths_consistent(s),
        step_spec(s, r, t, a),
    ensures
        paths_consistent(t),
        a matches Action::CreateDir(p) ==> p@.len() == 0 || (path_view(p@) == seq![
            subdir(t.section),
        ] && asked_for(s.config, t.section)),
        a matches Action::CheckExists(p) ==> path_view(p@) == seq![
            subdir(t.section),
            saved_name(t.item_url@),
        ] && asked_for(s.config, t.section),
        a matches Action::SaveFile(p) ==> path_view(p@) == seq![
            subdir(t.section),
            saved_name(t.item_url@),
        ] && asked_for(s.config, t.section),
        a matches Action::WriteText { path, .. } ==> path_view(path@) == seq!["index.html"@],
{
    lemma_downloads_as_asked(s, r, t, a);
}

/// Once the page is read, the posts a run holds are those read from the
/// page it downloaded, and every file an export produced holds the page of
/// those posts.
pub open spec fn posts_of_page(s: RunState) -> bool {
    &&& match s.phase {
        Phase::Failing | Phase::Finished => true,
        Phase::Begin | Phase::GetStarted | Phase::Page => s.outputs@.len() == 0,
        Phase::Parse => reads_page(s.parsed, s.html@) && s.outputs@.len() == 0,
        _ => reads_page(Ok(s.posts), s.html@),
    }
    &&& forall|i: int|
        0 <= i < s.outputs@.len() ==> #[trigger] s.outputs@[i].contents@ == page_html(
            s.posts@,
            s.config.files,
            s.config.thumb,
        )
}

/// A run exports what the page it downloaded holds: the posts it numbers,
/// downloads and exports are those that `Post::parse_posts` reads from that
/// page, and the page it writes is the page of those posts.
pub proof fn lemma_exports_the_page_read(s: RunState, r: Reply, t: RunState, a: Action)
    requires
        wf(s),
        posts_of_page(s),
        step_spec(s, r, t, a),
    ensures
        posts_of_page(t),
        s.phase != Phase::Page ==> t.html == s.html,
        a matches Action::WriteText { contents, .. } ==> reads_page(Ok(t.posts), t.html@)
            && contents@ == page_html(t.posts@, s.config.files, s.config.thumb),
{
    if s.phase == Phase::ExportStarted && r matches Reply::Sent(Ok(())) {
        let res = choose|res: Result<Vec<ExportedFile>, Error>|
            {
                &&& match s.config.exporter {
                    ExporterKind::Html(_) => html_export(res, s.posts@, s.config),
                }
                &&& match res {
                    Ok(files) => {
                        &&& t == RunState { phase: Phase::ExportDir, outputs: files, written: 0, ..s }
                        &&& a matches Action::CreateDir(p)
                        &&& p@.len() == 0
                    },
                    Err(e) => export_failure(s, t, a, spec_message(e), spec_message(e)),
                }
            };
        assert(html_export(res, s.posts@, s.config));
    }
}

/// The path of a file below the output directory.
fn path_of(parts: &[&str]) -> (p: Vec<String>)
    ensures
        path_view(p@) == Seq::new(parts@.len(), |i: int| parts@[i]@),
{
    let mut p: Vec<String> = Vec::new();
    let mut i: usize = 0;
    while i < parts.len()
        invariant
            i <= parts.len(),
            path_view(p@) == Seq::new(i as nat, |k: int| parts@[k]@),
        decreases parts.len() - i,
    {
        let ghost before = path_view(p@);
        let part = String::from_str(parts[i]);
        let ghost pv = part@;
        p.push(part);
        assert(path_view(p@) =~= before.push(pv));
        i = i + 1;
        assert(path_view(p@) =~= Seq::new(i as nat, |k: int| parts@[k]@));
    }
    p
}

fn copy_string(s: &String) -> (r: String)
    ensures
        r@ == s@,
{
    string_of(&chars_of(s.as_str()))
}

fn copy_path(p: &Vec<String>) -> (r: Vec<String>)
    ensures
        path_view(r@) == path_view(p@),
{
    let mut r: Vec<String> = Vec::new();
    let mut i: usize = 0;
    while i < p.len()
        invariant
            i <= p.len(),
            path_view(r@) == path_view(p@).take(i as int),
        decreases p.len() - i,
    {
        let ghost before = path_view(r@);
        let part = copy_string(&p[i]);
        let ghost pv = part@;
        r.push(part);
        assert(path_view(r@) =~= before.push(pv));
        i = i + 1;
        assert(path_view(r@) =~= path_view(p@).take(i as int));
    }
    assert(path_view(p@).take(p.len() as int) == path_view(p@));
    r
}

/// The texts of an error met while reading the page: what it says, and
/// that followed by what its causes say.
fn parse_failure_texts(e: &Error) -> (r: (String, String))
    ensures
        parse_texts(*e, r.0@, r.1@),
{
    let mut v: Vec<char> = Vec::new();
    let d = match e {
        Error::Io(x) => {
            extend_str(&mut v, "I/O error: ");
            x.to_string()
        },
        Error::Ureq(x) => {
            extend_str(&mut v, "network error: ");
            x.to_string()
        },
        Error::ParseInt(x) => {
            extend_str(&mut v, "parse error: ");
            x.to_string()
        },
        _ => {
            let m = e.message();
            let c = copy_string(&m);
            return (m, c);
        },
    };
    extend_str(&mut v, d.as_str());
    let event = string_of(&v);
    let chain = in_context_text(event.as_str(), d.as_str());
    (event, chain)
}

impl RunState {
    /// The machine for a run with the given settings, before it begins.
    pub fn new(config: Config) -> (s: RunState)
        ensures
            s.phase == Phase::Begin,
            s.config == config,
            s.posts@.len() == 0,
            wf(s),
            sections_as_asked(s),
            paths_consistent(s),
            posts_of_page(s),
    {
        RunState {
            config,
            html: String::new(),
            parsed: Ok(Vec::new()),
            posts: Vec::new(),
            phase: Phase::Begin,
            section: Section::Files,
            index: 0,
            max_index: 0,
            item_url: String::new(),
            item_path: Vec::new(),
            outputs: Vec::new(),
            written: 0,
            pending: None,
        }
    }

    fn fail(&mut self, m: String, event: Event) -> (a: Action)
        requires
            old(self).pending is None,
        ensures
            failing(*old(self), *final(self), m@),
            a == Action::Send(event),
    {
        self.phase = Phase::Failing;
        self.pending = Some(m);
        Action::Send(event)
    }

    fn download_failure(&mut self, m: String) -> (a: Action)
        requires
            old(self).pending is None,
        ensures
            download_failure(*old(self), *final(self), a, m@),
    {
        let full = in_context_text("failed to download files", m.as_str());
        self.fail(full, Event::DownloadAllFailed { error: m })
    }

    fn export_failure(&mut self, m: String, chain: &str) -> (a: Action)
        requires
            old(self).pending is None,
        ensures
            export_failure(*old(self), *final(self), a, m@, chain@),
    {
        let full = in_context_text("failed to export", chain);
        self.fail(full, Event::ExportFailed { error: m })
    }

    fn export_io_failure(&mut self, f: IoFailure) -> (a: Action)
        requires
            old(self).pending is None,
        ensures
            export_io_failure(*old(self), *final(self), a, f),
    {
        let mut v: Vec<char> = Vec::new();
        extend_str(&mut v, "I/O error: ");
        extend_str(&mut v, f.text.as_str());
        let m = string_of(&v);
        let chain = in_context_text(m.as_str(), f.chain.as_str());
        assert(m@ =~= "I/O error: "@ + f.text@);
        self.export_failure(m, chain.as_str())
    }

    fn finish_ok(&mut self) -> (a: Action)
        ensures
            finishing_ok(*old(self), *final(self), a),
    {
        self.phase = Phase::Finished;
        Action::Finish(Ok(()))
    }

    fn finish_err(&mut self, m: String) -> (a: Action)
        ensures
            finishing_err(*old(self), *final(self), a, m@),
    {
        self.phase = Phase::Finished;
        Action::Finish(Err(m))
    }

    fn section_start(&mut self, sec: Section) -> (a: Action)
        ensures
            section_start(*old(self), *final(self), a, sec),
    {
        self.phase = Phase::SectionStarted;
        self.section = sec;
        match sec {
            Section::Files => Action::Send(Event::DownloadFilesStarted),
            Section::Thumb => Action::Send(Event::DownloadThumbStarted),
        }
    }

    fn downloads_done(&mut self) -> (a: Action)
        ensures
            downloads_done(*old(self), *final(self), a),
    {
        self.phase = Phase::AllDone;
        Action::Send(Event::DownloadAllDone)
    }

    fn next_item(&mut self, index: usize) -> (a: Action)
        ensures
            next_item(*old(self), *final(self), a, index),
    {
        self.index = index;
        if index <= self.max_index {
            self.phase = Phase::ItemStarted;
            Action::Send(Event::DownloadStarted { index, max_index: self.max_index })
        } else {
            self.phase = Phase::SectionDone;
            match self.section {
                Section::Files => Action::Send(Event::DownloadFilesDone),
                Section::Thumb => Action::Send(Event::DownloadThumbDone),
            }
        }
    }

    fn item_failed(&mut self, m: String) -> (a: Action)
        ensures
            item_failed(*old(self), *final(self), a, m@),
    {
        self.phase = Phase::ItemReported;
        Action::Send(Event::DownloadFailed { url: copy_string(&self.item_url), error: m })
    }

    fn next_output(&mut self, written: usize) -> (a: Action)
        ensures
            next_output(*old(self), *final(self), a, written),
    {
        self.written = written;
        if written < self.outputs.len() {
            self.phase = Phase::Write;
            let path = path_of(&[self.outputs[written].name.as_str()]);
            assert(path_view(path@) =~= seq![self.outputs@[written as int].name@]);
            Action::WriteText { path, contents: copy_string(&self.outputs[written].contents) }
        } else {
            self.phase = Phase::ExportDone;
            Action::Send(Event::ExportDone)
        }
    }

    fn begin_item(&mut self) -> (a: Action)
        requires
            old(self).phase == Phase::ItemStarted,
            wf(*old(self)),
        ensures
            step_spec(*old(self), Reply::Sent(Ok(())), *final(self), a),
    {
        let f = file_at(self.posts.as_slice(), self.index - 1);
        let url = match self.section {
            Section::Files => chars_of(f.url.as_str()),
            Section::Thumb => chars_of(f.url_thumb.as_str()),
        };
        let name = string_of(&trim_chars(&last_piece_chars(&url, '/')));
        let sub = match self.section {
            Section::Files => "files",
            Section::Thumb => "thumb",
        };
        let mut path: Vec<String> = Vec::new();
        path.push(String::from_str(sub));
        path.push(name);
        assert(path_view(path@) =~= seq![subdir(self.section), saved_name(url@)]);
        self.item_url = string_of(&url);
        self.item_path = path;
        if self.config.resume {
            self.phase = Phase::CheckExists;
            Action::CheckExists(copy_path(&self.item_path))
        } else {
            self.phase = Phase::Fetch;
            Action::FetchFile { url: copy_string(&self.item_url), tries: self.config.download_retries }
        }
    }

    /// Takes the posts read from the page.
    fn take_posts(&mut self) -> (a: Action)
        requires
            old(self).phase == Phase::Parse,
            old(self).parsed is Ok,
        ensures
            step_spec(*old(self), Reply::Proceed, *final(self), a),
    {
        let mut parsed: Result<Vec<Post>, Error> = Ok(Vec::new());
        std::mem::swap(&mut parsed, &mut self.parsed);
        match parsed {
            Ok(posts) => {
                self.posts = posts;
                self.phase = Phase::GetDone;
                Action::Send(Event::GetDone)
            },
            Err(_) => {
                proof {
                    assert(false);
                }
                self.finish_ok()
            },
        }
    }
}

/// Advances a run by one step: takes what came of the last action and
/// returns the next one (see `step_spec` for the whole course).
///
/// A run is driven from `RunState::new` with `Reply::Start` until it asks
/// to `Finish`. The files are numbered with `usize` counters, so the posts
/// read from the page must hold fewer than `usize::MAX` files
/// (`parse_fits`).
pub fn run(state: &mut RunState, reply: Reply) -> (action: Action)
    requires
        wf(*old(state)),
        parse_fits(*old(state)),
        expects(old(state).phase, reply),
    ensures
        step_spec(*old(state), reply, *final(state), action),
        wf(*final(state)),
{
    match state.phase {
        Phase::Begin => {
            state.phase = Phase::GetStarted;
            Action::Send(Event::GetStarted)
        },
        Phase::GetStarted => match reply {
            Reply::Sent(Ok(())) => {
                state.phase = Phase::Page;
                Action::FetchPage {
                    url: copy_string(&state.config.url),
                    tries: state.config.download_retries,
                }
            },
            Reply::Sent(Err(m)) => state.finish_err(m),
            _ => {
                proof {
                    assert(false);
                }
                state.finish_ok()
            },
        },
        Phase::Page => match reply {
            Reply::Page(Ok(html)) => {
                state.parsed = Post::parse_posts(html.as_str());
                state.html = html;
                state.phase = Phase::Parse;
                Action::Proceed
            },
            Reply::Page(Err(m)) => state.finish_err(m),
            _ => {
                proof {
                    assert(false);
                }
                state.finish_ok()
            },
        },
        Phase::Parse => {
            if let Err(e) = &state.parsed {
                let (m, chain) = parse_failure_texts(e);
                let full = in_context_text("failed to parse posts", chain.as_str());
                let ghost gm = m@;
                let ghost gc = chain@;
                let a = state.fail(full, Event::GetFailed { error: m });
                assert(parse_texts(old(state).parsed->Err_0, gm, gc) && failing(
                    *old(state),
                    *state,
                    in_context("failed to parse posts"@, gc),
                ));
                assert(a matches Action::Send(Event::GetFailed { error }) && error@ == gm);
                a
            } else {
                state.take_posts()
            }
        },
        Phase::GetDone => match reply {
            Reply::Sent(Ok(())) => {
                state.phase = Phase::AllStarted;
                Action::Send(Event::DownloadAllStarted)
            },
            Reply::Sent(Err(m)) => state.finish_err(m),
            _ => {
                proof {
                    assert(false);
                }
                state.finish_ok()
            },
        },
        Phase::AllStarted => match reply {
            Reply::Sent(Ok(())) => {
                state.phase = Phase::BaseDir;
                Action::CreateDir(Vec::new())
            },
            Reply::Sent(Err(m)) => state.finish_err(m),
            _ => {
                proof {
                    assert(false);
                }
                state.finish_ok()
            },
        },
        Phase::BaseDir => match reply {
            Reply::Done(Ok(())) => {
                if state.config.files {
                    state.section_start(Section::Files)
                } else if state.config.thumb {
                    state.section_start(Section::Thumb)
                } else {
                    state.downloads_done()
                }
            },
            Reply::Done(Err(f)) => state.download_failure(f.chain),
            _ => {
                proof {
                    assert(false);
                }
                state.finish_ok()
            },
        },
        Phase::SectionStarted => match reply {
            Reply::Sent(Ok(())) => {
                state.max_index = count_files(state.posts.as_slice());
                state.phase = Phase::SectionDir;
                let sub = match state.section {
                    Section::Files => "files",
                    Section::Thumb => "thumb",
                };
                let p = path_of(&[sub]);
                assert(path_view(p@) =~= seq![subdir(state.section)]);
                Action::CreateDir(p)
            },
            Reply::Sent(Err(m)) => state.download_failure(m),
            _ => {
                proof {
                    assert(false);
                }
                state.finish_ok()
            },
        },
        Phase::SectionDir => match reply {
            Reply::Done(Ok(())) => state.next_item(1),
            Reply::Done(Err(f)) => state.download_failure(f.chain),
            _ => {
                proof {
                    assert(false);
                }
                state.finish_ok()
            },
        },
        Phase::ItemStarted => match reply {
            Reply::Sent(Ok(())) => state.begin_item(),
            Reply::Sent(Err(m)) => state.download_failure(m),
            _ => {
                proof {
                    assert(false);
                }
                state.finish_ok()
            },
        },
        Phase::CheckExists => match reply {
            Reply::Exists(true) => {
                state.phase = Phase::ItemReported;
                Action::Send(Event::DownloadSkipped { index: state.index, max_index: state.max_index })
            },
            Reply::Exists(false) => {
                state.phase = Phase::Fetch;
                Action::FetchFile {
                    url: copy_string(&state.item_url),
                    tries: state.config.download_retries,
                }
            },
            _ => {
                proof {
                    assert(false);
                }
                state.finish_ok()
            },
        },
        Phase::Fetch => match reply {
            Reply::Fetched(Ok(n)) => {
                if n == 0 {
                    let m = Error::EmptyFile(copy_string(&state.item_url)).message();
                    state.item_failed(m)
                } else {
                    state.phase = Phase::Save;
                    Action::SaveFile(copy_path(&state.item_path))
                }
            },
            Reply::Fetched(Err(m)) => state.item_failed(m),
            _ => {
                proof {
                    assert(false);
                }
                state.finish_ok()
            },
        },
        Phase::Save => match reply {
            Reply::Done(Ok(())) => {
                state.phase = Phase::ItemReported;
                Action::Send(Event::DownloadDone { index: state.index, max_index: state.max_index })
            },
            Reply::Done(Err(f)) => state.item_failed(f.chain),
            _ => {
                proof {
                    assert(false);
                }
                state.finish_ok()
            },
        },
        Phase::ItemReported => match reply {
            Reply::Sent(Ok(())) => state.next_item(state.index + 1),
            Reply::Sent(Err(m)) => state.download_failure(m),
            _ => {
                proof {
                    assert(false);
                }
                state.finish_ok()
            },
        },
        Phase::SectionDone => match reply {
            Reply::Sent(Ok(())) => {
                if state.section == Section::Files && state.config.thumb {
                    state.section_start(Section::Thumb)
                } else {
                    state.downloads_done()
                }
            },
            Reply::Sent(Err(m)) => state.download_failure(m),
            _ => {
                proof {
                    assert(false);
                }
                state.finish_ok()
            },
        },
        Phase::AllDone => match reply {
            Reply::Sent(Ok(())) => {
                state.phase = Phase::ExportStarted;
                Action::Send(Event::ExportStarted)
            },
            Reply::Sent(Err(m)) => state.finish_err(m),
            _ => {
                proof {
                    assert(false);
                }
                state.finish_ok()
            },
        },
        Phase::ExportStarted => match reply {
            Reply::Sent(Ok(())) => {
                let res = state.config.exporter.export(state.posts.as_slice(), &state.config);
                let ghost gres = res;
                match res {
                    Ok(files) => {
                        state.outputs = files;
                        state.written = 0;
                        state.phase = Phase::ExportDir;
                        Action::CreateDir(Vec::new())
                    },
                    Err(e) => {
                        let m = e.message();
                        let chain = copy_string(&m);
                        state.export_failure(m, chain.as_str())
                    },
                }
            },
            Reply::Sent(Err(m)) => state.finish_err(m),
            _ => {
                proof {
                    assert(false);
                }
                state.finish_ok()
            },
        },
        Phase::ExportDir => match reply {
            Reply::Done(Ok(())) => state.next_output(state.written),
            Reply::Done(Err(f)) => state.export_io_failure(f),
            _ => {
                proof {
                    assert(false);
                }
                state.finish_ok()
            },
        },
        Phase::Write => match reply {
            Reply::Done(Ok(())) => {
                assert(state.outputs.len() == state.outputs@.len());
                let w = state.written + 1;
                state.next_output(w)
            },
            Reply::Done(Err(f)) => state.export_io_failure(f),
            _ => {
                proof {
                    assert(false);
                }
                state.finish_ok()
            },
        },
        Phase::ExportDone => match reply {
            Reply::Sent(Ok(())) => state.finish_ok(),
            Reply::Sent(Err(m)) => state.finish_err(m),
            _ => {
                proof {
                    assert(false);
                }
                state.finish_ok()
            },
        },
        Phase::Failing => {
            let e = state.pending.take();
            match e {
                Some(m) => state.finish_err(m),
                None => {
                proof {
                    assert(false);
                }
                state.finish_ok()
            },
            }
        },
        Phase::Finished => {
                proof {
                    assert(false);
                }
                state.finish_ok()
            },
    }
}

} // verus!
