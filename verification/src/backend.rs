//! Scraping threads, as state machines.
//!
//! `scrape_thread` starts the machine for one thread: fetch the page (three
//! tries, three seconds apart), read its posts, and export it into a folder
//! named after its first post, with its files and thumbnails when asked
//! for. `run` starts the machine that scrapes every thread of the settings
//! in turn and then writes the index page. The machines decide; the program
//! that drives them performs what they ask for and hands back what came of
//! it, together with the current time in milliseconds.

use vstd::prelude::*;
use crate::config::Config;
use crate::error::{Error, in_context, in_context_text, is_message};
use crate::events::Event;
use crate::export::{index_html, index_page, thread_dir, thread_page};
use crate::file::File;
use crate::http::{
    fetch_expects, fetch_step, fetch_with_retry, fetch_wf, lemma_fetch_reports_in_range, FetchPhase,
    FetchRetry, FetchStep,
};
use crate::post::{reads_page, Post};
use crate::render::page_html;
use crate::text::{
    chars_of, decimal, extend_chars, extend_str, last_piece, last_piece_chars, string_of,
};

verus! {

/// How many times the thread page is fetched, and each asset downloaded.
pub const ATTEMPTS: u32 = 3;

/// How long to wait after a failed attempt, in seconds.
pub const RETRY_WAIT_SECS: u64 = 3;

/// What the driver hands back after doing what a machine asked for.
pub enum Reply {
    /// The machine begins.
    Start,
    /// An event was reported, or a wait is over.
    Done,
    /// The page was fetched, or the error's text.
    Got(Result<String, String>),
    /// A directory was created or a file written, or the error's text.
    Io(Result<(), String>),
    /// Whether a path exists.
    Exists(bool),
    /// An asset was downloaded and saved, or the error's text.
    Downloaded(Result<(), String>),
}

/// What a machine asks the driver to do.
pub enum Action {
    /// Report an event.
    Report(Event),
    /// Fetch a page.
    Get(String),
    /// Wait this many seconds.
    Sleep(u64),
    /// Nothing to do: hand back `Done` with the current time, so that the
    /// machine can tell how long its own work took.
    Tick,
    /// Create a directory and its parents.
    CreateDir(String),
    /// Tell whether a path exists.
    CheckExists(String),
    /// Download a URL and save it at a path.
    Download { url: String, path: String },
    /// Write text to a path.
    WriteFile { path: String, contents: String },
    /// The thread is scraped: its first post, or what went wrong.
    Scraped(Result<Post, String>),
    /// Everything is done, with this result.
    Finish(Result<(), String>),
}

/// Time passed since `start`, in milliseconds (none if the clock went back).
pub open spec fn elapsed(now: u128, start: u128) -> u128 {
    if now >= start {
        (now - start) as u128
    } else {
        0
    }
}

fn elapsed_ms(now: u128, start: u128) -> (e: u128)
    ensures
        e == elapsed(now, start),
{
    if now >= start {
        now - start
    } else {
        0
    }
}

/// Which assets a batch downloads.
#[derive(Clone, Copy, PartialEq, Eq, Structural, Debug)]
pub enum Batch {
    Files,
    Thumb,
}

/// The label a batch reports itself under.
pub open spec fn batch_label(b: Batch) -> Seq<char> {
    match b {
        Batch::Files => "files"@,
        Batch::Thumb => "thumbnails"@,
    }
}

/// The folder of a batch inside the thread folder.
pub open spec fn batch_dir(dir: Seq<char>, b: Batch) -> Seq<char> {
    match b {
        Batch::Files => dir + "/files"@,
        Batch::Thumb => dir + "/thumb"@,
    }
}

/// The URL a batch downloads for a file.
pub open spec fn batch_url(b: Batch, f: File) -> Seq<char> {
    match b {
        Batch::Files => f.url@,
        Batch::Thumb => f.url_thumb@,
    }
}

/// Where the scrape of a thread is: what the last action was, whose reply
/// comes next.
#[derive(Clone, Copy, PartialEq, Eq, Structural, Debug)]
pub enum ScrapePhase {
    Begin,
    FetchStarted,
    Fetching,
    FetchDone,
    ParseStarted,
    Parse,
    ParseDone,
    ThreadDir,
    BatchDir,
    BatchStarted,
    AssetExists,
    AssetDownload,
    AssetFailed,
    AssetSleep,
    AssetSkipped,
    Progress,
    BatchDone,
    WritePage,
    ThreadDone,
    Finished,
}

/// The state of the scrape of one thread.
pub struct ThreadScrape {
    pub url: String,
    pub config: Config,
    pub phase: ScrapePhase,
    /// The fetched page, until it is read.
    pub html: String,
    /// What reading the page gave, until it is taken.
    pub parsed: Result<Vec<Post>, Error>,
    pub posts: Vec<Post>,
    /// The thread folder.
    pub dir: String,
    pub batch: Batch,
    /// Current post and file of the batch.
    pub post_i: usize,
    pub file_i: usize,
    /// The fetch of the page, while it runs.
    pub fetch: FetchRetry,
    /// Attempt number of the current download.
    pub attempt: u32,
    /// Name and path of the current asset.
    pub filename: String,
    pub path: String,
    /// When the thread, the fetch, the parse and the batch started.
    pub t_total: u128,
    pub t_fetch: u128,
    pub t_parse: u128,
    pub t_batch: u128,
}

/// The reply is the kind that the phase waits for.
pub open spec fn scrape_expects(s: ThreadScrape, r: Reply) -> bool {
    match s.phase {
        ScrapePhase::Begin => r is Start,
        ScrapePhase::Fetching => fetch_expects(s.fetch.phase, r),
        ScrapePhase::ThreadDir | ScrapePhase::BatchDir | ScrapePhase::WritePage => r is Io,
        ScrapePhase::AssetExists => r is Exists,
        ScrapePhase::AssetDownload => r is Downloaded,
        ScrapePhase::Finished => false,
        _ => r is Done,
    }
}

/// The state is consistent: attempts are counted from 1 to 3 while
/// fetching or downloading, and the position in a batch stays within the
/// posts and their files.
pub open spec fn scrape_wf(s: ThreadScrape) -> bool {
    &&& (s.phase == ScrapePhase::Fetching ==> {
        &&& fetch_wf(s.fetch)
        &&& s.fetch.phase != FetchPhase::Begin
        &&& s.fetch.phase != FetchPhase::Finished
        &&& s.fetch.attempts == ATTEMPTS
    })
    &&& match s.phase {
        ScrapePhase::AssetDownload
        | ScrapePhase::AssetFailed | ScrapePhase::AssetSleep => 1 <= s.attempt <= ATTEMPTS,
        _ => true,
    }
    &&& match s.phase {
        ScrapePhase::BatchStarted | ScrapePhase::Progress | ScrapePhase::AssetExists
        | ScrapePhase::AssetDownload | ScrapePhase::AssetFailed | ScrapePhase::AssetSleep
        | ScrapePhase::AssetSkipped => s.post_i < s.posts@.len(),
        _ => true,
    }
    &&& match s.phase {
        ScrapePhase::AssetExists | ScrapePhase::AssetDownload | ScrapePhase::AssetFailed
        | ScrapePhase::AssetSleep | ScrapePhase::AssetSkipped => s.file_i < s.posts@[s.post_i as int].files@.len(),
        _ => true,
    }
    &&& match s.phase {
        ScrapePhase::ThreadDir | ScrapePhase::BatchDir | ScrapePhase::BatchStarted
        | ScrapePhase::AssetExists | ScrapePhase::AssetDownload | ScrapePhase::AssetFailed
        | ScrapePhase::AssetSleep | ScrapePhase::AssetSkipped | ScrapePhase::Progress
        | ScrapePhase::BatchDone | ScrapePhase::WritePage | ScrapePhase::ThreadDone => s.posts@.len() > 0,
        _ => true,
    }
}

/// The scrape of the thread ends with its first post `p`, which it hands
/// over.
pub open spec fn scrape_done(s: ThreadScrape, t: ThreadScrape, a: Action, p: Post) -> bool {
    &&& t == ThreadScrape { phase: ScrapePhase::Finished, posts: t.posts, ..s }
    &&& a == Action::Scraped(Ok(p))
}

/// The scrape of the thread fails with the text `m`.
pub open spec fn scrape_fails(s: ThreadScrape, t: ThreadScrape, a: Action, m: Seq<char>) -> bool {
    &&& t == ThreadScrape { phase: ScrapePhase::Finished, ..s }
    &&& a matches Action::Scraped(Err(e))
    &&& e@ == m
}

/// What a page reading error says: "missing" and the name of a missing
/// element, the integer parser's own text for a post id that is not a
/// number (not stated here), else the error's message.
pub open spec fn reading_error_text(e: Error, m: Seq<char>) -> bool {
    match e {
        Error::MissingElement(name) => m == "missing "@ + name@,
        Error::ParseInt(_) => true,
        _ => is_message(e, m),
    }
}

/// The text of a page that could not be read: what the reading error
/// says, under its context.
pub open spec fn parse_failure(e: Error, m: Seq<char>) -> bool {
    let ctx = "failed to parse thread HTML: "@;
    &&& m.len() >= ctx.len()
    &&& m.take(ctx.len() as int) == ctx
    &&& reading_error_text(e, m.skip(ctx.len() as int))
}

/// The text of a thread without posts.
pub open spec fn no_posts_failure() -> Seq<char> {
    "thread has no posts"@
}

/// The text of a failed export step.
pub open spec fn export_failure(m: Seq<char>) -> Seq<char> {
    in_context("failed to export thread"@, m)
}

/// The batch `b` starts: its folder is created.
pub open spec fn start_batch(s: ThreadScrape, t: ThreadScrape, a: Action, b: Batch) -> bool {
    &&& t == ThreadScrape { phase: ScrapePhase::BatchDir, batch: b, ..s }
    &&& a matches Action::CreateDir(d)
    &&& d@ == batch_dir(s.dir@, b)
}

/// The page of the thread is written into its folder.
pub open spec fn write_page(s: ThreadScrape, t: ThreadScrape, a: Action) -> bool {
    &&& t == ThreadScrape { phase: ScrapePhase::WritePage, ..s }
    &&& a matches Action::WriteFile { path, contents }
    &&& path@ == s.dir@ + "/index.html"@
    &&& contents@ == page_html(s.posts@, s.config.files, s.config.thumb)
}

/// After the thread folder: the files batch when files are wanted, else
/// the thumbnails batch when those are, else the page.
pub open spec fn first_batch(s: ThreadScrape, t: ThreadScrape, a: Action) -> bool {
    if s.config.files {
        start_batch(s, t, a, Batch::Files)
    } else if s.config.thumb {
        start_batch(s, t, a, Batch::Thumb)
    } else {
        write_page(s, t, a)
    }
}

/// The asset at file `file_i` of post `post_i` of the batch is checked (when
/// resuming) or downloaded; past the files of a post, the batch's progress
/// is reported; past the last post, the batch is done.
pub open spec fn next_asset(s: ThreadScrape, t: ThreadScrape, a: Action, post_i: usize, file_i: usize, now: u128) -> bool {
    if post_i < s.posts@.len() {
        if file_i < s.posts@[post_i as int].files@.len() {
            let url = batch_url(s.batch, s.posts@[post_i as int].files@[file_i as int]);
            let name = last_piece(url, '/');
            let path = batch_dir(s.dir@, s.batch) + "/"@ + name;
            &&& t.filename@ == name
            &&& t.path@ == path
            &&& if s.config.resume {
                &&& t == ThreadScrape { phase: ScrapePhase::AssetExists, post_i, file_i, filename: t.filename, path: t.path, ..s }
                &&& a matches Action::CheckExists(p)
                &&& p@ == path
            } else {
                &&& t == ThreadScrape { phase: ScrapePhase::AssetDownload, post_i, file_i, attempt: 1, filename: t.filename, path: t.path, ..s }
                &&& a matches Action::Download { url: u, path: p }
                &&& u@ == url
                &&& p@ == path
            }
        } else {
            &&& t == ThreadScrape { phase: ScrapePhase::Progress, post_i, file_i, ..s }
            &&& a matches Action::Report(Event::DownloadBatchProgress { label, done, total })
            &&& label@ == batch_label(s.batch)
            &&& done == post_i + 1
            &&& total == s.posts@.len()
        }
    } else {
        &&& t == ThreadScrape { phase: ScrapePhase::BatchDone, post_i, file_i, ..s }
        &&& a matches Action::Report(Event::DownloadBatchDone { label, elapsed_ms })
        &&& label@ == batch_label(s.batch)
        &&& elapsed_ms == elapsed(now, s.t_batch)
    }
}

/// One step of the scrape of a thread, from the state `s`, the reply `r`
/// and the time `now` to the state `t` and the action `a`.
///
/// The scrape reports `FetchStarted`, fetches the page with up to three
/// attempts (`fetch_with_retry`: after each failure it reports
/// `FetchRetrying` with the attempt number and waits three seconds unless
/// it was the last; after the third failure the scrape fails with "failed
/// to get thread after 3 attempts"), reports `FetchDone` with the time the
/// fetch took, then `ParseStarted`, reads the posts (a failure ends the
/// scrape in the context "failed to parse thread HTML") and reports
/// `ParseDone` with their count and the time. A thread without posts fails
/// with "thread has no posts". The thread folder (the id of the first post)
/// is created, then the files and the thumbnails batch each run when asked
/// for: the batch folder, `DownloadBatchStarted`, and for each post each
/// asset (skipped without a word when resuming and its file exists; else
/// downloaded up to three times, each failure reported with
/// `DownloadAssetFailed` and followed by a three-second wait, and after
/// three failures `DownloadAssetSkipped`), then the post's
/// `DownloadBatchProgress`; at the end `DownloadBatchDone`. Last, the page
/// is written, `ThreadDone` reported, and the scrape ends with the first
/// post. A directory or file that cannot be made ends the scrape, its error
/// in the context "failed to export thread".
pub open spec fn scrape_step(s: ThreadScrape, r: Reply, now: u128, t: ThreadScrape, a: Action) -> bool {
    match s.phase {
        ScrapePhase::Begin => {
            &&& t == ThreadScrape { phase: ScrapePhase::FetchStarted, t_total: now, ..s }
            &&& a matches Action::Report(Event::FetchStarted { url })
            &&& url@ == s.url@
        },
        ScrapePhase::FetchStarted => {
            &&& t == ThreadScrape { phase: ScrapePhase::Fetching, t_fetch: now, fetch: t.fetch, ..s }
            &&& t.fetch == FetchRetry { phase: FetchPhase::Get, attempt: 1, attempts: ATTEMPTS, url: t.fetch.url }
            &&& t.fetch.url@ == s.url@
            &&& a matches Action::Get(u)
            &&& u@ == s.url@
        },
        ScrapePhase::Fetching => exists|f: FetchRetry, st: FetchStep|
            #![trigger fetch_step(s.fetch, r, f, st)]
            {
                &&& fetch_step(s.fetch, r, f, st)
                &&& match st {
                    FetchStep::Done(Ok(html)) => {
                        &&& t == ThreadScrape { phase: ScrapePhase::FetchDone, html, fetch: f, ..s }
                        &&& a matches Action::Report(Event::FetchDone { elapsed_ms })
                        &&& elapsed_ms == elapsed(now, s.t_fetch)
                    },
                    FetchStep::Done(Err(m)) => scrape_fails(ThreadScrape { fetch: f, ..s }, t, a, m@),
                    FetchStep::Ask(x) => t == ThreadScrape { fetch: f, ..s } && a == x,
                }
            },
        ScrapePhase::FetchDone => {
            &&& t == ThreadScrape { phase: ScrapePhase::ParseStarted, ..s }
            &&& a matches Action::Report(Event::ParseStarted)
        },
        ScrapePhase::ParseStarted => {
            &&& t == ThreadScrape { phase: ScrapePhase::Parse, t_parse: now, parsed: t.parsed, ..s }
            &&& reads_page(t.parsed, s.html@)
            &&& a == Action::Tick
        },
        ScrapePhase::Parse => match s.parsed {
            Ok(posts) => {
                &&& t == ThreadScrape { phase: ScrapePhase::ParseDone, posts, parsed: t.parsed, ..s }
                &&& a matches Action::Report(Event::ParseDone { post_count, elapsed_ms })
                &&& post_count == posts@.len()
                &&& elapsed_ms == elapsed(now, s.t_parse)
            },
            Err(e) => {
                &&& t == ThreadScrape { phase: ScrapePhase::Finished, parsed: t.parsed, ..s }
                &&& a matches Action::Scraped(Err(m))
                &&& parse_failure(e, m@)
            },
        },
        ScrapePhase::ParseDone => if s.posts@.len() == 0 {
            scrape_fails(s, t, a, no_posts_failure())
        } else {
            &&& t == ThreadScrape { phase: ScrapePhase::ThreadDir, dir: t.dir, ..s }
            &&& t.dir@ == decimal(s.posts@[0].id as nat)
            &&& a matches Action::CreateDir(d)
            &&& d@ == t.dir@
        },
        ScrapePhase::ThreadDir => match r {
            Reply::Io(Ok(())) => first_batch(s, t, a),
            Reply::Io(Err(m)) => scrape_fails(s, t, a, export_failure(m@)),
            _ => false,
        },
        ScrapePhase::BatchDir => match r {
            Reply::Io(Ok(())) => {
                &&& t == ThreadScrape { phase: ScrapePhase::BatchStarted, t_batch: now, post_i: 0, file_i: 0, ..s }
                &&& a matches Action::Report(Event::DownloadBatchStarted { label, total_posts })
                &&& label@ == batch_label(s.batch)
                &&& total_posts == s.posts@.len()
            },
            Reply::Io(Err(m)) => scrape_fails(
                s,
                t,
                a,
                export_failure(in_context("Failed to create directory "@ + batch_dir(s.dir@, s.batch), m@)),
            ),
            _ => false,
        },
        ScrapePhase::BatchStarted => next_asset(s, t, a, 0, 0, now),
        ScrapePhase::AssetExists => match r {
            Reply::Exists(true) => next_asset(s, t, a, s.post_i, (s.file_i + 1) as usize, now),
            Reply::Exists(false) => {
                &&& t == ThreadScrape { phase: ScrapePhase::AssetDownload, attempt: 1, ..s }
                &&& a matches Action::Download { url, path }
                &&& url@ == batch_url(s.batch, s.posts@[s.post_i as int].files@[s.file_i as int])
                &&& path@ == s.path@
            },
            _ => false,
        },
        ScrapePhase::AssetDownload => match r {
            Reply::Downloaded(Ok(())) => next_asset(s, t, a, s.post_i, (s.file_i + 1) as usize, now),
            Reply::Downloaded(Err(msg)) => {
                &&& t == ThreadScrape { phase: ScrapePhase::AssetFailed, ..s }
                &&& a matches Action::Report(Event::DownloadAssetFailed { label, filename, attempt, error })
                &&& label@ == batch_label(s.batch)
                &&& filename@ == s.filename@
                &&& attempt == s.attempt
                &&& error@ == msg@
            },
            _ => false,
        },
        ScrapePhase::AssetFailed => t == ThreadScrape { phase: ScrapePhase::AssetSleep, ..s } && a == Action::Sleep(RETRY_WAIT_SECS),
        ScrapePhase::AssetSleep => if s.attempt < ATTEMPTS {
            &&& t == ThreadScrape { phase: ScrapePhase::AssetDownload, attempt: (s.attempt + 1) as u32, ..s }
            &&& a matches Action::Download { url, path }
            &&& url@ == batch_url(s.batch, s.posts@[s.post_i as int].files@[s.file_i as int])
            &&& path@ == s.path@
        } else {
            &&& t == ThreadScrape { phase: ScrapePhase::AssetSkipped, ..s }
            &&& a matches Action::Report(Event::DownloadAssetSkipped { label, filename })
            &&& label@ == batch_label(s.batch)
            &&& filename@ == s.filename@
        },
        ScrapePhase::AssetSkipped => next_asset(s, t, a, s.post_i, (s.file_i + 1) as usize, now),
        ScrapePhase::Progress => next_asset(s, t, a, (s.post_i + 1) as usize, 0, now),
        ScrapePhase::BatchDone => if s.batch == Batch::Files && s.config.thumb {
            start_batch(s, t, a, Batch::Thumb)
        } else {
            write_page(s, t, a)
        },
        ScrapePhase::WritePage => match r {
            Reply::Io(Ok(())) => {
                &&& t == ThreadScrape { phase: ScrapePhase::ThreadDone, ..s }
                &&& a matches Action::Report(Event::ThreadDone { url, elapsed_ms })
                &&& url@ == s.url@
                &&& elapsed_ms == elapsed(now, s.t_total)
            },
            Reply::Io(Err(m)) => scrape_fails(s, t, a, export_failure(m@)),
            _ => false,
        },
        ScrapePhase::ThreadDone => s.posts@.len() > 0 && scrape_done(s, t, a, s.posts@[0]),
        ScrapePhase::Finished => false,
    }
}

/// Every attempt a scrape reports is numbered from 1 up to the number of
/// attempts, and every batch progress counts posts from 1 up to their
/// number.
pub proof fn lemma_reported_counts_in_range(s: ThreadScrape, r: Reply, now: u128, t: ThreadScrape, a: Action)
    requires
        scrape_wf(s),
        scrape_step(s, r, now, t, a),
    ensures
        a matches Action::Report(Event::FetchRetrying { attempt, max_attempts, .. }) ==> 1 <= attempt
            <= max_attempts && max_attempts == ATTEMPTS,
        a matches Action::Report(Event::DownloadAssetFailed { attempt, .. }) ==> 1 <= attempt
            <= ATTEMPTS,
        a matches Action::Report(Event::DownloadBatchProgress { done, total, .. }) ==> 1 <= done
            <= total,
{
}

/// Once the page is read, the posts a thread scrape holds are those read
/// from the page it fetched.
pub open spec fn posts_of_fetched_page(s: ThreadScrape) -> bool {
    match s.phase {
        ScrapePhase::Begin | ScrapePhase::FetchStarted | ScrapePhase::Fetching
        | ScrapePhase::FetchDone | ScrapePhase::ParseStarted | ScrapePhase::Finished => true,
        ScrapePhase::Parse => reads_page(s.parsed, s.html@),
        _ => reads_page(Ok(s.posts), s.html@),
    }
}

/// A thread scrape exports what the page it fetched holds: the page it
/// writes is the page of the posts that `Post::parse_posts` reads from the
/// fetched page, and the post it hands on is the first of them.
pub proof fn lemma_scrape_exports_the_page_read(
    s: ThreadScrape,
    r: Reply,
    now: u128,
    t: ThreadScrape,
    a: Action,
)
    requires
        scrape_wf(s),
        posts_of_fetched_page(s),
        scrape_step(s, r, now, t, a),
    ensures
        posts_of_fetched_page(t),
        a matches Action::WriteFile { contents, .. } ==> reads_page(Ok(t.posts), t.html@)
            && contents@ == page_html(t.posts@, s.config.files, s.config.thumb),
        a matches Action::Scraped(Ok(p)) ==> reads_page(Ok(s.posts), s.html@) && p == s.posts@[0],
{
}

/// The phase belongs to the downloading of a batch.
pub open spec fn in_batch(phase: ScrapePhase) -> bool {
    match phase {
        ScrapePhase::BatchDir | ScrapePhase::BatchStarted | ScrapePhase::AssetExists
        | ScrapePhase::AssetDownload | ScrapePhase::AssetFailed | ScrapePhase::AssetSleep
        | ScrapePhase::AssetSkipped | ScrapePhase::Progress | ScrapePhase::BatchDone => true,
        _ => false,
    }
}

/// While a batch runs, it is one the settings ask for: files with `files`,
/// thumbnails with `thumb`.
pub open spec fn batches_as_asked(s: ThreadScrape) -> bool {
    in_batch(s.phase) ==> match s.batch {
        Batch::Files => s.config.files,
        Batch::Thumb => s.config.thumb,
    }
}

/// A scrape downloads only what its settings ask for: every batch it runs
/// is asked for, so without `files` and `thumb` nothing is downloaded, and
/// it looks for existing assets only when resuming.
pub proof fn lemma_downloads_as_asked(s: ThreadScrape, r: Reply, now: u128, t: ThreadScrape, a: Action)
    requires
        scrape_wf(s),
        batches_as_asked(s),
        scrape_step(s, r, now, t, a),
    ensures
        batches_as_asked(t),
        t.config == s.config,
        (a is Download || a is CheckExists) ==> in_batch(t.phase) && batches_as_asked(t),
        !s.config.files && !s.config.thumb ==> !(a is Download || a is CheckExists),
        a is CheckExists ==> s.config.resume,
{
}

/// The folder of a thread: the id of its first post.
pub open spec fn thread_folder(posts: Seq<Post>) -> Seq<char> {
    decimal(posts[0].id as nat)
}

/// Once the posts are read, the scrape works in the thread folder, and the
/// current asset is saved in its batch folder under the name its URL ends
/// with.
pub open spec fn folders_consistent(s: ThreadScrape) -> bool {
    &&& match s.phase {
        ScrapePhase::ThreadDir | ScrapePhase::BatchDir | ScrapePhase::BatchStarted
        | ScrapePhase::AssetExists | ScrapePhase::AssetDownload | ScrapePhase::AssetFailed
        | ScrapePhase::AssetSleep | ScrapePhase::AssetSkipped | ScrapePhase::Progress
        | ScrapePhase::BatchDone | ScrapePhase::WritePage | ScrapePhase::ThreadDone => s.dir@
            == thread_folder(s.posts@),
        _ => true,
    }
    &&& match s.phase {
        ScrapePhase::AssetExists | ScrapePhase::AssetDownload | ScrapePhase::AssetFailed
        | ScrapePhase::AssetSleep | ScrapePhase::AssetSkipped => {
            &&& s.filename@ == last_piece(
                batch_url(s.batch, s.posts@[s.post_i as int].files@[s.file_i as int]),
                '/',
            )
            &&& s.path@ == batch_dir(s.dir@, s.batch) + "/"@ + s.filename@
        },
        _ => true,
    }
}

/// Everything a scrape creates, looks for or writes lies in the folder of
/// the thread, named after its first post: the folder itself, its `files`
/// and `thumb` folders with the assets named after the last part of their
/// URLs, and its `index.html`.
pub proof fn lemma_writes_in_thread_folder(s: ThreadScrape, r: Reply, now: u128, t: ThreadScrape, a: Action)
    requires
        scrape_wf(s),
        folders_consistent(s),
        scrape_step(s, r, now, t, a),
    ensures
        folders_consistent(t),
        a matches Action::CreateDir(d) ==> d@ == thread_folder(t.posts@) || d@ == batch_dir(
            thread_folder(t.posts@),
            t.batch,
        ),
        a matches Action::CheckExists(p) ==> p@ == batch_dir(thread_folder(t.posts@), t.batch) + "/"@
            + t.filename@,
        a matches Action::Download { path, .. } ==> path@ == batch_dir(thread_folder(t.posts@), t.batch)
            + "/"@ + t.filename@,
        a matches Action::WriteFile { path, .. } ==> path@ == thread_folder(t.posts@) + "/index.html"@,
{
}

fn copy_string(s: &String) -> (r: String)
    ensures
        r@ == s@,
{
    string_of(&chars_of(s.as_str()))
}

fn joined(a: &Vec<char>, b: &str) -> (s: String)
    ensures
        s@ == a@ + b@,
{
    let mut v: Vec<char> = Vec::new();
    extend_chars(&mut v, a);
    extend_str(&mut v, b);
    string_of(&v)
}

/// A copy of the settings.
pub fn copy_config(c: &Config) -> (r: Config)
    ensures
        Seq::new(r.urls@.len(), |i: int| r.urls@[i]@) == Seq::new(c.urls@.len(), |i: int| c.urls@[i]@),
        r.thumb == c.thumb,
        r.files == c.files,
        r.resume == c.resume,
{
    let mut urls: Vec<String> = Vec::new();
    let mut i: usize = 0;
    while i < c.urls.len()
        invariant
            i <= c.urls.len(),
            Seq::new(urls@.len(), |k: int| urls@[k]@) == Seq::new(i as nat, |k: int| c.urls@[k]@),
        decreases c.urls.len() - i,
    {
        let u = copy_string(&c.urls[i]);
        let ghost before = Seq::new(urls@.len(), |k: int| urls@[k]@);
        let ghost uv = u@;
        urls.push(u);
        assert(Seq::new(urls@.len(), |k: int| urls@[k]@) =~= before.push(uv));
        i = i + 1;
        assert(Seq::new(urls@.len(), |k: int| urls@[k]@) =~= Seq::new(i as nat, |k: int| c.urls@[k]@));
    }
    Config { urls, thumb: c.thumb, files: c.files, resume: c.resume }
}

fn parse_failure_text(e: &Error) -> (r: String)
    ensures
        parse_failure(*e, r@),
{
    let ctx = "failed to parse thread HTML: ";
    let msg = match e {
        Error::MissingElement(name) => {
            let mut m: Vec<char> = Vec::new();
            extend_str(&mut m, "missing ");
            extend_str(&mut m, name);
            string_of(&m)
        },
        Error::ParseInt(pe) => pe.to_string(),
        _ => e.message(),
    };
    let mut v: Vec<char> = Vec::new();
    extend_str(&mut v, ctx);
    extend_str(&mut v, msg.as_str());
    proof {
        reveal_strlit("failed to parse thread HTML: ");
        assert(v@.take(ctx@.len() as int) =~= ctx@);
        assert(v@.skip(ctx@.len() as int) =~= msg@);
    }
    string_of(&v)
}

/// Starts the scrape of the thread at `url` with the given settings; the
/// machine has done nothing yet.
pub fn scrape_thread(url: &str, config: &Config) -> (m: ThreadScrape)
    ensures
        m.phase == ScrapePhase::Begin,
        m.url@ == url@,
        Seq::new(m.config.urls@.len(), |i: int| m.config.urls@[i]@) == Seq::new(
            config.urls@.len(),
            |i: int| config.urls@[i]@,
        ),
        m.config.thumb == config.thumb,
        m.config.files == config.files,
        m.config.resume == config.resume,
        m.posts@.len() == 0,
        scrape_wf(m),
{
    ThreadScrape {
        url: string_of(&chars_of(url)),
        config: copy_config(config),
        phase: ScrapePhase::Begin,
        html: String::new(),
        parsed: Ok(Vec::new()),
        posts: Vec::new(),
        dir: String::new(),
        batch: Batch::Files,
        post_i: 0,
        file_i: 0,
        fetch: fetch_with_retry(url, ATTEMPTS),
        attempt: 0,
        filename: String::new(),
        path: String::new(),
        t_total: 0,
        t_fetch: 0,
        t_parse: 0,
        t_batch: 0,
    }
}

impl ThreadScrape {
    fn fail(&mut self, m: String) -> (a: Action)
        ensures
            scrape_fails(*old(self), *final(self), a, m@),
    {
        self.phase = ScrapePhase::Finished;
        Action::Scraped(Err(m))
    }

    fn start_batch(&mut self, b: Batch) -> (a: Action)
        ensures
            start_batch(*old(self), *final(self), a, b),
    {
        self.phase = ScrapePhase::BatchDir;
        self.batch = b;
        let d = chars_of(self.dir.as_str());
        let dir = match b {
            Batch::Files => joined(&d, "/files"),
            Batch::Thumb => joined(&d, "/thumb"),
        };
        Action::CreateDir(dir)
    }

    fn write_page(&mut self) -> (a: Action)
        ensures
            write_page(*old(self), *final(self), a),
    {
        self.phase = ScrapePhase::WritePage;
        let path = joined(&chars_of(self.dir.as_str()), "/index.html");
        let contents = thread_page(self.posts.as_slice(), &self.config);
        Action::WriteFile { path, contents }
    }

    fn next_asset(&mut self, post_i: usize, file_i: usize, now: u128) -> (a: Action)
        requires
            post_i <= old(self).posts@.len(),
            post_i < old(self).posts@.len() ==> file_i <= old(self).posts@[post_i as int].files@.len(),
        ensures
            next_asset(*old(self), *final(self), a, post_i, file_i, now),
    {
        self.post_i = post_i;
        self.file_i = file_i;
        if post_i < self.posts.len() {
            if file_i < self.posts[post_i].files.len() {
                let f = &self.posts[post_i].files[file_i];
                let url = match self.batch {
                    Batch::Files => chars_of(f.url.as_str()),
                    Batch::Thumb => chars_of(f.url_thumb.as_str()),
                };
                let name = last_piece_chars(&url, '/');
                let mut p: Vec<char> = chars_of(self.dir.as_str());
                match self.batch {
                    Batch::Files => extend_str(&mut p, "/files"),
                    Batch::Thumb => extend_str(&mut p, "/thumb"),
                }
                extend_str(&mut p, "/");
                extend_chars(&mut p, &name);
                self.filename = string_of(&name);
                self.path = string_of(&p);
                if self.config.resume {
                    self.phase = ScrapePhase::AssetExists;
                    Action::CheckExists(copy_string(&self.path))
                } else {
                    self.phase = ScrapePhase::AssetDownload;
                    self.attempt = 1;
                    Action::Download { url: string_of(&url), path: copy_string(&self.path) }
                }
            } else {
                self.phase = ScrapePhase::Progress;
                let label = match self.batch {
                    Batch::Files => String::from_str("files"),
                    Batch::Thumb => String::from_str("thumbnails"),
                };
                Action::Report(
                    Event::DownloadBatchProgress { label, done: post_i + 1, total: self.posts.len() },
                )
            }
        } else {
            self.phase = ScrapePhase::BatchDone;
            let label = match self.batch {
                Batch::Files => String::from_str("files"),
                Batch::Thumb => String::from_str("thumbnails"),
            };
            Action::Report(Event::DownloadBatchDone { label, elapsed_ms: elapsed_ms(now, self.t_batch) })
        }
    }

    fn download_current(&mut self, attempt: u32) -> (a: Action)
        requires
            old(self).post_i < old(self).posts@.len(),
            old(self).file_i < old(self).posts@[old(self).post_i as int].files@.len(),
        ensures
            *final(self) == (ThreadScrape { phase: ScrapePhase::AssetDownload, attempt, ..*old(self) }),
            a matches Action::Download { url, path } && url@ == batch_url(
                old(self).batch,
                old(self).posts@[old(self).post_i as int].files@[old(self).file_i as int],
            ) && path@ == old(self).path@,
    {
        let f = &self.posts[self.post_i].files[self.file_i];
        let url = match self.batch {
            Batch::Files => copy_string(&f.url),
            Batch::Thumb => copy_string(&f.url_thumb),
        };
        self.phase = ScrapePhase::AssetDownload;
        self.attempt = attempt;
        Action::Download { url, path: copy_string(&self.path) }
    }

    /// Advances the scrape by one step: takes what came of the last action
    /// and the current time, and returns the next action (see
    /// `scrape_step` for the whole course). The scrape is driven from
    /// `scrape_thread` with `Reply::Start` until it hands back `Scraped`.
    pub fn step(&mut self, reply: Reply, now: u128) -> (action: Action)
        requires
            scrape_wf(*old(self)),
            scrape_expects(*old(self), reply),
        ensures
            scrape_step(*old(self), reply, now, *final(self), action),
            scrape_wf(*final(self)),
    {
        match self.phase {
            ScrapePhase::Begin => {
                self.phase = ScrapePhase::FetchStarted;
                self.t_total = now;
                Action::Report(Event::FetchStarted { url: copy_string(&self.url) })
            },
            ScrapePhase::FetchStarted => {
                self.t_fetch = now;
                self.fetch = fetch_with_retry(self.url.as_str(), ATTEMPTS);
                self.phase = ScrapePhase::Fetching;
                match self.fetch.step(Reply::Start) {
                    FetchStep::Ask(a) => a,
                    FetchStep::Done(_) => {
                        proof {
                            assert(false);
                        }
                        self.fail(String::new())
                    },
                }
            },
            ScrapePhase::Fetching => {
                let ghost f0 = self.fetch;
                let st = self.fetch.step(reply);
                match st {
                    FetchStep::Done(Ok(html)) => {
                        self.phase = ScrapePhase::FetchDone;
                        self.html = html;
                        Action::Report(Event::FetchDone { elapsed_ms: elapsed_ms(now, self.t_fetch) })
                    },
                    FetchStep::Done(Err(m)) => self.fail(m),
                    FetchStep::Ask(a) => {
                        proof {
                            lemma_fetch_reports_in_range(f0, reply, self.fetch, st);
                        }
                        a
                    },
                }
            },
            ScrapePhase::FetchDone => {
                self.phase = ScrapePhase::ParseStarted;
                Action::Report(Event::ParseStarted)
            },
            ScrapePhase::ParseStarted => {
                self.phase = ScrapePhase::Parse;
                self.t_parse = now;
                self.parsed = Post::parse_posts(self.html.as_str());
                Action::Tick
            },
            ScrapePhase::Parse => {
                let mut parsed: Result<Vec<Post>, Error> = Ok(Vec::new());
                std::mem::swap(&mut parsed, &mut self.parsed);
                match parsed {
                    Ok(posts) => {
                        let n = posts.len();
                        self.posts = posts;
                        self.phase = ScrapePhase::ParseDone;
                        Action::Report(Event::ParseDone { post_count: n, elapsed_ms: elapsed_ms(now, self.t_parse) })
                    },
                    Err(e) => {
                        let m = parse_failure_text(&e);
                        self.phase = ScrapePhase::Finished;
                        Action::Scraped(Err(m))
                    },
                }
            },
            ScrapePhase::ParseDone => {
                if self.posts.len() == 0 {
                    let m = String::from_str("thread has no posts");
                    proof {
                        reveal_strlit("thread has no posts");
                    }
                    self.fail(m)
                } else {
                    self.phase = ScrapePhase::ThreadDir;
                    self.dir = thread_dir(self.posts.as_slice());
                    Action::CreateDir(copy_string(&self.dir))
                }
            },
            ScrapePhase::ThreadDir => match reply {
                Reply::Io(Ok(())) => {
                    if self.config.files {
                        self.start_batch(Batch::Files)
                    } else if self.config.thumb {
                        self.start_batch(Batch::Thumb)
                    } else {
                        self.write_page()
                    }
                },
                Reply::Io(Err(m)) => self.fail(in_context_text("failed to export thread", m.as_str())),
                _ => {
                    proof {
                        assert(false);
                    }
                    self.fail(String::new())
                },
            },
            ScrapePhase::BatchDir => match reply {
                Reply::Io(Ok(())) => {
                    self.phase = ScrapePhase::BatchStarted;
                    self.t_batch = now;
                    self.post_i = 0;
                    self.file_i = 0;
                    let label = match self.batch {
                        Batch::Files => String::from_str("files"),
                        Batch::Thumb => String::from_str("thumbnails"),
                    };
                    Action::Report(Event::DownloadBatchStarted { label, total_posts: self.posts.len() })
                },
                Reply::Io(Err(m)) => {
                    let mut d: Vec<char> = Vec::new();
                    extend_str(&mut d, "Failed to create directory ");
                    extend_str(&mut d, self.dir.as_str());
                    match self.batch {
                        Batch::Files => extend_str(&mut d, "/files"),
                        Batch::Thumb => extend_str(&mut d, "/thumb"),
                    }
                    assert(d@ =~= "Failed to create directory "@ + batch_dir(self.dir@, self.batch));
                    let inner = in_context_text(string_of(&d).as_str(), m.as_str());
                    self.fail(in_context_text("failed to export thread", inner.as_str()))
                },
                _ => {
                    proof {
                        assert(false);
                    }
                    self.fail(String::new())
                },
            },
            ScrapePhase::BatchStarted => self.next_asset(0, 0, now),
            ScrapePhase::AssetExists => match reply {
                Reply::Exists(true) => {
                    assert(self.posts[self.post_i as int].files.len() == self.posts[self.post_i as int].files@.len());
                    let (p, f) = (self.post_i, self.file_i + 1);
                    self.next_asset(p, f, now)
                },
                Reply::Exists(false) => self.download_current(1),
                _ => {
                    proof {
                        assert(false);
                    }
                    self.fail(String::new())
                },
            },
            ScrapePhase::AssetDownload => match reply {
                Reply::Downloaded(Ok(())) => {
                    assert(self.posts[self.post_i as int].files.len() == self.posts[self.post_i as int].files@.len());
                    let (p, f) = (self.post_i, self.file_i + 1);
                    self.next_asset(p, f, now)
                },
                Reply::Downloaded(Err(msg)) => {
                    self.phase = ScrapePhase::AssetFailed;
                    let label = match self.batch {
                        Batch::Files => String::from_str("files"),
                        Batch::Thumb => String::from_str("thumbnails"),
                    };
                    Action::Report(
                        Event::DownloadAssetFailed {
                            label,
                            filename: copy_string(&self.filename),
                            attempt: self.attempt,
                            error: msg,
                        },
                    )
                },
                _ => {
                    proof {
                        assert(false);
                    }
                    self.fail(String::new())
                },
            },
            ScrapePhase::AssetFailed => {
                self.phase = ScrapePhase::AssetSleep;
                Action::Sleep(RETRY_WAIT_SECS)
            },
            ScrapePhase::AssetSleep => {
                if self.attempt < ATTEMPTS {
                    let n = self.attempt + 1;
                    self.download_current(n)
                } else {
                    self.phase = ScrapePhase::AssetSkipped;
                    let label = match self.batch {
                        Batch::Files => String::from_str("files"),
                        Batch::Thumb => String::from_str("thumbnails"),
                    };
                    Action::Report(
                        Event::DownloadAssetSkipped { label, filename: copy_string(&self.filename) },
                    )
                }
            },
            ScrapePhase::AssetSkipped => {
                assert(self.posts[self.post_i as int].files.len() == self.posts[self.post_i as int].files@.len());
                let (p, f) = (self.post_i, self.file_i + 1);
                self.next_asset(p, f, now)
            },
            ScrapePhase::Progress => {
                assert(self.posts.len() == self.posts@.len());
                let p = self.post_i + 1;
                self.next_asset(p, 0, now)
            },
            ScrapePhase::BatchDone => {
                if self.batch == Batch::Files && self.config.thumb {
                    self.start_batch(Batch::Thumb)
                } else {
                    self.write_page()
                }
            },
            ScrapePhase::WritePage => match reply {
                Reply::Io(Ok(())) => {
                    self.phase = ScrapePhase::ThreadDone;
                    Action::Report(
                        Event::ThreadDone {
                            url: copy_string(&self.url),
                            elapsed_ms: elapsed_ms(now, self.t_total),
                        },
                    )
                },
                Reply::Io(Err(m)) => self.fail(in_context_text("failed to export thread", m.as_str())),
                _ => {
                    proof {
                        assert(false);
                    }
                    self.fail(String::new())
                },
            },
            ScrapePhase::ThreadDone => {
                let first = self.posts.remove(0);
                self.phase = ScrapePhase::Finished;
                Action::Scraped(Ok(first))
            },
            ScrapePhase::Finished => {
                proof {
                    assert(false);
                }
                self.fail(String::new())
            },
        }
    }
}

/// A scrape that has just been started for `url` with the settings.
pub open spec fn fresh_scrape(m: ThreadScrape, url: Seq<char>, config: Config) -> bool {
    &&& m.phase == ScrapePhase::Begin
    &&& m.url@ == url
    &&& m.config.thumb == config.thumb
    &&& m.config.files == config.files
    &&& m.config.resume == config.resume
    &&& m.posts@.len() == 0
    &&& scrape_wf(m)
}

/// Where a run over all threads is.
#[derive(Clone, Copy, PartialEq, Eq, Structural, Debug)]
pub enum RunPhase {
    Begin,
    ThreadStarted,
    Scraping,
    ThreadFailed,
    WriteIndex,
    Finished,
}

/// The state of a run over all threads of the settings.
pub struct RunScrape {
    pub config: Config,
    pub phase: RunPhase,
    /// Position of the current thread.
    pub i: usize,
    /// The first posts of the threads scraped so far.
    pub first_posts: Vec<Post>,
    /// The scrape of the current thread.
    pub scrape: ThreadScrape,
}

/// The reply is the kind that the run waits for.
pub open spec fn run_expects(s: RunScrape, r: Reply) -> bool {
    match s.phase {
        RunPhase::Begin => r is Start,
        RunPhase::ThreadStarted | RunPhase::ThreadFailed => r is Done,
        RunPhase::Scraping => scrape_expects(s.scrape, r),
        RunPhase::WriteIndex => r is Io,
        RunPhase::Finished => false,
    }
}

/// The run is consistent: while a thread is handled its position is within
/// the settings, and its scrape is consistent.
pub open spec fn run_wf(s: RunScrape) -> bool {
    &&& match s.phase {
        RunPhase::ThreadStarted | RunPhase::Scraping | RunPhase::ThreadFailed => s.i < s.config.urls@.len(),
        _ => true,
    }
    &&& (s.phase == RunPhase::Scraping ==> scrape_wf(s.scrape) && s.scrape.phase != ScrapePhase::Finished)
}

/// The thread at `i` starts (`ThreadStarted` with its URL, its number from
/// 1 and the count of threads); past the last thread the index page of the
/// first posts `fp` is written, unless there are none, which ends the run.
/// The run goes on with `fp` as its first posts.
pub open spec fn next_thread(s: RunScrape, t: RunScrape, a: Action, i: usize, fp: Seq<Post>) -> bool {
    &&& t.first_posts@ == fp
    &&& if i < s.config.urls@.len() {
        &&& t == RunScrape { phase: RunPhase::ThreadStarted, i, first_posts: t.first_posts, ..s }
        &&& a matches Action::Report(Event::ThreadStarted { url, index, total })
        &&& url@ == s.config.urls@[i as int]@
        &&& index == i + 1
        &&& total == s.config.urls@.len()
    } else if fp.len() == 0 {
        &&& t == RunScrape { phase: RunPhase::Finished, i, first_posts: t.first_posts, ..s }
        &&& a == Action::Finish(Ok(()))
    } else {
        &&& t == RunScrape { phase: RunPhase::WriteIndex, i, first_posts: t.first_posts, ..s }
        &&& a matches Action::WriteFile { path, contents }
        &&& path@ == "index.html"@
        &&& contents@ == index_html(fp, s.config.files, s.config.thumb)
    }
}

/// The text of an index page that could not be written.
pub open spec fn index_failure(m: Seq<char>) -> Seq<char> {
    in_context("failed to write main index.html"@, in_context("failed to write index.html"@, m))
}

/// One step of a run over all threads, from the state `s`, the reply `r`
/// and the time `now` to the state `t` and the action `a`.
///
/// Each thread in turn is announced with `ThreadStarted` and scraped; the
/// run passes the scrape's actions on and hands it the replies. A thread
/// that fails is reported with `ThreadFailed` and its error's message; a
/// thread that succeeds adds its first post to the index. At the end the
/// index page of the first posts is written (nothing when there are none),
/// and the run ends with the result of writing it.
pub open spec fn run_step(s: RunScrape, r: Reply, now: u128, t: RunScrape, a: Action) -> bool {
    match s.phase {
        RunPhase::Begin => next_thread(s, t, a, 0, s.first_posts@),
        RunPhase::ThreadStarted => {
            &&& exists|m: ThreadScrape|
                #![trigger scrape_step(m, Reply::Start, now, t.scrape, a)]
                fresh_scrape(m, s.config.urls@[s.i as int]@, s.config) && scrape_step(m, Reply::Start, now, t.scrape, a)
            &&& t == RunScrape { phase: RunPhase::Scraping, scrape: t.scrape, ..s }
        },
        RunPhase::Scraping => exists|sc: ThreadScrape, inner: Action|
            #![trigger scrape_step(s.scrape, r, now, sc, inner)]
            {
                &&& scrape_step(s.scrape, r, now, sc, inner)
                &&& match inner {
                    Action::Scraped(Ok(p)) => next_thread(
                        RunScrape { scrape: sc, ..s },
                        t,
                        a,
                        (s.i + 1) as usize,
                        s.first_posts@.push(p),
                    ),
                    Action::Scraped(Err(e)) => {
                        &&& t == RunScrape { phase: RunPhase::ThreadFailed, scrape: sc, ..s }
                        &&& a matches Action::Report(Event::ThreadFailed { url, error })
                        &&& url@ == s.config.urls@[s.i as int]@
                        &&& error@ == e@
                    },
                    _ => t == RunScrape { scrape: sc, ..s } && a == inner,
                }
            },
        RunPhase::ThreadFailed => next_thread(s, t, a, (s.i + 1) as usize, s.first_posts@),
        RunPhase::WriteIndex => match r {
            Reply::Io(Ok(())) => t == RunScrape { phase: RunPhase::Finished, ..s } && a == Action::Finish(Ok(())),
            Reply::Io(Err(m)) => {
                &&& t == RunScrape { phase: RunPhase::Finished, ..s }
                &&& a matches Action::Finish(Err(e))
                &&& e@ == index_failure(m@)
            },
            _ => false,
        },
        RunPhase::Finished => false,
    }
}

/// Starts a run over all threads of the settings; the machine has done
/// nothing yet.
pub fn run(config: &Config) -> (m: RunScrape)
    ensures
        m.phase == RunPhase::Begin,
        Seq::new(m.config.urls@.len(), |i: int| m.config.urls@[i]@) == Seq::new(config.urls@.len(), |i: int| config.urls@[i]@),
        m.config.thumb == config.thumb,
        m.config.files == config.files,
        m.config.resume == config.resume,
        m.first_posts@.len() == 0,
        run_wf(m),
{
    let c = copy_config(config);
    let scrape = scrape_thread("", &c);
    RunScrape { config: c, phase: RunPhase::Begin, i: 0, first_posts: Vec::new(), scrape }
}

impl RunScrape {
    fn next_thread(&mut self, i: usize) -> (a: Action)
        ensures
            next_thread(*old(self), *final(self), a, i, old(self).first_posts@),
    {
        self.i = i;
        if i < self.config.urls.len() {
            self.phase = RunPhase::ThreadStarted;
            Action::Report(
                Event::ThreadStarted {
                    url: copy_string(&self.config.urls[i]),
                    index: i + 1,
                    total: self.config.urls.len(),
                },
            )
        } else {
            match index_page(self.first_posts.as_slice(), &self.config) {
                Some(page) => {
                    self.phase = RunPhase::WriteIndex;
                    Action::WriteFile { path: String::from_str("index.html"), contents: page }
                },
                None => {
                    self.phase = RunPhase::Finished;
                    Action::Finish(Ok(()))
                },
            }
        }
    }

    /// Advances the run by one step: takes what came of the last action and
    /// the current time, and returns the next action (see `run_step` for
    /// the whole course). The run is driven from `run` with `Reply::Start`
    /// until it asks to `Finish`.
    pub fn step(&mut self, reply: Reply, now: u128) -> (action: Action)
        requires
            run_wf(*old(self)),
            run_expects(*old(self), reply),
        ensures
            run_step(*old(self), reply, now, *final(self), action),
            run_wf(*final(self)),
    {
        match self.phase {
            RunPhase::Begin => self.next_thread(0),
            RunPhase::ThreadStarted => {
                let mut scrape = scrape_thread(self.config.urls[self.i].as_str(), &self.config);
                let ghost m = scrape;
                let a = scrape.step(Reply::Start, now);
                self.scrape = scrape;
                self.phase = RunPhase::Scraping;
                assert(scrape_step(m, Reply::Start, now, self.scrape, a));
                a
            },
            RunPhase::Scraping => {
                let ghost sc0 = self.scrape;
                let inner = self.scrape.step(reply, now);
                let ghost sc = self.scrape;
                let ghost gi = inner;
                match inner {
                    Action::Scraped(Ok(p)) => {
                        self.first_posts.push(p);
                        assert(self.config.urls.len() == self.config.urls@.len());
                        let j = self.i + 1;
                        let a = self.next_thread(j);
                        assert(scrape_step(sc0, reply, now, sc, gi));
                        a
                    },
                    Action::Scraped(Err(m)) => {
                        self.phase = RunPhase::ThreadFailed;
                        Action::Report(Event::ThreadFailed { url: copy_string(&self.config.urls[self.i]), error: m })
                    },
                    other => {
                        proof {
                            assert(sc.phase != ScrapePhase::Finished);
                        }
                        other
                    },
                }
            },
            RunPhase::ThreadFailed => {
                assert(self.config.urls.len() == self.config.urls@.len());
                let j = self.i + 1;
                self.next_thread(j)
            },
            RunPhase::WriteIndex => match reply {
                Reply::Io(Ok(())) => {
                    self.phase = RunPhase::Finished;
                    Action::Finish(Ok(()))
                },
                Reply::Io(Err(m)) => {
                    self.phase = RunPhase::Finished;
                    let inner = in_context_text("failed to write index.html", m.as_str());
                    Action::Finish(Err(in_context_text("failed to write main index.html", inner.as_str())))
                },
                _ => {
                    proof {
                        assert(false);
                    }
                    self.phase = RunPhase::Finished;
                    Action::Finish(Ok(()))
                },
            },
            RunPhase::Finished => {
                proof {
                    assert(false);
                }
                Action::Finish(Ok(()))
            },
        }
    }
}

} // verus!
