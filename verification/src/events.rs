//! Progress events of a multi-thread scrape, and where they go.

use vstd::prelude::*;
use crate::cli::Printed;
use crate::text::{decimal, decimal_chars, decimal_chars_wide, extend_chars, extend_str, string_of};

verus! {

/// What a scrape reports as it goes.
#[derive(Debug, Clone)]
pub enum Event {
    // Thread-level lifecycle
    ThreadStarted { url: String, index: usize, total: usize },
    ThreadDone { url: String, elapsed_ms: u128 },
    ThreadFailed { url: String, error: String },
    // HTTP fetch
    FetchStarted { url: String },
    FetchDone { elapsed_ms: u128 },
    FetchRetrying { url: String, attempt: u32, max_attempts: u32, error: String },
    // HTML parsing
    ParseStarted,
    ParseDone { post_count: usize, elapsed_ms: u128 },
    // Asset downloading
    DownloadBatchStarted { label: String, total_posts: usize },
    DownloadBatchProgress { label: String, done: usize, total: usize },
    DownloadAssetFailed { label: String, filename: String, attempt: u32, error: String },
    DownloadAssetSkipped { label: String, filename: String },
    DownloadBatchDone { label: String, elapsed_ms: u128 },
}

/// Sink for progress events emitted by the library.
/// Implement this to connect the library to any frontend.
pub trait Reporter: Send + Sync {
    fn report(&self, event: Event);
}

/// A channel sender of events, as far as the library uses it.
#[verifier::external_type_specification]
#[verifier::external_body]
#[verifier::reject_recursive_types(T)]
pub struct ExSender<T>(std::sync::mpsc::Sender<T>);

/// Sends an event down a channel (`std::sync::mpsc::Sender::send`); a
/// closed channel is ignored. Nothing is stated: sending only hands the
/// event on.
#[verifier::external_body]
fn send_event(tx: &std::sync::mpsc::Sender<Event>, event: Event) {
    tx.send(event).ok();
}

/// A channel sender is a reporter: every event is sent down the channel.
impl Reporter for std::sync::mpsc::Sender<Event> {
    fn report(&self, event: Event) {
        send_event(self, event)
    }
}

/// What the scraper prints for a progress event: whether on the error
/// stream, and the exact text.
pub open spec fn report_line(e: Event) -> (bool, Seq<char>) {
    match e {
        Event::ThreadStarted { url, index, total } => (false, "Processing "@ + url@ + " ("@ + decimal(
            index as nat,
        ) + " / "@ + decimal(total as nat) + "):\n"@),
        Event::ThreadDone { url, elapsed_ms } => (false, "Done processing "@ + url@ + " ("@
            + decimal(elapsed_ms as nat) + " ms)\n"@),
        Event::ThreadFailed { url, error } => (true, "Error processing "@ + url@ + ": "@ + error@
            + "\n"@),
        Event::FetchStarted { .. } => (false, "\tGetting thread..."@),
        Event::FetchDone { elapsed_ms } => (false, " Done ("@ + decimal(elapsed_ms as nat)
            + " ms)\n"@),
        Event::FetchRetrying { url, attempt, max_attempts, error } => (true, "\n\tHTTP request failed for "@
            + url@ + ": "@ + error@ + "\n"@ + if attempt < max_attempts {
            "\tWaiting 3 seconds...\n"@
        } else {
            Seq::empty()
        }),
        Event::ParseStarted => (false, "\tParsing posts..."@),
        Event::ParseDone { elapsed_ms, .. } => (false, " Done ("@ + decimal(elapsed_ms as nat)
            + " ms)\n"@),
        Event::DownloadBatchStarted { label, total_posts } => (false, "\tDownloading "@ + label@
            + " of "@ + decimal(total_posts as nat) + " posts...\n"@),
        Event::DownloadBatchProgress { label, done, total } => (false, "\r\t"@ + label@ + ": "@
            + decimal(done as nat) + " / "@ + decimal(total as nat)),
        Event::DownloadAssetFailed { label, filename, attempt, error } => (true, "\n\t"@ + label@
            + " "@ + filename@ + ": attempt "@ + decimal(attempt as nat) + " failed: "@ + error@
            + "\n"@),
        Event::DownloadAssetSkipped { label, filename } => (true, "\n\t"@ + label@ + " "@
            + filename@ + ": skipped\n"@),
        Event::DownloadBatchDone { label, elapsed_ms } => (false, "\n\tDownloaded "@ + label@
            + " ("@ + decimal(elapsed_ms as nat) + " ms)\n"@),
    }
}

fn line(to_stderr: bool, out: &Vec<char>) -> (p: Printed)
    ensures
        p.to_stderr == to_stderr,
        p.text@ == out@,
{
    Printed { to_stderr, text: string_of(out) }
}

/// What the scraper prints for a progress event, and where.
pub fn report_text(event: &Event) -> (p: Printed)
    ensures
        (p.to_stderr, p.text@) == report_line(*event),
{
    let mut out: Vec<char> = Vec::new();
    match event {
        Event::ThreadStarted { url, index, total } => {
            extend_str(&mut out, "Processing ");
            extend_str(&mut out, url.as_str());
            extend_str(&mut out, " (");
            extend_chars(&mut out, &decimal_chars(*index as u64));
            extend_str(&mut out, " / ");
            extend_chars(&mut out, &decimal_chars(*total as u64));
            extend_str(&mut out, "):\n");
            assert(out@ =~= report_line(*event).1);
            line(false, &out)
        },
        Event::ThreadDone { url, elapsed_ms } => {
            extend_str(&mut out, "Done processing ");
            extend_str(&mut out, url.as_str());
            extend_str(&mut out, " (");
            extend_chars(&mut out, &decimal_chars_wide(*elapsed_ms));
            extend_str(&mut out, " ms)\n");
            assert(out@ =~= report_line(*event).1);
            line(false, &out)
        },
        Event::ThreadFailed { url, error } => {
            extend_str(&mut out, "Error processing ");
            extend_str(&mut out, url.as_str());
            extend_str(&mut out, ": ");
            extend_str(&mut out, error.as_str());
            extend_str(&mut out, "\n");
            assert(out@ =~= report_line(*event).1);
            line(true, &out)
        },
        Event::FetchStarted { .. } => {
            extend_str(&mut out, "\tGetting thread...");
            assert(out@ =~= report_line(*event).1);
            line(false, &out)
        },
        Event::FetchDone { elapsed_ms } => {
            extend_str(&mut out, " Done (");
            extend_chars(&mut out, &decimal_chars_wide(*elapsed_ms));
            extend_str(&mut out, " ms)\n");
            assert(out@ =~= report_line(*event).1);
            line(false, &out)
        },
        Event::FetchRetrying { url, attempt, max_attempts, error } => {
            extend_str(&mut out, "\n\tHTTP request failed for ");
            extend_str(&mut out, url.as_str());
            extend_str(&mut out, ": ");
            extend_str(&mut out, error.as_str());
            extend_str(&mut out, "\n");
            if *attempt < *max_attempts {
                extend_str(&mut out, "\tWaiting 3 seconds...\n");
            }
            assert(out@ =~= report_line(*event).1);
            line(true, &out)
        },
        Event::ParseStarted => {
            extend_str(&mut out, "\tParsing posts...");
            assert(out@ =~= report_line(*event).1);
            line(false, &out)
        },
        Event::ParseDone { elapsed_ms, .. } => {
            extend_str(&mut out, " Done (");
            extend_chars(&mut out, &decimal_chars_wide(*elapsed_ms));
            extend_str(&mut out, " ms)\n");
            assert(out@ =~= report_line(*event).1);
            line(false, &out)
        },
        Event::DownloadBatchStarted { label, total_posts } => {
            extend_str(&mut out, "\tDownloading ");
            extend_str(&mut out, label.as_str());
            extend_str(&mut out, " of ");
            extend_chars(&mut out, &decimal_chars(*total_posts as u64));
            extend_str(&mut out, " posts...\n");
            assert(out@ =~= report_line(*event).1);
            line(false, &out)
        },
        Event::DownloadBatchProgress { label, done, total } => {
            extend_str(&mut out, "\r\t");
            extend_str(&mut out, label.as_str());
            extend_str(&mut out, ": ");
            extend_chars(&mut out, &decimal_chars(*done as u64));
            extend_str(&mut out, " / ");
            extend_chars(&mut out, &decimal_chars(*total as u64));
            assert(out@ =~= report_line(*event).1);
            line(false, &out)
        },
        Event::DownloadAssetFailed { label, filename, attempt, error } => {
            extend_str(&mut out, "\n\t");
            extend_str(&mut out, label.as_str());
            extend_str(&mut out, " ");
            extend_str(&mut out, filename.as_str());
            extend_str(&mut out, ": attempt ");
            extend_chars(&mut out, &decimal_chars(*attempt as u64));
            extend_str(&mut out, " failed: ");
            extend_str(&mut out, error.as_str());
            extend_str(&mut out, "\n");
            assert(out@ =~= report_line(*event).1);
            line(true, &out)
        },
        Event::DownloadAssetSkipped { label, filename } => {
            extend_str(&mut out, "\n\t");
            extend_str(&mut out, label.as_str());
            extend_str(&mut out, " ");
            extend_str(&mut out, filename.as_str());
            extend_str(&mut out, ": skipped\n");
            assert(out@ =~= report_line(*event).1);
            line(true, &out)
        },
        Event::DownloadBatchDone { label, elapsed_ms } => {
            extend_str(&mut out, "\n\tDownloaded ");
            extend_str(&mut out, label.as_str());
            extend_str(&mut out, " (");
            extend_chars(&mut out, &decimal_chars_wide(*elapsed_ms));
            extend_str(&mut out, " ms)\n");
            assert(out@ =~= report_line(*event).1);
            line(false, &out)
        },
    }
}

/// Reporter that drops every event; useful in tests or when progress
/// output is not needed.
pub struct NullReporter;

impl Reporter for NullReporter {
    fn report(&self, _event: Event) {
    }
}

} // verus!
