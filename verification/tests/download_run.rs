use arhivarch_downloader::downloader::config::Config;
use arhivarch_downloader::downloader::download::{backoff, classify, Attempt, DownloadRetry, Failure};
use arhivarch_downloader::downloader::event::Event;
use arhivarch_downloader::downloader::export::{Exporter, ExporterKind, HtmlExporter};
use arhivarch_downloader::downloader::runner::{run, Action, IoFailure, Reply, RunState};
use arhivarch_downloader::error::Error;
use arhivarch_downloader::file::File;
use arhivarch_downloader::post::Post;
use arhivarch_downloader::render::render_page;

fn config(thumb: bool, files: bool, resume: bool, retries: u32) -> Config {
    Config {
        url: "https://arhivach.vc/thread/1".to_string(),
        dir: "out".to_string(),
        exporter: ExporterKind::Html(HtmlExporter),
        thumb,
        files,
        resume,
        download_retries: retries,
    }
}

fn post(id: u32, files: Vec<File>) -> Post {
    Post {
        subject: None,
        name: None,
        mailto: None,
        time: "t".to_string(),
        num: "#1".to_string(),
        id,
        files,
        text: "x".to_string(),
    }
}

fn file(name: &str) -> File {
    File {
        name_orig: name.to_string(),
        name_timestamp: name.to_string(),
        url_thumb: format!("https://arhivach.vc/storage/t/{}.thumb", name),
        url: format!("https://i.arhivach.vc/storage/a/{} ", name),
    }
}

/// A thread page holding the given posts, as the site marks them up.
fn page(posts: &[Post]) -> String {
    let mut html = String::from("<html><body>");
    for p in posts {
        html.push_str(&format!(
            "<div class=\"post\"><div class=\"post_head\"><span class=\"poster_name\">Аноним</span><span class=\"post_time\">{}</span><span class=\"post_num\">{}</span><span class=\"post_id\"><a href=\"#{}\">x</a></span></div><span class=\"post_comment\">",
            p.time, p.num, p.id
        ));
        for f in &p.files {
            html.push_str(&format!(
                "<div class=\"post_image_block\" title=\"1 Кб\n{}\n{}\"><a class=\"expand_image\" href=\"#\"><div class=\"post_image\"><img src=\"{}\"></div></a><a href=\"{}\" class=\"img_filename\">{}</a></div>",
                f.name_orig,
                f.name_timestamp,
                f.url_thumb.trim_start_matches("https://arhivach.vc"),
                f.url,
                f.name_orig
            ));
        }
        html.push_str(&format!("<div class=\"post_comment_body\">{}</div></span></div>", p.text));
    }
    html.push_str("</body></html>");
    html
}

/// Drives a run through the download and reading of a page holding the
/// posts, up to its `GetDone` event.
fn read_page(s: &mut RunState, posts: &[Post]) {
    assert!(matches!(sent(run(s, Reply::Start)), Event::GetStarted));
    assert!(matches!(run(s, Reply::Sent(Ok(()))), Action::FetchPage { .. }));
    assert!(matches!(run(s, Reply::Page(Ok(page(posts)))), Action::Proceed));
    match sent(run(s, Reply::Proceed)) {
        Event::GetDone => {}
        Event::GetFailed { error } => panic!("the page could not be read: {}", error),
        _ => panic!("expected GetDone"),
    }
}

fn io(text: &str, chain: &str) -> IoFailure {
    IoFailure { text: text.to_string(), chain: chain.to_string() }
}

fn sent(a: Action) -> Event {
    match a {
        Action::Send(e) => e,
        _ => panic!("expected an event"),
    }
}

#[test]
fn backoff_doubles() {
    assert_eq!(backoff(0), 0);
    assert_eq!(backoff(1), 1000);
    assert_eq!(backoff(2), 2000);
    assert_eq!(backoff(3), 4000);
    assert_eq!(backoff(4), 2 * backoff(3));
}

#[test]
fn retries_wait_then_give_up() {
    let mut d = DownloadRetry::new("http://u", 3);
    assert!(matches!(d.next_attempt(), Attempt::Call { delay_ms: 0 }));
    assert!(matches!(d.next_attempt(), Attempt::Call { delay_ms: 1000 }));
    assert!(matches!(d.next_attempt(), Attempt::Call { delay_ms: 2000 }));
    match d.next_attempt() {
        Attempt::GiveUp(Error::DownloadFailed { url, tries }) => {
            assert_eq!(url, "http://u");
            assert_eq!(tries, 3);
        }
        _ => panic!("expected to give up"),
    }
}

#[test]
fn zero_tries_give_up_at_once() {
    let mut d = DownloadRetry::new("http://u", 0);
    assert!(matches!(d.next_attempt(), Attempt::GiveUp(Error::DownloadFailed { tries: 0, .. })));
}

#[test]
fn failures_are_classified_by_status() {
    assert!(matches!(classify(Some(404)), Failure::Client(404)));
    assert!(matches!(classify(Some(400)), Failure::Client(400)));
    assert!(matches!(classify(Some(499)), Failure::Client(499)));
    assert!(matches!(classify(Some(500)), Failure::Retry));
    assert!(matches!(classify(Some(399)), Failure::Retry));
    assert!(matches!(classify(None), Failure::Fatal));
}

#[test]
fn failure_outcomes() {
    let d = DownloadRetry::new("http://u", 3);
    assert!(matches!(d.on_failure(Some(404), ureq::Error::StatusCode(404)), Some(Error::HttpClientError(404))));
    assert!(matches!(d.on_failure(Some(400), ureq::Error::StatusCode(400)), Some(Error::HttpClientError(400))));
    assert!(d.on_failure(Some(502), ureq::Error::StatusCode(502)).is_none());
    assert!(d.on_failure(Some(302), ureq::Error::StatusCode(302)).is_none());
    assert!(matches!(d.on_failure(None, ureq::Error::ConnectionFailed), Some(Error::Ureq(_))));
}

#[test]
fn exporter_names_in_any_case() {
    assert!(matches!(ExporterKind::from_str("html"), Ok(ExporterKind::Html(_))));
    assert!(matches!(ExporterKind::from_str("HTML"), Ok(ExporterKind::Html(_))));
    assert!(matches!(ExporterKind::from_str("HtMl"), Ok(ExporterKind::Html(_))));
    match ExporterKind::from_str("Pdf") {
        Err(Error::UnknownExporter(name)) => assert_eq!(name, "Pdf"),
        _ => panic!("expected an unknown exporter"),
    }
    let parsed: Result<ExporterKind, Error> = "Html".parse();
    assert!(parsed.is_ok());
}

#[test]
fn html_export_of_no_posts_fails() {
    let cfg = config(false, false, false, 3);
    assert!(matches!(HtmlExporter.export(&[], &cfg), Err(Error::NoPosts)));
    assert!(matches!(ExporterKind::Html(HtmlExporter).export(&[], &cfg), Err(Error::NoPosts)));
}

#[test]
fn html_export_is_one_page() {
    let cfg = config(true, true, false, 3);
    let posts = vec![post(1, vec![file("a.png")])];
    let out = HtmlExporter.export(&posts, &cfg).unwrap();
    assert_eq!(out.len(), 1);
    assert_eq!(out[0].name, "index.html");
    assert_eq!(out[0].contents, render_page(&posts, true, true));
}

#[test]
fn run_without_assets() {
    let mut s = RunState::new(config(false, false, false, 5));
    assert!(matches!(sent(run(&mut s, Reply::Start)), Event::GetStarted));
    match run(&mut s, Reply::Sent(Ok(()))) {
        Action::FetchPage { url, tries } => {
            assert_eq!(url, "https://arhivach.vc/thread/1");
            assert_eq!(tries, 5);
        }
        _ => panic!("expected the page to be fetched"),
    }
    let posts = vec![post(1, vec![])];
    let html = page(&posts);
    let read = Post::parse_posts(&html).unwrap();
    let expected = render_page(&read, false, false);
    assert!(matches!(run(&mut s, Reply::Page(Ok(html))), Action::Proceed));
    assert!(matches!(sent(run(&mut s, Reply::Proceed)), Event::GetDone));
    assert_eq!(s.posts.len(), 1);
    assert_eq!(s.posts[0].id, 1);
    assert!(matches!(sent(run(&mut s, Reply::Sent(Ok(())))), Event::DownloadAllStarted));
    assert!(matches!(run(&mut s, Reply::Sent(Ok(()))), Action::CreateDir(p) if p.is_empty()));
    assert!(matches!(sent(run(&mut s, Reply::Done(Ok(())))), Event::DownloadAllDone));
    assert!(matches!(sent(run(&mut s, Reply::Sent(Ok(())))), Event::ExportStarted));
    assert!(matches!(run(&mut s, Reply::Sent(Ok(()))), Action::CreateDir(p) if p.is_empty()));
    match run(&mut s, Reply::Done(Ok(()))) {
        Action::WriteText { path, contents } => {
            assert_eq!(path, vec!["index.html".to_string()]);
            assert_eq!(contents, expected);
        }
        _ => panic!("expected the page to be written"),
    }
    assert!(matches!(sent(run(&mut s, Reply::Done(Ok(())))), Event::ExportDone));
    assert!(matches!(run(&mut s, Reply::Sent(Ok(()))), Action::Finish(Ok(()))));
}

#[test]
fn run_downloads_files_numbered_across_posts() {
    let mut s = RunState::new(config(false, true, false, 2));
    let posts = vec![post(1, vec![file("a.png")]), post(2, vec![]), post(3, vec![file("b.png")])];
    read_page(&mut s, &posts);
    run(&mut s, Reply::Sent(Ok(())));
    run(&mut s, Reply::Sent(Ok(())));
    assert!(matches!(sent(run(&mut s, Reply::Done(Ok(())))), Event::DownloadFilesStarted));
    assert!(matches!(run(&mut s, Reply::Sent(Ok(()))), Action::CreateDir(p) if p == vec!["files".to_string()]));
    assert!(matches!(sent(run(&mut s, Reply::Done(Ok(())))), Event::DownloadStarted { index: 1, max_index: 2 }));
    match run(&mut s, Reply::Sent(Ok(()))) {
        Action::FetchFile { url, tries } => {
            assert_eq!(url, "https://i.arhivach.vc/storage/a/a.png ");
            assert_eq!(tries, 2);
        }
        _ => panic!("expected a download"),
    }
    assert!(matches!(run(&mut s, Reply::Fetched(Ok(10))), Action::SaveFile(p) if p == vec!["files".to_string(), "a.png".to_string()]));
    assert!(matches!(sent(run(&mut s, Reply::Done(Ok(())))), Event::DownloadDone { index: 1, max_index: 2 }));
    assert!(matches!(sent(run(&mut s, Reply::Sent(Ok(())))), Event::DownloadStarted { index: 2, max_index: 2 }));
    run(&mut s, Reply::Sent(Ok(())));
    match sent(run(&mut s, Reply::Fetched(Ok(0)))) {
        Event::DownloadFailed { url, error } => {
            assert_eq!(url, "https://i.arhivach.vc/storage/a/b.png ");
            assert_eq!(error, "empty file: https://i.arhivach.vc/storage/a/b.png ");
        }
        _ => panic!("expected a failure"),
    }
    assert!(matches!(sent(run(&mut s, Reply::Sent(Ok(())))), Event::DownloadFilesDone));
    assert!(matches!(sent(run(&mut s, Reply::Sent(Ok(())))), Event::DownloadAllDone));
}

#[test]
fn run_reports_item_failures_as_they_read() {
    let mut s = RunState::new(config(false, true, false, 2));
    read_page(&mut s, &[post(1, vec![file("a.png"), file("b.png")])]);
    run(&mut s, Reply::Sent(Ok(())));
    run(&mut s, Reply::Sent(Ok(())));
    run(&mut s, Reply::Done(Ok(())));
    run(&mut s, Reply::Sent(Ok(())));
    run(&mut s, Reply::Done(Ok(())));
    run(&mut s, Reply::Sent(Ok(())));
    match sent(run(&mut s, Reply::Fetched(Err("client error: 404".to_string())))) {
        Event::DownloadFailed { url, error } => {
            assert_eq!(url, "https://i.arhivach.vc/storage/a/a.png ");
            assert_eq!(error, "client error: 404");
        }
        _ => panic!("expected a failure"),
    }
    run(&mut s, Reply::Sent(Ok(())));
    run(&mut s, Reply::Sent(Ok(())));
    assert!(matches!(run(&mut s, Reply::Fetched(Ok(3))), Action::SaveFile(_)));
    match sent(run(&mut s, Reply::Done(Err(io("disk full", "disk full: quota"))))) {
        Event::DownloadFailed { error, .. } => assert_eq!(error, "disk full: quota"),
        _ => panic!("expected a failure"),
    }
    assert!(matches!(sent(run(&mut s, Reply::Sent(Ok(())))), Event::DownloadFilesDone));
}

#[test]
fn run_resume_skips_existing_files() {
    let mut s = RunState::new(config(true, false, true, 3));
    read_page(&mut s, &[post(1, vec![file("a.png")])]);
    run(&mut s, Reply::Sent(Ok(())));
    run(&mut s, Reply::Sent(Ok(())));
    assert!(matches!(sent(run(&mut s, Reply::Done(Ok(())))), Event::DownloadThumbStarted));
    assert!(matches!(run(&mut s, Reply::Sent(Ok(()))), Action::CreateDir(p) if p == vec!["thumb".to_string()]));
    run(&mut s, Reply::Done(Ok(())));
    assert!(matches!(run(&mut s, Reply::Sent(Ok(()))), Action::CheckExists(p) if p == vec!["thumb".to_string(), "a.png.thumb".to_string()]));
    assert!(matches!(sent(run(&mut s, Reply::Exists(true))), Event::DownloadSkipped { index: 1, max_index: 1 }));
    assert!(matches!(sent(run(&mut s, Reply::Sent(Ok(())))), Event::DownloadThumbDone));
}

#[test]
fn run_ends_when_page_download_fails() {
    let mut s = RunState::new(config(false, false, false, 3));
    run(&mut s, Reply::Start);
    run(&mut s, Reply::Sent(Ok(())));
    let failed = Error::HttpClientError(404).chain_text("");
    assert!(matches!(run(&mut s, Reply::Page(Err(failed))), Action::Finish(Err(m)) if m == "client error: 404"));
}

#[test]
fn run_reports_parse_failure_then_ends() {
    let mut s = RunState::new(config(false, false, false, 3));
    run(&mut s, Reply::Start);
    run(&mut s, Reply::Sent(Ok(())));
    let html = "<html><body><div class=\"post\"></div></body></html>".to_string();
    assert!(matches!(run(&mut s, Reply::Page(Ok(html))), Action::Proceed));
    let m = match sent(run(&mut s, Reply::Proceed)) {
        Event::GetFailed { error } => error,
        _ => panic!("expected GetFailed"),
    };
    assert!(m.starts_with("missing element: "));
    match run(&mut s, Reply::Sent(Ok(()))) {
        Action::Finish(Err(e)) => assert_eq!(e, format!("failed to parse posts: {}", m)),
        _ => panic!("expected the run to end"),
    }
}

#[test]
fn run_ends_when_events_cannot_be_sent() {
    let mut s = RunState::new(config(false, false, false, 3));
    run(&mut s, Reply::Start);
    let closed = Reply::Sent(Err("sending on a closed channel".to_string()));
    assert!(matches!(run(&mut s, closed), Action::Finish(Err(m)) if m == "sending on a closed channel"));
}

#[test]
fn run_reports_download_failure_under_its_context() {
    let mut s = RunState::new(config(false, true, false, 3));
    read_page(&mut s, &[post(1, vec![file("a.png")])]);
    run(&mut s, Reply::Sent(Ok(())));
    run(&mut s, Reply::Sent(Ok(())));
    match sent(run(&mut s, Reply::Done(Err(io("Permission denied", "Permission denied"))))) {
        Event::DownloadAllFailed { error } => assert_eq!(error, "Permission denied"),
        _ => panic!("expected DownloadAllFailed"),
    }
    assert!(matches!(run(&mut s, Reply::Sent(Ok(()))), Action::Finish(Err(m)) if m == "failed to download files: Permission denied"));

    let mut s = RunState::new(config(false, true, false, 3));
    read_page(&mut s, &[post(1, vec![file("a.png")])]);
    run(&mut s, Reply::Sent(Ok(())));
    run(&mut s, Reply::Sent(Ok(())));
    run(&mut s, Reply::Done(Ok(())));
    let closed = Reply::Sent(Err("sending on a closed channel".to_string()));
    match sent(run(&mut s, closed)) {
        Event::DownloadAllFailed { error } => assert_eq!(error, "sending on a closed channel"),
        _ => panic!("expected DownloadAllFailed"),
    }
    let closed = Reply::Sent(Err("sending on a closed channel".to_string()));
    assert!(matches!(run(&mut s, closed), Action::Finish(Err(m)) if m == "failed to download files: sending on a closed channel"));
}

#[test]
fn run_reports_export_failure() {
    let mut s = RunState::new(config(false, false, false, 3));
    read_page(&mut s, &[]);
    run(&mut s, Reply::Sent(Ok(())));
    run(&mut s, Reply::Sent(Ok(())));
    run(&mut s, Reply::Done(Ok(())));
    run(&mut s, Reply::Sent(Ok(())));
    match sent(run(&mut s, Reply::Sent(Ok(())))) {
        Event::ExportFailed { error } => assert_eq!(error, "no posts to export"),
        _ => panic!("expected ExportFailed"),
    }
    assert!(matches!(run(&mut s, Reply::Sent(Ok(()))), Action::Finish(Err(m)) if m == "failed to export: no posts to export"));
}

#[test]
fn run_reports_export_write_failure() {
    let mut s = RunState::new(config(false, false, false, 3));
    read_page(&mut s, &[post(1, vec![])]);
    run(&mut s, Reply::Sent(Ok(())));
    run(&mut s, Reply::Sent(Ok(())));
    run(&mut s, Reply::Done(Ok(())));
    run(&mut s, Reply::Sent(Ok(())));
    assert!(matches!(run(&mut s, Reply::Sent(Ok(()))), Action::CreateDir(_)));
    assert!(matches!(run(&mut s, Reply::Done(Ok(()))), Action::WriteText { .. }));
    match sent(run(&mut s, Reply::Done(Err(io("disk full", "disk full: quota"))))) {
        Event::ExportFailed { error } => assert_eq!(error, "I/O error: disk full"),
        _ => panic!("expected ExportFailed"),
    }
    assert!(matches!(run(&mut s, Reply::Sent(Ok(()))), Action::Finish(Err(m)) if m == "failed to export: I/O error: disk full: disk full: quota"));
}

#[test]
fn chain_texts() {
    assert_eq!(Error::HttpClientError(404).chain_text("ignored"), "client error: 404");
    assert_eq!(
        Error::DownloadFailed { url: "u".to_string(), tries: 3 }.chain_text(""),
        "failed to download u after 3 tries"
    );
    let io = Error::Io(std::io::Error::new(std::io::ErrorKind::Other, "disk full"));
    assert_eq!(io.chain_text("disk full"), "I/O error: disk full: disk full");
    let e = Error::Ureq(ureq::Error::ConnectionFailed);
    let inner = ureq::Error::ConnectionFailed.to_string();
    assert_eq!(e.chain_text(&inner), format!("network error: {}: {}", inner, inner));
}

#[test]
fn error_messages() {
    assert_eq!(Error::HttpClientError(404).message(), "client error: 404");
    assert_eq!(
        Error::DownloadFailed { url: "u".to_string(), tries: 3 }.message(),
        "failed to download u after 3 tries"
    );
    assert_eq!(Error::MissingElement("post_num").message(), "missing element: post_num");
    assert_eq!(Error::EmptyFile("u".to_string()).message(), "empty file: u");
    assert_eq!(Error::NoPosts.message(), "no posts to export");
    assert_eq!(Error::UnknownExporter("x".to_string()).message(), "unknown exporter: x");
    assert_eq!(Error::ChannelSend.message(), "failed to send event");
    let io = Error::Io(std::io::Error::new(std::io::ErrorKind::Other, "disk full"));
    assert_eq!(io.message(), "I/O error: disk full");
    let pe = "x".parse::<u32>().unwrap_err();
    assert_eq!(Error::ParseInt(pe.clone()).message(), format!("parse error: {}", pe));
}

#[test]
fn errors_convert_from_outside_errors() {
    let e: Error = std::io::Error::new(std::io::ErrorKind::Other, "x").into();
    assert!(matches!(e, Error::Io(_)));
    let e: Error = "x".parse::<u32>().unwrap_err().into();
    assert!(matches!(e, Error::ParseInt(_)));
    let e: Error = ureq::Error::ConnectionFailed.into();
    assert!(matches!(e, Error::Ureq(_)));
}
