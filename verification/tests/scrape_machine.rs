use arhivarch_downloader::backend::{run, scrape_thread, Action, Reply, ATTEMPTS, RETRY_WAIT_SECS};
use arhivarch_downloader::config::Config;
use arhivarch_downloader::events::{report_text, Event, NullReporter, Reporter};
use arhivarch_downloader::file::File;
use arhivarch_downloader::http::{fetch_with_retry, FetchStep};
use arhivarch_downloader::post::Post;
use arhivarch_downloader::render::render_page;

fn config(urls: &[&str], thumb: bool, files: bool, resume: bool) -> Config {
    Config { urls: urls.iter().map(|u| u.to_string()).collect(), thumb, files, resume }
}

fn post(id: u32, files: Vec<File>) -> Post {
    Post {
        subject: None,
        name: None,
        mailto: None,
        time: "t".to_string(),
        num: "#1".to_string(),
        id,
        files,
        text: "hello".to_string(),
    }
}

fn file(name: &str) -> File {
    File {
        name_orig: name.to_string(),
        name_timestamp: name.to_string(),
        url_thumb: format!("https://arhivach.vc/storage/t/{}.thumb", name),
        url: format!("https://i.arhivach.vc/storage/a/{}", name),
    }
}

/// A thread page holding the given posts, as the site marks them up.
fn page(posts: &[Post]) -> String {
    let mut html = String::from("<html><body>");
    for p in posts {
        html.push_str(&format!(
            "<div class=\"post\"><div class=\"post_head\"><span class=\"poster_name\">Аноним</span><span class=\"post_time\">{}</span><span class=\"post_num\">{}</span><span class=\"post_id\"><a href=\"#{}\">x</a></span></div><span class=\"post_comment\">",
            p.time, p.num, p.id
        ));
        for f in &p.files {
            html.push_str(&format!(
                "<div class=\"post_image_block\" title=\"1 Кб\n{}\n{}\"><a class=\"expand_image\" href=\"#\"><div class=\"post_image\"><img src=\"{}\"></div></a><a href=\"{}\" class=\"img_filename\">{}</a></div>",
                f.name_orig,
                f.name_timestamp,
                f.url_thumb.trim_start_matches("https://arhivach.vc"),
                f.url,
                f.name_orig
            ));
        }
        html.push_str(&format!("<div class=\"post_comment_body\">{}</div></span></div>", p.text));
    }
    html.push_str("</body></html>");
    html
}

fn report(a: Action) -> Event {
    match a {
        Action::Report(e) => e,
        _ => panic!("expected an event"),
    }
}

#[test]
fn scrape_without_assets() {
    let cfg = config(&["http://x/t"], false, false, false);
    let mut m = scrape_thread("http://x/t", &cfg);
    assert!(matches!(report(m.step(Reply::Start, 100)), Event::FetchStarted { url } if url == "http://x/t"));
    assert!(matches!(m.step(Reply::Done, 100), Action::Get(u) if u == "http://x/t"));
    let e = report(m.step(Reply::Got(Err("boom".to_string())), 150));
    assert!(matches!(e, Event::FetchRetrying { attempt: 1, max_attempts: 3, ref error, .. } if error == "boom"));
    assert!(matches!(m.step(Reply::Done, 150), Action::Sleep(3)));
    assert!(matches!(m.step(Reply::Done, 3150), Action::Get(_)));
    let posts = vec![post(329274763, vec![]), post(329274800, vec![])];
    let html = page(&posts);
    let page = render_page(&posts, false, false);
    assert!(matches!(report(m.step(Reply::Got(Ok(html)), 3400)), Event::FetchDone { elapsed_ms: 3300 }));
    assert!(matches!(report(m.step(Reply::Done, 3400)), Event::ParseStarted));
    assert!(matches!(m.step(Reply::Done, 3500), Action::Tick));
    assert!(matches!(report(m.step(Reply::Done, 3520)), Event::ParseDone { post_count: 2, elapsed_ms: 20 }));
    assert!(matches!(m.step(Reply::Done, 3520), Action::CreateDir(d) if d == "329274763"));
    match m.step(Reply::Io(Ok(())), 3600) {
        Action::WriteFile { path, contents } => {
            assert_eq!(path, "329274763/index.html");
            assert_eq!(contents, page);
        }
        _ => panic!("expected the page"),
    }
    assert!(matches!(report(m.step(Reply::Io(Ok(())), 4100)), Event::ThreadDone { elapsed_ms: 4000, .. }));
    match m.step(Reply::Done, 4100) {
        Action::Scraped(Ok(p)) => assert_eq!(p.id, 329274763),
        _ => panic!("expected the first post"),
    }
}

#[test]
fn fetch_fails_after_three_attempts() {
    assert_eq!(ATTEMPTS, 3);
    assert_eq!(RETRY_WAIT_SECS, 3);
    let cfg = config(&["u"], false, false, false);
    let mut m = scrape_thread("u", &cfg);
    m.step(Reply::Start, 0);
    m.step(Reply::Done, 0);
    for attempt in 1..=3u32 {
        let e = report(m.step(Reply::Got(Err("down".to_string())), 0));
        assert!(matches!(e, Event::FetchRetrying { attempt: a, .. } if a == attempt));
        if attempt < 3 {
            assert!(matches!(m.step(Reply::Done, 0), Action::Sleep(3)));
            assert!(matches!(m.step(Reply::Done, 0), Action::Get(_)));
        }
    }
    match m.step(Reply::Done, 0) {
        Action::Scraped(Err(msg)) => assert_eq!(msg, "failed to get thread after 3 attempts"),
        _ => panic!("expected a failure"),
    }
}

fn to_parsed(m: &mut arhivarch_downloader::backend::ThreadScrape, posts: Vec<Post>) -> Action {
    m.step(Reply::Start, 0);
    m.step(Reply::Done, 0);
    m.step(Reply::Got(Ok(page(&posts))), 0);
    m.step(Reply::Done, 0);
    m.step(Reply::Done, 0);
    m.step(Reply::Done, 0);
    m.step(Reply::Done, 0)
}

#[test]
fn thread_without_posts_fails() {
    let cfg = config(&["u"], false, false, false);
    let mut m = scrape_thread("u", &cfg);
    match to_parsed(&mut m, vec![]) {
        Action::Scraped(Err(msg)) => assert_eq!(msg, "thread has no posts"),
        _ => panic!("expected a failure"),
    }
}

#[test]
fn parse_failure_is_reported_in_context() {
    let cfg = config(&["u"], false, false, false);
    let mut m = scrape_thread("u", &cfg);
    m.step(Reply::Start, 0);
    m.step(Reply::Done, 0);
    let bad = r#"<div class="post"><span class="post_comment"><div class="post_comment_body">x</div></span></div>"#;
    m.step(Reply::Got(Ok(bad.to_string())), 0);
    m.step(Reply::Done, 0);
    m.step(Reply::Done, 0);
    match m.step(Reply::Done, 0) {
        Action::Scraped(Err(msg)) => assert_eq!(msg, "failed to parse thread HTML: missing post_head"),
        _ => panic!("expected a failure"),
    }
}

#[test]
fn folder_failure_is_reported_in_context() {
    let cfg = config(&["u"], false, false, false);
    let mut m = scrape_thread("u", &cfg);
    to_parsed(&mut m, vec![post(5, vec![])]);
    match m.step(Reply::Io(Err("denied".to_string())), 0) {
        Action::Scraped(Err(msg)) => assert_eq!(msg, "failed to export thread: denied"),
        _ => panic!("expected a failure"),
    }
}

#[test]
fn files_and_thumbnails_are_downloaded() {
    let cfg = config(&["u"], true, true, false);
    let mut m = scrape_thread("u", &cfg);
    to_parsed(&mut m, vec![post(9, vec![file("a.png"), file("b.png")]), post(10, vec![])]);
    assert!(matches!(m.step(Reply::Io(Ok(())), 0), Action::CreateDir(d) if d == "9/files"));
    assert!(matches!(report(m.step(Reply::Io(Ok(())), 1000)), Event::DownloadBatchStarted { ref label, total_posts: 2 } if label == "files"));
    match m.step(Reply::Done, 1000) {
        Action::Download { url, path } => {
            assert_eq!(url, "https://i.arhivach.vc/storage/a/a.png");
            assert_eq!(path, "9/files/a.png");
        }
        _ => panic!("expected a download"),
    }
    // The first file fails three times and is skipped.
    for attempt in 1..=3u32 {
        let e = report(m.step(Reply::Downloaded(Err("nope".to_string())), 1000));
        assert!(matches!(e, Event::DownloadAssetFailed { attempt: a, ref filename, .. } if a == attempt && filename == "a.png"));
        assert!(matches!(m.step(Reply::Done, 1000), Action::Sleep(3)));
        if attempt < 3 {
            assert!(matches!(m.step(Reply::Done, 1000), Action::Download { ref path, .. } if path == "9/files/a.png"));
        }
    }
    assert!(matches!(report(m.step(Reply::Done, 1000)), Event::DownloadAssetSkipped { ref filename, .. } if filename == "a.png"));
    assert!(matches!(m.step(Reply::Done, 1000), Action::Download { ref path, .. } if path == "9/files/b.png"));
    assert!(matches!(report(m.step(Reply::Downloaded(Ok(())), 1000)), Event::DownloadBatchProgress { done: 1, total: 2, .. }));
    assert!(matches!(report(m.step(Reply::Done, 1000)), Event::DownloadBatchProgress { done: 2, total: 2, .. }));
    assert!(matches!(report(m.step(Reply::Done, 1250)), Event::DownloadBatchDone { ref label, elapsed_ms: 250 } if label == "files"));
    assert!(matches!(m.step(Reply::Done, 1250), Action::CreateDir(d) if d == "9/thumb"));
    assert!(matches!(report(m.step(Reply::Io(Ok(())), 1300)), Event::DownloadBatchStarted { ref label, .. } if label == "thumbnails"));
    assert!(matches!(m.step(Reply::Done, 1300), Action::Download { ref url, ref path } if url == "https://arhivach.vc/storage/t/a.png.thumb" && path == "9/thumb/a.png.thumb"));
}

#[test]
fn resume_skips_existing_assets() {
    let cfg = config(&["u"], false, true, true);
    let mut m = scrape_thread("u", &cfg);
    to_parsed(&mut m, vec![post(9, vec![file("a.png"), file("b.png")])]);
    m.step(Reply::Io(Ok(())), 0);
    m.step(Reply::Io(Ok(())), 0);
    assert!(matches!(m.step(Reply::Done, 0), Action::CheckExists(p) if p == "9/files/a.png"));
    assert!(matches!(m.step(Reply::Exists(true), 0), Action::CheckExists(p) if p == "9/files/b.png"));
    assert!(matches!(m.step(Reply::Exists(false), 0), Action::Download { ref path, .. } if path == "9/files/b.png"));
    assert!(matches!(report(m.step(Reply::Downloaded(Ok(())), 0)), Event::DownloadBatchProgress { done: 1, total: 1, .. }));
}

#[test]
fn batch_folder_failure_names_the_folder() {
    let cfg = config(&["u"], true, false, false);
    let mut m = scrape_thread("u", &cfg);
    to_parsed(&mut m, vec![post(9, vec![])]);
    assert!(matches!(m.step(Reply::Io(Ok(())), 0), Action::CreateDir(d) if d == "9/thumb"));
    match m.step(Reply::Io(Err("full".to_string())), 0) {
        Action::Scraped(Err(msg)) => assert_eq!(msg, "failed to export thread: Failed to create directory 9/thumb: full"),
        _ => panic!("expected a failure"),
    }
}

#[test]
fn run_goes_through_threads_and_writes_index() {
    let cfg = config(&["a", "b"], false, false, false);
    let mut r = run(&cfg);
    assert!(matches!(report(r.step(Reply::Start, 0)), Event::ThreadStarted { ref url, index: 1, total: 2 } if url == "a"));
    assert!(matches!(report(r.step(Reply::Done, 0)), Event::FetchStarted { ref url } if url == "a"));
    r.step(Reply::Done, 0);
    // Thread "a" cannot be fetched.
    for attempt in 1..=3u32 {
        r.step(Reply::Got(Err("x".to_string())), 0);
        if attempt < 3 {
            r.step(Reply::Done, 0);
            r.step(Reply::Done, 0);
        }
    }
    let e = report(r.step(Reply::Done, 0));
    assert!(matches!(e, Event::ThreadFailed { ref url, ref error } if url == "a" && error == "failed to get thread after 3 attempts"));
    assert!(matches!(report(r.step(Reply::Done, 0)), Event::ThreadStarted { ref url, index: 2, total: 2 } if url == "b"));
    // Thread "b" works.
    r.step(Reply::Done, 0);
    r.step(Reply::Done, 0);
    r.step(Reply::Got(Ok(page(&[post(77, vec![])]))), 0);
    r.step(Reply::Done, 0);
    r.step(Reply::Done, 0);
    r.step(Reply::Done, 0);
    assert!(matches!(r.step(Reply::Done, 0), Action::CreateDir(d) if d == "77"));
    assert!(matches!(r.step(Reply::Io(Ok(())), 0), Action::WriteFile { .. }));
    assert!(matches!(report(r.step(Reply::Io(Ok(())), 0)), Event::ThreadDone { .. }));
    match r.step(Reply::Done, 0) {
        Action::WriteFile { path, contents } => {
            assert_eq!(path, "index.html");
            assert!(contents.contains("<div><a href=\"77/index.html\">В тред &rarr;</a></div>"));
        }
        _ => panic!("expected the index"),
    }
    assert!(matches!(r.step(Reply::Io(Ok(())), 0), Action::Finish(Ok(()))));
}

#[test]
fn run_without_successful_threads_writes_nothing() {
    let cfg = config(&[], false, false, false);
    let mut r = run(&cfg);
    assert!(matches!(r.step(Reply::Start, 0), Action::Finish(Ok(()))));
}

#[test]
fn index_write_failure_is_reported_in_context() {
    let cfg = config(&["b"], false, false, false);
    let mut r = run(&cfg);
    r.step(Reply::Start, 0);
    r.step(Reply::Done, 0);
    r.step(Reply::Done, 0);
    r.step(Reply::Got(Ok(page(&[post(77, vec![])]))), 0);
    r.step(Reply::Done, 0);
    r.step(Reply::Done, 0);
    r.step(Reply::Done, 0);
    r.step(Reply::Done, 0);
    r.step(Reply::Io(Ok(())), 0);
    r.step(Reply::Io(Ok(())), 0);
    assert!(matches!(r.step(Reply::Done, 0), Action::WriteFile { .. }));
    match r.step(Reply::Io(Err("disk".to_string())), 0) {
        Action::Finish(Err(msg)) => assert_eq!(msg, "failed to write main index.html: failed to write index.html: disk"),
        _ => panic!("expected a failure"),
    }
}

#[test]
fn reporters_pass_events_on() {
    let (tx, rx) = std::sync::mpsc::channel::<Event>();
    tx.report(Event::ParseStarted);
    tx.report(Event::FetchDone { elapsed_ms: 5 });
    assert!(matches!(rx.recv().unwrap(), Event::ParseStarted));
    assert!(matches!(rx.recv().unwrap(), Event::FetchDone { elapsed_ms: 5 }));
    drop(rx);
    tx.report(Event::ParseStarted);
    NullReporter.report(Event::ParseStarted);
}

fn ask(st: FetchStep) -> Action {
    match st {
        FetchStep::Ask(a) => a,
        FetchStep::Done(_) => panic!("expected an action"),
    }
}

#[test]
fn fetch_succeeds_after_failures() {
    let mut f = fetch_with_retry("http://p", 4);
    assert!(matches!(ask(f.step(Reply::Start)), Action::Get(u) if u == "http://p"));
    for k in 1..=2u32 {
        let e = report(ask(f.step(Reply::Got(Err(format!("e{}", k))))));
        assert!(matches!(e, Event::FetchRetrying { attempt, max_attempts: 4, ref error, .. } if attempt == k && *error == format!("e{}", k)));
        assert!(matches!(ask(f.step(Reply::Done)), Action::Sleep(3)));
        assert!(matches!(ask(f.step(Reply::Done)), Action::Get(_)));
    }
    match f.step(Reply::Got(Ok("page".to_string()))) {
        FetchStep::Done(Ok(text)) => assert_eq!(text, "page"),
        _ => panic!("expected the page"),
    }
    assert_eq!(f.attempt, 3);
}

#[test]
fn fetch_gives_up_after_its_attempts() {
    let mut f = fetch_with_retry("u", 1);
    ask(f.step(Reply::Start));
    let e = report(ask(f.step(Reply::Got(Err("x".to_string())))));
    assert!(matches!(e, Event::FetchRetrying { attempt: 1, max_attempts: 1, .. }));
    match f.step(Reply::Done) {
        FetchStep::Done(Err(m)) => assert_eq!(m, "failed to get thread after 1 attempts"),
        _ => panic!("expected a failure"),
    }
    let mut none = fetch_with_retry("u", 0);
    match none.step(Reply::Start) {
        FetchStep::Done(Err(m)) => assert_eq!(m, "failed to get thread after 0 attempts"),
        _ => panic!("expected a failure"),
    }
}

#[test]
fn bad_post_id_is_reported_with_the_parser_text() {
    let cfg = config(&["u"], false, false, false);
    let mut m = scrape_thread("u", &cfg);
    m.step(Reply::Start, 0);
    m.step(Reply::Done, 0);
    let mut bad = post(5, vec![]);
    bad.id = 0;
    let html = page(&[bad]).replace("href=\"#0\"", "href=\"#x1\"");
    m.step(Reply::Got(Ok(html)), 0);
    m.step(Reply::Done, 0);
    m.step(Reply::Done, 0);
    let pe = "x1".parse::<u32>().unwrap_err();
    match m.step(Reply::Done, 0) {
        Action::Scraped(Err(msg)) => assert_eq!(msg, format!("failed to parse thread HTML: {}", pe)),
        _ => panic!("expected a failure"),
    }
}

#[test]
fn progress_lines_of_the_scraper() {
    let p = report_text(&Event::ThreadStarted { url: "http://x/t".to_string(), index: 2, total: 5 });
    assert!(!p.to_stderr);
    assert_eq!(p.text, "Processing http://x/t (2 / 5):\n");
    let p = report_text(&Event::ThreadDone { url: "u".to_string(), elapsed_ms: 1234 });
    assert_eq!(p.text, "Done processing u (1234 ms)\n");
    let p = report_text(&Event::ThreadFailed { url: "u".to_string(), error: "boom".to_string() });
    assert!(p.to_stderr);
    assert_eq!(p.text, "Error processing u: boom\n");
    assert_eq!(report_text(&Event::FetchStarted { url: "u".to_string() }).text, "\tGetting thread...");
    assert_eq!(report_text(&Event::FetchDone { elapsed_ms: 0 }).text, " Done (0 ms)\n");
    let retry = |attempt| report_text(&Event::FetchRetrying {
        url: "u".to_string(),
        attempt,
        max_attempts: 3,
        error: "e".to_string(),
    });
    assert_eq!(retry(1).text, "\n\tHTTP request failed for u: e\n\tWaiting 3 seconds...\n");
    assert_eq!(retry(3).text, "\n\tHTTP request failed for u: e\n");
    assert!(retry(3).to_stderr);
    assert_eq!(report_text(&Event::ParseStarted).text, "\tParsing posts...");
    assert_eq!(report_text(&Event::ParseDone { post_count: 4, elapsed_ms: 7 }).text, " Done (7 ms)\n");
    let p = report_text(&Event::DownloadBatchStarted { label: "files".to_string(), total_posts: 12 });
    assert_eq!(p.text, "\tDownloading files of 12 posts...\n");
    let p = report_text(&Event::DownloadBatchProgress { label: "files".to_string(), done: 3, total: 12 });
    assert_eq!(p.text, "\r\tfiles: 3 / 12");
    let p = report_text(&Event::DownloadAssetFailed {
        label: "files".to_string(),
        filename: "a.png".to_string(),
        attempt: 2,
        error: "x".to_string(),
    });
    assert!(p.to_stderr);
    assert_eq!(p.text, "\n\tfiles a.png: attempt 2 failed: x\n");
    let p = report_text(&Event::DownloadAssetSkipped { label: "thumb".to_string(), filename: "b".to_string() });
    assert_eq!(p.text, "\n\tthumb b: skipped\n");
    let p = report_text(&Event::DownloadBatchDone { label: "thumb".to_string(), elapsed_ms: 340282366920938463463374607431768211455 });
    assert_eq!(p.text, "\n\tDownloaded thumb (340282366920938463463374607431768211455 ms)\n");
}
