use arhivarch_downloader::args::parse_args as parse_list_args;
use arhivarch_downloader::cli::{parse_args, render_event, CliArgs, HELP};
use arhivarch_downloader::downloader::event::Event;
use arhivarch_downloader::tui::{
    checkbox_label, event_label, field_at, handle_input_key, handle_mouse_click, is_bool_field,
    toggle_field, App, AppState, Area, Field, Key, KeyOutcome, FIELD_COUNT,
};

fn args(v: &[&str]) -> Vec<String> {
    v.iter().map(|s| s.to_string()).collect()
}

fn failure(out: CliArgs) -> String {
    match out {
        CliArgs::Fail(m) => m,
        _ => panic!("expected a failure"),
    }
}

#[test]
fn cli_defaults() {
    match parse_args(&args(&["http://t"])) {
        CliArgs::Run(c) => {
            assert_eq!(c.url, "http://t");
            assert_eq!(c.dir, ".");
            assert!(!c.thumb && !c.files && !c.resume);
            assert_eq!(c.download_retries, 3);
        }
        _ => panic!("expected settings"),
    }
}

#[test]
fn cli_all_options() {
    let a = args(&["-t", "--files", "-r", "-R", "7", "-d", "out dir", "-e", "html", "http://t"]);
    match parse_args(&a) {
        CliArgs::Run(c) => {
            assert_eq!(c.url, "http://t");
            assert_eq!(c.dir, "out dir");
            assert!(c.thumb && c.files && c.resume);
            assert_eq!(c.download_retries, 7);
        }
        _ => panic!("expected settings"),
    }
}

#[test]
fn cli_help_wins_at_its_position() {
    assert!(matches!(parse_args(&args(&["-h"])), CliArgs::Help));
    assert!(matches!(parse_args(&args(&["u", "--help", "--bogus"])), CliArgs::Help));
    assert!(HELP.starts_with("Download threads from arhivach."));
}

#[test]
fn cli_errors() {
    assert_eq!(
        failure(parse_args(&args(&[]))),
        "ERROR: missing required argument <URL>. Run with --help for usage."
    );
    assert_eq!(failure(parse_args(&args(&["u", "-d"]))), "ERROR: -d requires a value");
    assert_eq!(failure(parse_args(&args(&["u", "--retries"]))), "ERROR: --retries requires a value");
    assert_eq!(
        failure(parse_args(&args(&["u", "-R", "-1"]))),
        "ERROR: --retries must be a non-negative integer"
    );
    assert_eq!(
        failure(parse_args(&args(&["u", "-e", "pdf"]))),
        "ERROR: unknown exporter 'pdf'. Possible values: html"
    );
    assert_eq!(
        failure(parse_args(&args(&["u", "-x"]))),
        "ERROR: unknown option '-x'. Run with --help for usage."
    );
    assert_eq!(
        failure(parse_args(&args(&["u", "v"]))),
        "ERROR: unexpected argument 'v'. Run with --help for usage."
    );
}

#[test]
fn cli_event_texts() {
    let p = render_event(&Event::GetStarted);
    assert!(!p.to_stderr);
    assert_eq!(p.text, "Fetching thread...");
    let p = render_event(&Event::DownloadStarted { index: 2, max_index: 10 });
    assert_eq!(p.text, "\r\tDownloading 2 / 10...");
    let p = render_event(&Event::DownloadDone { index: 2, max_index: 10 });
    assert_eq!(p.text, "\r\tDownloading 2 / 10... Done.\n");
    let p = render_event(&Event::DownloadSkipped { index: 3, max_index: 10 });
    assert_eq!(p.text, "\r\tDownloading 3 / 10... Skipped.\n");
    let p = render_event(&Event::DownloadFailed { url: "u".to_string(), error: "e".to_string() });
    assert!(p.to_stderr);
    assert_eq!(p.text, "\r\tFailed to download u: e\n");
    let p = render_event(&Event::GetFailed { error: "bad".to_string() });
    assert!(p.to_stderr);
    assert_eq!(p.text, "\nFailed to fetch thread: bad\n");
    assert_eq!(render_event(&Event::ExportDone).text, " Done.\n");
    assert_eq!(render_event(&Event::DownloadAllStarted).text, "Downloading stuff...\n");
}

#[test]
fn list_args_take_url_then_lines() {
    let c = parse_list_args(Some("a".to_string()), Some("b\nc\r\n".to_string()), true, false).unwrap();
    assert_eq!(c.urls, vec!["a".to_string(), "b".to_string(), "c".to_string()]);
    assert!(c.thumb);
    assert!(!c.files);
    assert!(parse_list_args(None, Some(String::new()), false, false).is_none());
    assert!(parse_list_args(None, None, false, false).is_none());
}

#[test]
fn tui_starts_on_the_form() {
    let app = App::new();
    assert!(matches!(app.state, AppState::Input));
    assert_eq!(app.url, "");
    assert_eq!(app.dir, ".");
    assert_eq!(app.retries, "3");
    assert_eq!(app.selected, 0);
    assert_eq!(app.field(), Field::Url);
    assert_eq!(app.field_areas.len(), FIELD_COUNT);
}

#[test]
fn tui_tab_cycles_and_backtab_undoes() {
    let mut app = App::new();
    for i in 1..=FIELD_COUNT {
        handle_input_key(&mut app, Key::Tab);
        assert_eq!(app.selected, i % FIELD_COUNT);
    }
    handle_input_key(&mut app, Key::BackTab);
    assert_eq!(app.selected, FIELD_COUNT - 1);
    handle_input_key(&mut app, Key::Tab);
    assert_eq!(app.selected, 0);
    handle_input_key(&mut app, Key::Up);
    assert_eq!(app.field(), Field::Retries);
    handle_input_key(&mut app, Key::Down);
    assert_eq!(app.field(), Field::Url);
}

#[test]
fn tui_typing_and_erasing() {
    let mut app = App::new();
    for c in "http://x".chars() {
        handle_input_key(&mut app, Key::Char(c));
    }
    assert_eq!(app.url, "http://x");
    handle_input_key(&mut app, Key::Backspace);
    assert_eq!(app.url, "http://");
    app.selected = 5;
    handle_input_key(&mut app, Key::Char('a'));
    handle_input_key(&mut app, Key::Char('7'));
    assert_eq!(app.retries, "37");
    handle_input_key(&mut app, Key::Backspace);
    handle_input_key(&mut app, Key::Backspace);
    handle_input_key(&mut app, Key::Backspace);
    assert_eq!(app.retries, "");
}

#[test]
fn tui_space_toggles_check_boxes() {
    let mut app = App::new();
    app.selected = 2;
    handle_input_key(&mut app, Key::Char(' '));
    assert!(app.thumb);
    handle_input_key(&mut app, Key::Char(' '));
    assert!(!app.thumb);
    app.selected = 0;
    handle_input_key(&mut app, Key::Char(' '));
    assert_eq!(app.url, "");
}

#[test]
fn tui_enter_starts_only_with_url() {
    let mut app = App::new();
    assert!(handle_input_key(&mut app, Key::Enter).is_none());
    assert!(matches!(app.state, AppState::Input));
    handle_input_key(&mut app, Key::Char('u'));
    app.retries = "x".to_string();
    app.files = true;
    app.log.push("old".to_string());
    let c = handle_input_key(&mut app, Key::Enter).unwrap();
    assert!(matches!(app.state, AppState::Running));
    assert!(app.log.is_empty());
    assert_eq!(c.url, "u");
    assert_eq!(c.dir, ".");
    assert!(c.files);
    assert_eq!(c.download_retries, 3);
}

#[test]
fn tui_keys_by_state() {
    let mut app = App::new();
    assert!(matches!(app.on_key(Key::Char('c'), true), KeyOutcome::Quit));
    assert!(matches!(app.on_key(Key::Char('q'), false), KeyOutcome::Continue));
    assert_eq!(app.url, "q");
    app.state = AppState::Running;
    assert!(matches!(app.on_key(Key::Enter, false), KeyOutcome::Continue));
    app.finish();
    assert!(matches!(app.state, AppState::Done));
    assert!(matches!(app.on_key(Key::Char('x'), false), KeyOutcome::Continue));
    assert!(matches!(app.on_key(Key::Char('q'), false), KeyOutcome::Quit));
    assert!(matches!(app.on_key(Key::Enter, false), KeyOutcome::Quit));
    assert_eq!(app.log_title(), "Done");
    assert_eq!(app.log_hint(), "q / Enter: quit");
}

#[test]
fn tui_clicks_select_and_toggle() {
    let mut app = App::new();
    for i in 0..FIELD_COUNT {
        app.field_areas[i] = Area { x: 2, y: 2 + 3 * i as u16, width: 40, height: 3 };
    }
    handle_mouse_click(&mut app, 5, 9);
    assert_eq!(app.selected, 2);
    assert!(!app.thumb);
    handle_mouse_click(&mut app, 5, 9);
    assert!(app.thumb);
    handle_mouse_click(&mut app, 5, 9);
    assert!(!app.thumb);
    handle_mouse_click(&mut app, 100, 100);
    assert_eq!(app.selected, 2);
    app.on_left_click(5, 3);
    assert_eq!(app.selected, 0);
}

#[test]
fn tui_rows_and_labels() {
    let mut app = App::new();
    app.resume = true;
    let rows = app.input_rows();
    assert_eq!(rows.len(), FIELD_COUNT);
    assert_eq!(rows[0].label, "URL");
    assert!(rows[0].active);
    assert_eq!(rows[1].value, ".");
    assert_eq!(rows[4].label, "Resume");
    assert_eq!(rows[4].value, "[x]");
    assert_eq!(rows[5].value, "3");
    assert_eq!(checkbox_label(false), "[ ]");
    assert_eq!(checkbox_label(true), "[x]");
    assert!(is_bool_field(Field::Files));
    assert!(!is_bool_field(Field::Dir));
    assert_eq!(field_at(3), Field::Files);
    toggle_field(&mut app, Field::Files);
    assert!(app.files);
    toggle_field(&mut app, Field::Url);
    assert!(app.files);
}

#[test]
fn tui_event_labels() {
    assert_eq!(event_label(&Event::GetStarted), "Fetching thread...");
    assert_eq!(event_label(&Event::DownloadStarted { index: 1, max_index: 4 }), "  [1/4] Downloading...");
    assert_eq!(event_label(&Event::DownloadSkipped { index: 2, max_index: 4 }), "  [2/4] Skipped.");
    assert_eq!(event_label(&Event::GetFailed { error: "x".to_string() }), "ERROR: x");
    assert_eq!(
        event_label(&Event::DownloadFailed { url: "u".to_string(), error: "e".to_string() }),
        "  Failed u: e"
    );
    let mut app = App::new();
    app.record(&Event::ExportDone);
    assert_eq!(app.log, vec!["Export done.".to_string()]);
}

fn settings(out: CliArgs) -> (String, String, bool, bool, bool, u32) {
    match out {
        CliArgs::Run(c) => (c.url, c.dir, c.thumb, c.files, c.resume, c.download_retries),
        _ => panic!("expected settings"),
    }
}

#[test]
fn cli_forms_order_and_repetition_do_not_matter() {
    let base = settings(parse_args(&args(&["-t", "-d", "out", "-R", "5", "http://t"])));
    let long = settings(parse_args(&args(&["--thumb", "--dir", "out", "--retries", "5", "http://t"])));
    let moved = settings(parse_args(&args(&["http://t", "-R", "5", "--dir", "out", "-t"])));
    let repeated = settings(parse_args(&args(&["-t", "-t", "-d", "out", "http://t", "-R", "5", "--thumb"])));
    assert_eq!(base, long);
    assert_eq!(base, moved);
    assert_eq!(base, repeated);
}

#[test]
fn cli_help_text_matches_the_documented_usage() {
    assert!(HELP.contains("\nUsage: arhivach-downloader-cli [OPTIONS] <URL>\n"));
    assert!(!HELP.contains(".exe"));
    assert!(HELP.contains("-R, --retries <DOWNLOAD_RETRIES>  Download retries in case of a error [default: 3]"));
}
