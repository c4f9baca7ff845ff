//! The interactive terminal front end: its input form, the keys and clicks
//! it reacts to, and the log it shows while a download runs.
//!
//! Drawing and the terminal itself belong to the program that runs the
//! interface; this module decides what the screen holds and how the
//! interface state changes.

use vstd::prelude::*;
use crate::downloader::config::Config;
use crate::downloader::event::Event;
use crate::downloader::export::{ExporterKind, HtmlExporter};
use crate::text::{
    chars_of, decimal, decimal_chars, extend_chars, extend_str, parse_u32, parse_u32_spec,
    string_of,
};

verus! {

/// What the interface is doing.
#[derive(Clone, Copy, Debug)]
pub enum AppState {
    /// The form is shown and edited.
    Input,
    /// A download runs and its log is shown.
    Running,
    /// The download has ended; its log is still shown.
    Done,
}

/// The fields of the input form, top to bottom.
#[derive(Clone, Copy, Debug, PartialEq, Eq, Structural)]
pub enum Field {
    Url,
    Dir,
    Thumb,
    Files,
    Resume,
    Retries,
}

/// The number of fields in the form.
pub const FIELD_COUNT: usize = 6;

/// The field at a position of the form.
pub open spec fn spec_field_at(i: int) -> Field {
    if i == 0 {
        Field::Url
    } else if i == 1 {
        Field::Dir
    } else if i == 2 {
        Field::Thumb
    } else if i == 3 {
        Field::Files
    } else if i == 4 {
        Field::Resume
    } else {
        Field::Retries
    }
}

/// The field at a position of the form.
pub fn field_at(i: usize) -> (f: Field)
    requires
        i < FIELD_COUNT,
    ensures
        f == spec_field_at(i as int),
{
    if i == 0 {
        Field::Url
    } else if i == 1 {
        Field::Dir
    } else if i == 2 {
        Field::Thumb
    } else if i == 3 {
        Field::Files
    } else if i == 4 {
        Field::Resume
    } else {
        Field::Retries
    }
}

/// A rectangle of the screen, in cells.
#[derive(Clone, Copy, Debug)]
pub struct Area {
    pub x: u16,
    pub y: u16,
    pub width: u16,
    pub height: u16,
}

/// A key press, as far as the interface tells keys apart.
#[derive(Clone, Copy, Debug)]
pub enum Key {
    Tab,
    BackTab,
    Up,
    Down,
    Enter,
    Backspace,
    Char(char),
    Other,
}

/// The state of the interface.
pub struct App {
    pub state: AppState,
    pub url: String,
    pub dir: String,
    pub thumb: bool,
    pub files: bool,
    pub resume: bool,
    pub retries: String,
    /// Position of the selected field.
    pub selected: usize,
    /// The log lines of the current run.
    pub log: Vec<String>,
    /// Where each field was last drawn, by position.
    pub field_areas: Vec<Area>,
}

/// The interface state as plain values.
pub struct AppView {
    pub state: AppState,
    pub url: Seq<char>,
    pub dir: Seq<char>,
    pub thumb: bool,
    pub files: bool,
    pub resume: bool,
    pub retries: Seq<char>,
    pub selected: int,
    pub log: Seq<Seq<char>>,
    pub field_areas: Seq<Area>,
}

impl View for App {
    type V = AppView;

    open spec fn view(&self) -> AppView {
        AppView {
            state: self.state,
            url: self.url@,
            dir: self.dir@,
            thumb: self.thumb,
            files: self.files,
            resume: self.resume,
            retries: self.retries@,
            selected: self.selected as int,
            log: Seq::new(self.log@.len(), |i: int| self.log@[i]@),
            field_areas: self.field_areas@,
        }
    }
}

impl AppView {
    /// A field is selected, and every field has an area.
    pub open spec fn wf(self) -> bool {
        0 <= self.selected < FIELD_COUNT && self.field_areas.len() == FIELD_COUNT
    }
}

/// Whether a field is a check box.
pub open spec fn spec_is_bool_field(f: Field) -> bool {
    f == Field::Thumb || f == Field::Files || f == Field::Resume
}

/// The form with a check box flipped; other fields are left as they are.
pub open spec fn toggled(v: AppView, f: Field) -> AppView {
    match f {
        Field::Thumb => AppView { thumb: !v.thumb, ..v },
        Field::Files => AppView { files: !v.files, ..v },
        Field::Resume => AppView { resume: !v.resume, ..v },
        _ => v,
    }
}

/// A line of text without its last character (unchanged when empty).
pub open spec fn pop_last(s: Seq<char>) -> Seq<char> {
    if s.len() > 0 {
        s.drop_last()
    } else {
        s
    }
}

/// The interface after a run was started: the log is emptied and the log
/// view shown.
pub open spec fn started(v: AppView) -> AppView {
    AppView { state: AppState::Running, log: Seq::empty(), ..v }
}

/// The effect of a key on the form. Tab and Down select the next field
/// (wrapping), BackTab and Up the previous one (wrapping). Enter starts a
/// run when a URL was typed. Space flips a check box. Other characters are
/// typed into the URL or directory field, and digits into the retries
/// field; Backspace removes the last character of those fields.
pub open spec fn input_key(v: AppView, key: Key) -> AppView {
    let f = spec_field_at(v.selected);
    match key {
        Key::Tab | Key::Down => AppView { selected: (v.selected + 1) % (FIELD_COUNT as int), ..v },
        Key::BackTab | Key::Up => AppView {
            selected: if v.selected == 0 {
                FIELD_COUNT - 1
            } else {
                v.selected - 1
            },
            ..v
        },
        Key::Enter => if v.url.len() > 0 {
            started(v)
        } else {
            v
        },
        Key::Char(c) => if c == ' ' {
            if spec_is_bool_field(f) {
                toggled(v, f)
            } else {
                v
            }
        } else {
            match f {
                Field::Url => AppView { url: v.url.push(c), ..v },
                Field::Dir => AppView { dir: v.dir.push(c), ..v },
                Field::Retries => if '0' <= c && c <= '9' {
                    AppView { retries: v.retries.push(c), ..v }
                } else {
                    v
                },
                _ => v,
            }
        },
        Key::Backspace => match f {
            Field::Url => AppView { url: pop_last(v.url), ..v },
            Field::Dir => AppView { dir: pop_last(v.dir), ..v },
            Field::Retries => AppView { retries: pop_last(v.retries), ..v },
            _ => v,
        },
        Key::Other => v,
    }
}

/// The interface with one more log line.
pub open spec fn recorded(v: AppView, line: Seq<char>) -> AppView {
    AppView { log: v.log.push(line), ..v }
}

/// The interface after the run ended.
pub open spec fn finished(v: AppView) -> AppView {
    AppView { state: AppState::Done, ..v }
}

/// A key starts a run: Enter with a URL typed.
pub open spec fn starts_run(v: AppView, key: Key) -> bool {
    key is Enter && v.url.len() > 0
}

/// The settings a run is started with: the form's values, HTML export, and
/// the retries field read as a number (3 when it does not read as one).
pub open spec fn run_config(c: Config, v: AppView) -> bool {
    &&& c.url@ == v.url
    &&& c.dir@ == v.dir
    &&& c.exporter is Html
    &&& c.thumb == v.thumb
    &&& c.files == v.files
    &&& c.resume == v.resume
    &&& c.download_retries == match parse_u32_spec(v.retries) {
        Some(n) => n,
        None => 3,
    }
}

/// The cell lies inside the area.
pub open spec fn inside(a: Area, col: u16, row: u16) -> bool {
    a.x <= col < a.x + a.width && a.y <= row < a.y + a.height
}

/// The first area (by position) that holds the cell, if any.
pub open spec fn hit(areas: Seq<Area>, col: u16, row: u16) -> Option<int>
    decreases areas.len(),
{
    if areas.len() == 0 {
        None
    } else {
        match hit(areas.drop_last(), col, row) {
            Some(i) => Some(i),
            None => if inside(areas.last(), col, row) {
                Some(areas.len() - 1)
            } else {
                None
            },
        }
    }
}

/// The effect of a left click: clicking the selected check box flips it,
/// clicking another field selects it, clicking elsewhere does nothing.
pub open spec fn click(v: AppView, col: u16, row: u16) -> AppView {
    match hit(v.field_areas, col, row) {
        Some(i) => if v.selected == i && spec_is_bool_field(spec_field_at(i)) {
            toggled(v, spec_field_at(i))
        } else {
            AppView { selected: i, ..v }
        },
        None => v,
    }
}

/// The log line of an event.
pub open spec fn spec_event_label(ev: Event) -> Seq<char> {
    match ev {
        Event::GetStarted => "Fetching thread..."@,
        Event::GetDone => "Thread fetched."@,
        Event::GetFailed { error } => "ERROR: "@ + error@,
        Event::DownloadAllStarted => "Downloading assets..."@,
        Event::DownloadAllDone => "All downloads complete."@,
        Event::DownloadAllFailed { error } => "Download error: "@ + error@,
        Event::DownloadStarted { index, max_index } => "  ["@ + decimal(index as nat) + "/"@
            + decimal(max_index as nat) + "] Downloading..."@,
        Event::DownloadDone { index, max_index } => "  ["@ + decimal(index as nat) + "/"@
            + decimal(max_index as nat) + "] Done."@,
        Event::DownloadSkipped { index, max_index } => "  ["@ + decimal(index as nat) + "/"@
            + decimal(max_index as nat) + "] Skipped."@,
        Event::DownloadFailed { url, error } => "  Failed "@ + url@ + ": "@ + error@,
        Event::DownloadFilesStarted => "Downloading files..."@,
        Event::DownloadFilesDone => "Files downloaded."@,
        Event::DownloadThumbStarted => "Downloading thumbnails..."@,
        Event::DownloadThumbDone => "Thumbnails downloaded."@,
        Event::ExportStarted => "Exporting..."@,
        Event::ExportDone => "Export done."@,
        Event::ExportFailed { error } => "Export error: "@ + error@,
    }
}

/// The log line of a progress event: position, total and what happened.
fn progress_label(index: usize, max_index: usize, what: &str) -> (s: String)
    ensures
        s@ == "  ["@ + decimal(index as nat) + "/"@ + decimal(max_index as nat) + "] "@ + what@,
{
    let mut out: Vec<char> = Vec::new();
    extend_str(&mut out, "  [");
    extend_chars(&mut out, &decimal_chars(index as u64));
    extend_str(&mut out, "/");
    extend_chars(&mut out, &decimal_chars(max_index as u64));
    extend_str(&mut out, "] ");
    extend_str(&mut out, what);
    string_of(&out)
}

fn prefixed(prefix: &str, rest: &str) -> (s: String)
    ensures
        s@ == prefix@ + rest@,
{
    let mut out: Vec<char> = Vec::new();
    extend_str(&mut out, prefix);
    extend_str(&mut out, rest);
    string_of(&out)
}

/// The log line shown for an event.
pub fn event_label(ev: &Event) -> (s: String)
    ensures
        s@ == spec_event_label(*ev),
{
    match ev {
        Event::GetStarted => String::from_str("Fetching thread..."),
        Event::GetDone => String::from_str("Thread fetched."),
        Event::GetFailed { error } => prefixed("ERROR: ", error.as_str()),
        Event::DownloadAllStarted => String::from_str("Downloading assets..."),
        Event::DownloadAllDone => String::from_str("All downloads complete."),
        Event::DownloadAllFailed { error } => prefixed("Download error: ", error.as_str()),
        Event::DownloadStarted { index, max_index } => {
            let s = progress_label(*index, *max_index, "Downloading...");
            proof {
                reveal_strlit("] ");
                reveal_strlit("Downloading...");
                reveal_strlit("] Downloading...");
            }
            assert(s@ =~= spec_event_label(*ev));
            s
        },
        Event::DownloadDone { index, max_index } => {
            let s = progress_label(*index, *max_index, "Done.");
            proof {
                reveal_strlit("] ");
                reveal_strlit("Done.");
                reveal_strlit("] Done.");
            }
            assert(s@ =~= spec_event_label(*ev));
            s
        },
        Event::DownloadSkipped { index, max_index } => {
            let s = progress_label(*index, *max_index, "Skipped.");
            proof {
                reveal_strlit("] ");
                reveal_strlit("Skipped.");
                reveal_strlit("] Skipped.");
            }
            assert(s@ =~= spec_event_label(*ev));
            s
        },
        Event::DownloadFailed { url, error } => {
            let mut out: Vec<char> = Vec::new();
            extend_str(&mut out, "  Failed ");
            extend_str(&mut out, url.as_str());
            extend_str(&mut out, ": ");
            extend_str(&mut out, error.as_str());
            string_of(&out)
        },
        Event::DownloadFilesStarted => String::from_str("Downloading files..."),
        Event::DownloadFilesDone => String::from_str("Files downloaded."),
        Event::DownloadThumbStarted => String::from_str("Downloading thumbnails..."),
        Event::DownloadThumbDone => String::from_str("Thumbnails downloaded."),
        Event::ExportStarted => String::from_str("Exporting..."),
        Event::ExportDone => String::from_str("Export done."),
        Event::ExportFailed { error } => prefixed("Export error: ", error.as_str()),
    }
}

/// The value shown in a check box.
pub fn checkbox_label(b: bool) -> (s: String)
    ensures
        s@ == if b {
            "[x]"@
        } else {
            "[ ]"@
        },
{
    if b {
        String::from_str("[x]")
    } else {
        String::from_str("[ ]")
    }
}

/// Whether a field is a check box.
pub fn is_bool_field(field: Field) -> (b: bool)
    ensures
        b == spec_is_bool_field(field),
{
    match field {
        Field::Thumb | Field::Files | Field::Resume => true,
        _ => false,
    }
}

/// Flips a check box field; other fields are left as they are.
pub fn toggle_field(app: &mut App, field: Field)
    ensures
        final(app)@ == toggled(old(app)@, field),
{
    match field {
        Field::Thumb => app.thumb = !app.thumb,
        Field::Files => app.files = !app.files,
        Field::Resume => app.resume = !app.resume,
        _ => {},
    }
}

fn pop_string(s: &mut String)
    ensures
        final(s)@ == pop_last(old(s)@),
{
    let mut cs = chars_of(s.as_str());
    if cs.len() > 0 {
        cs.pop();
    }
    *s = string_of(&cs);
}

impl App {
    /// The interface at start: the form, empty URL, directory `.`, no check
    /// box set, 3 retries, the URL field selected, an empty log.
    pub fn new() -> (app: App)
        ensures
            app@.wf(),
            app@.state is Input,
            app@.url.len() == 0,
            app@.dir == "."@,
            !app@.thumb && !app@.files && !app@.resume,
            app@.retries == "3"@,
            app@.selected == 0,
            app@.log.len() == 0,
            forall|i: int|
                0 <= i < FIELD_COUNT ==> #[trigger] app@.field_areas[i] == (Area {
                    x: 0,
                    y: 0,
                    width: 0,
                    height: 0,
                }),
    {
        let mut field_areas: Vec<Area> = Vec::new();
        let mut i: usize = 0;
        while i < FIELD_COUNT
            invariant
                i <= FIELD_COUNT,
                field_areas@.len() == i,
                forall|k: int|
                    0 <= k < i ==> #[trigger] field_areas@[k] == (Area { x: 0, y: 0, width: 0, height: 0 }),
            decreases FIELD_COUNT - i,
        {
            field_areas.push(Area { x: 0, y: 0, width: 0, height: 0 });
            i = i + 1;
        }
        let app = App {
            state: AppState::Input,
            url: String::new(),
            dir: String::from_str("."),
            thumb: false,
            files: false,
            resume: false,
            retries: String::from_str("3"),
            selected: 0,
            log: Vec::new(),
            field_areas,
        };
        assert(app@.log =~= Seq::<Seq<char>>::empty());
        app
    }

    /// The selected field.
    pub fn field(&self) -> (f: Field)
        requires
            self@.wf(),
        ensures
            f == spec_field_at(self@.selected),
    {
        field_at(self.selected)
    }

    /// Starts a run with the form's settings: the log view is shown, the
    /// log emptied, and the settings of the run returned.
    pub fn start(&mut self) -> (config: Config)
        ensures
            final(self)@ == started(old(self)@),
            run_config(config, old(self)@),
    {
        let retries = match parse_u32(self.retries.as_str()) {
            Ok(n) => n,
            Err(_) => 3,
        };
        let config = Config {
            url: self.url.clone(),
            dir: self.dir.clone(),
            exporter: ExporterKind::Html(HtmlExporter),
            thumb: self.thumb,
            files: self.files,
            resume: self.resume,
            download_retries: retries,
        };
        self.state = AppState::Running;
        self.log.clear();
        assert(self@.log =~= Seq::<Seq<char>>::empty());
        config
    }

    /// Adds the log line of an event.
    pub fn record(&mut self, ev: &Event)
        ensures
            final(self)@ == recorded(old(self)@, spec_event_label(*ev)),
    {
        let line = event_label(ev);
        let ghost lv = line@;
        self.log.push(line);
        assert(self@.log =~= old(self)@.log.push(lv));
    }

    /// The rows of the form, top to bottom: label, shown value, field, and
    /// whether it is the selected one.
    pub fn input_rows(&self) -> (rows: Vec<Row>)
        requires
            self@.wf(),
        ensures
            rows@.len() == FIELD_COUNT,
            forall|i: int|
                0 <= i < FIELD_COUNT ==> {
                    &&& (#[trigger] rows@[i]).label@ == row_label(i)
                    &&& rows@[i].value@ == row_value(self@, i)
                    &&& rows@[i].field == spec_field_at(i)
                    &&& rows@[i].active == (self@.selected == i)
                },
    {
        let mut rows: Vec<Row> = Vec::new();
        let mut i: usize = 0;
        while i < FIELD_COUNT
            invariant
                i <= FIELD_COUNT,
                self@.wf(),
                rows@.len() == i,
                forall|k: int|
                    0 <= k < i ==> {
                        &&& (#[trigger] rows@[k]).label@ == row_label(k)
                        &&& rows@[k].value@ == row_value(self@, k)
                        &&& rows@[k].field == spec_field_at(k)
                        &&& rows@[k].active == (self@.selected == k)
                    },
            decreases FIELD_COUNT - i,
        {
            let label = if i == 0 {
                String::from_str("URL")
            } else if i == 1 {
                String::from_str("Output dir")
            } else if i == 2 {
                String::from_str("Thumbnails")
            } else if i == 3 {
                String::from_str("Files")
            } else if i == 4 {
                String::from_str("Resume")
            } else {
                String::from_str("Retries")
            };
            let value = if i == 0 {
                self.url.clone()
            } else if i == 1 {
                self.dir.clone()
            } else if i == 2 {
                checkbox_label(self.thumb)
            } else if i == 3 {
                checkbox_label(self.files)
            } else if i == 4 {
                checkbox_label(self.resume)
            } else {
                self.retries.clone()
            };
            rows.push(Row { label, value, field: field_at(i), active: self.selected == i });
            i = i + 1;
        }
        rows
    }

    /// The title of the log view.
    pub fn log_title(&self) -> (t: &'static str)
        requires
            !(self@.state is Input),
        ensures
            t@ == if self@.state is Running {
                "Running"@
            } else {
                "Done"@
            },
    {
        match self.state {
            AppState::Running => "Running",
            _ => "Done",
        }
    }

    /// The key hint of the log view.
    pub fn log_hint(&self) -> (t: &'static str)
        ensures
            t@ == if self@.state is Done {
                "q / Enter: quit"@
            } else {
                "Ctrl+C: quit"@
            },
    {
        match self.state {
            AppState::Done => "q / Enter: quit",
            _ => "Ctrl+C: quit",
        }
    }

    /// Reacts to a key press. Ctrl+C always quits. On the form the key is
    /// applied to it; while running keys are ignored; once done, `q` or
    /// Enter quits.
    pub fn on_key(&mut self, key: Key, ctrl: bool) -> (out: KeyOutcome)
        requires
            old(self)@.wf(),
        ensures
            final(self)@.wf(),
            ctrl && key == Key::Char('c') ==> out is Quit && final(self)@ == old(self)@,
            !(ctrl && key == Key::Char('c')) ==> match old(self)@.state {
                AppState::Input => final(self)@ == input_key(old(self)@, key) && match out {
                    KeyOutcome::Start(c) => starts_run(old(self)@, key) && run_config(
                        c,
                        old(self)@,
                    ),
                    KeyOutcome::Continue => !starts_run(old(self)@, key),
                    KeyOutcome::Quit => false,
                },
                AppState::Running => out is Continue && final(self)@ == old(self)@,
                AppState::Done => final(self)@ == old(self)@ && (if key == Key::Char('q')
                    || key is Enter {
                    out is Quit
                } else {
                    out is Continue
                }),
            },
    {
        let is_ctrl_c = match key {
            Key::Char(c) => ctrl && c == 'c',
            _ => false,
        };
        if is_ctrl_c {
            return KeyOutcome::Quit;
        }
        match self.state {
            AppState::Input => match handle_input_key(self, key) {
                Some(c) => KeyOutcome::Start(c),
                None => KeyOutcome::Continue,
            },
            AppState::Running => KeyOutcome::Continue,
            AppState::Done => {
                let quit = match key {
                    Key::Char(c) => c == 'q',
                    Key::Enter => true,
                    _ => false,
                };
                if quit {
                    KeyOutcome::Quit
                } else {
                    KeyOutcome::Continue
                }
            },
        }
    }

    /// Reacts to a left click: on the form it is applied to it, otherwise
    /// it is ignored.
    pub fn on_left_click(&mut self, col: u16, row: u16)
        requires
            old(self)@.wf(),
        ensures
            final(self)@.wf(),
            old(self)@.state is Input ==> final(self)@ == click(old(self)@, col, row),
            !(old(self)@.state is Input) ==> final(self)@ == old(self)@,
    {
        if let AppState::Input = self.state {
            handle_mouse_click(self, col, row);
        }
    }

    /// Marks the run as ended.
    pub fn finish(&mut self)
        ensures
            final(self)@ == finished(old(self)@),
    {
        self.state = AppState::Done;
    }
}

/// What a key press leads to.
pub enum KeyOutcome {
    /// Leave the interface.
    Quit,
    /// Start a run with these settings.
    Start(Config),
    /// Keep going.
    Continue,
}

/// The label of the form field at a position.
pub open spec fn row_label(i: int) -> Seq<char> {
    if i == 0 {
        "URL"@
    } else if i == 1 {
        "Output dir"@
    } else if i == 2 {
        "Thumbnails"@
    } else if i == 3 {
        "Files"@
    } else if i == 4 {
        "Resume"@
    } else {
        "Retries"@
    }
}

/// The shown value of a check box.
pub open spec fn checkbox(b: bool) -> Seq<char> {
    if b {
        "[x]"@
    } else {
        "[ ]"@
    }
}

/// The value shown in the form field at a position.
pub open spec fn row_value(v: AppView, i: int) -> Seq<char> {
    if i == 0 {
        v.url
    } else if i == 1 {
        v.dir
    } else if i == 2 {
        checkbox(v.thumb)
    } else if i == 3 {
        checkbox(v.files)
    } else if i == 4 {
        checkbox(v.resume)
    } else {
        v.retries
    }
}

/// One field of the form as it is drawn.
pub struct Row {
    pub label: String,
    pub value: String,
    pub field: Field,
    /// The field is the selected one.
    pub active: bool,
}

/// Applies a key to the form; returns the settings of a run when the key
/// starts one.
pub fn handle_input_key(app: &mut App, key: Key) -> (started: Option<Config>)
    requires
        old(app)@.wf(),
    ensures
        final(app)@ == input_key(old(app)@, key),
        final(app)@.wf(),
        match started {
            Some(c) => starts_run(old(app)@, key) && run_config(c, old(app)@),
            None => !starts_run(old(app)@, key),
        },
{
    match key {
        Key::Tab | Key::Down => {
            app.selected = (app.selected + 1) % FIELD_COUNT;
            None
        },
        Key::BackTab | Key::Up => {
            app.selected = if app.selected == 0 {
                FIELD_COUNT - 1
            } else {
                app.selected - 1
            };
            None
        },
        Key::Enter => {
            if chars_of(app.url.as_str()).len() > 0 {
                Some(app.start())
            } else {
                None
            }
        },
        Key::Char(c) => {
            let f = app.field();
            if c == ' ' {
                if is_bool_field(f) {
                    toggle_field(app, f);
                }
            } else {
                match f {
                    Field::Url => crate::text::push_char(&mut app.url, c),
                    Field::Dir => crate::text::push_char(&mut app.dir, c),
                    Field::Retries => {
                        if '0' <= c && c <= '9' {
                            crate::text::push_char(&mut app.retries, c);
                        }
                    },
                    _ => {},
                }
            }
            None
        },
        Key::Backspace => {
            match app.field() {
                Field::Url => pop_string(&mut app.url),
                Field::Dir => pop_string(&mut app.dir),
                Field::Retries => pop_string(&mut app.retries),
                _ => {},
            }
            None
        },
        Key::Other => None,
    }
}

fn area_contains(a: &Area, col: u16, row: u16) -> (b: bool)
    ensures
        b == inside(*a, col, row),
{
    (a.x as u32) <= (col as u32) && (col as u32) < (a.x as u32) + (a.width as u32) && (a.y as u32)
        <= (row as u32) && (row as u32) < (a.y as u32) + (a.height as u32)
}

/// Applies a left click at a cell to the form.
pub fn handle_mouse_click(app: &mut App, col: u16, row: u16)
    requires
        old(app)@.wf(),
    ensures
        final(app)@ == click(old(app)@, col, row),
        final(app)@.wf(),
{
    let ghost v0 = app@;
    let mut i: usize = 0;
    while i < app.field_areas.len()
        invariant
            app@ == v0,
            v0 == old(app)@,
            v0.wf(),
            i <= app.field_areas.len(),
            hit(v0.field_areas.take(i as int), col, row) is None,
        decreases app.field_areas.len() - i,
    {
        assert(v0.field_areas.take(i + 1).drop_last() == v0.field_areas.take(i as int));
        if area_contains(&app.field_areas[i], col, row) {
            proof {
                lemma_hit_prefix(v0.field_areas, i as int, col, row);
            }
            if app.selected == i && is_bool_field(field_at(i)) {
                toggle_field(app, field_at(i));
            } else {
                app.selected = i;
            }
            return;
        }
        i = i + 1;
    }
    assert(v0.field_areas.take(i as int) == v0.field_areas);
}

/// The form after `n` presses of Tab.
pub open spec fn tabbed(v: AppView, n: nat) -> AppView
    decreases n,
{
    if n == 0 {
        v
    } else {
        input_key(tabbed(v, (n - 1) as nat), Key::Tab)
    }
}

/// Tab moves the selection forward and BackTab moves it back: either one
/// undoes the other.
pub proof fn lemma_tab_backtab(v: AppView)
    requires
        v.wf(),
    ensures
        input_key(input_key(v, Key::Tab), Key::BackTab) == v,
        input_key(input_key(v, Key::BackTab), Key::Tab) == v,
{
}

/// Pressing Tab once per field brings the selection back to where it was,
/// and changes nothing else.
pub proof fn lemma_tab_cycle(v: AppView)
    requires
        v.wf(),
    ensures
        tabbed(v, FIELD_COUNT as nat) == v,
{
    lemma_tabbed(v, FIELD_COUNT as nat);
}

proof fn lemma_tabbed(v: AppView, n: nat)
    requires
        v.wf(),
    ensures
        tabbed(v, n) == (AppView { selected: (v.selected + n) % (FIELD_COUNT as int), ..v }),
    decreases n,
{
    if n > 0 {
        lemma_tabbed(v, (n - 1) as nat);
    }
}

/// Space twice leaves the form as it was: on a check box it flips it and
/// flips it back, elsewhere it does nothing.
pub proof fn lemma_space_twice(v: AppView)
    requires
        v.wf(),
    ensures
        input_key(input_key(v, Key::Char(' ')), Key::Char(' ')) == v,
{
}

/// A character typed into a text field is removed again by Backspace.
pub proof fn lemma_type_then_erase(v: AppView, c: char)
    requires
        v.wf(),
        c != ' ',
        spec_field_at(v.selected) == Field::Url || spec_field_at(v.selected) == Field::Dir || (
        spec_field_at(v.selected) == Field::Retries && '0' <= c <= '9'),
    ensures
        input_key(input_key(v, Key::Char(c)), Key::Backspace) == v,
{
    assert(v.url.push(c).drop_last() == v.url);
    assert(v.dir.push(c).drop_last() == v.dir);
    assert(v.retries.push(c).drop_last() == v.retries);
}

/// Clicking the selected check box twice flips it and flips it back.
pub proof fn lemma_click_twice(v: AppView, col: u16, row: u16)
    requires
        v.wf(),
        hit(v.field_areas, col, row) == Some(v.selected),
        spec_is_bool_field(spec_field_at(v.selected)),
    ensures
        click(click(v, col, row), col, row) == v,
{
}

/// The first hit within a prefix that ends at the first hit is the first
/// hit overall.
proof fn lemma_hit_prefix(areas: Seq<Area>, i: int, col: u16, row: u16)
    requires
        0 <= i < areas.len(),
        hit(areas.take(i), col, row) is None,
        inside(areas[i], col, row),
    ensures
        hit(areas, col, row) == Some(i),
    decreases areas.len(),
{
    if i < areas.len() - 1 {
        assert(areas.drop_last().take(i) == areas.take(i));
        lemma_hit_prefix(areas.drop_last(), i, col, row);
    } else {
        assert(areas.drop_last() == areas.take(i));
        assert(areas.take(i + 1).drop_last() == areas.take(i));
    }
}

} // verus!
