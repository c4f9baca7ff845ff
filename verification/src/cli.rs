//! The command line front end: its arguments and what it prints for each
//! event of a run.

use vstd::prelude::*;
use crate::downloader::config::Config;
use crate::downloader::event::Event;
use crate::downloader::export::{ExporterKind, HtmlExporter};
use crate::text::{
    chars_of, decimal, decimal_chars, extend_chars, extend_str, parse_u32, parse_u32_spec,
    str_eq, string_of,
};

verus! {

/// The usage text.
pub const HELP: &'static str = "Download threads from arhivach.

Usage: arhivach-downloader-cli [OPTIONS] <URL>

Arguments:
  <URL>  URL to download

Options:
  -d, --dir <DIR>                   Path to download directory [default: .]
  -e, --exporter <EXPORTER>         Exporter [default: html] [possible values: html]
  -t, --thumb                       Download thumbnail images, default: false
  -f, --files                       Download files (images, videos, gifs, etc), default: false
  -r, --resume                      Resume files and thumbnails downloading instead of overwriting. Useless if neither -t nor -f are set, default: false
  -R, --retries <DOWNLOAD_RETRIES>  Download retries in case of a error [default: 3]
  -h, --help                        Print help";

/// The settings gathered from the arguments read so far.
pub struct ArgsState {
    pub url: Option<Seq<char>>,
    pub dir: Seq<char>,
    pub thumb: bool,
    pub files: bool,
    pub resume: bool,
    pub retries: u32,
}

/// The settings before any argument: directory `.`, HTML export, no check
/// box set, 3 retries, no URL.
pub open spec fn initial_args() -> ArgsState {
    ArgsState { url: None, dir: "."@, thumb: false, files: false, resume: false, retries: 3 }
}

/// What the arguments amount to.
pub enum ArgsResult {
    /// Print the usage text and stop successfully.
    Help,
    /// Print this message and stop with a failure.
    Fail(Seq<char>),
    /// Run with these settings.
    Run(ArgsState),
}

/// The message for an option that lacks its value.
pub open spec fn needs_value(opt: Seq<char>) -> Seq<char> {
    "ERROR: "@ + opt + " requires a value"@
}

/// An argument is one of two spellings of an option.
pub open spec fn is_opt(a: Seq<char>, short: Seq<char>, long: Seq<char>) -> bool {
    a == short || a == long
}

/// Reads the arguments from position `i` on, left to right: `-h` stops
/// with the usage text; `-t`, `-f`, `-r` set their check box; `-d`, `-e`,
/// `-R` take the next argument as their value (the exporter must be `html`,
/// the retries a `u32`); any other argument starting with `-` is unknown;
/// the first other argument is the URL and a second one is unexpected.
/// After the last argument a URL is required.
pub open spec fn parse_from(args: Seq<Seq<char>>, i: int, st: ArgsState) -> ArgsResult
    decreases args.len() - i,
{
    if i < 0 || i >= args.len() {
        match st.url {
            None => ArgsResult::Fail(
                "ERROR: missing required argument <URL>. Run with --help for usage."@,
            ),
            Some(_) => ArgsResult::Run(st),
        }
    } else {
        let a = args[i];
        if is_opt(a, "-h"@, "--help"@) {
            ArgsResult::Help
        } else if is_opt(a, "-t"@, "--thumb"@) {
            parse_from(args, i + 1, ArgsState { thumb: true, ..st })
        } else if is_opt(a, "-f"@, "--files"@) {
            parse_from(args, i + 1, ArgsState { files: true, ..st })
        } else if is_opt(a, "-r"@, "--resume"@) {
            parse_from(args, i + 1, ArgsState { resume: true, ..st })
        } else if is_opt(a, "-d"@, "--dir"@) {
            if i + 1 < args.len() {
                parse_from(args, i + 2, ArgsState { dir: args[i + 1], ..st })
            } else {
                ArgsResult::Fail(needs_value(a))
            }
        } else if is_opt(a, "-e"@, "--exporter"@) {
            if i + 1 < args.len() {
                if args[i + 1] == "html"@ {
                    parse_from(args, i + 2, st)
                } else {
                    ArgsResult::Fail(
                        "ERROR: unknown exporter '"@ + args[i + 1] + "'. Possible values: html"@,
                    )
                }
            } else {
                ArgsResult::Fail(needs_value(a))
            }
        } else if is_opt(a, "-R"@, "--retries"@) {
            if i + 1 < args.len() {
                match parse_u32_spec(args[i + 1]) {
                    Some(n) => parse_from(args, i + 2, ArgsState { retries: n, ..st }),
                    None => ArgsResult::Fail(
                        "ERROR: --retries must be a non-negative integer"@,
                    ),
                }
            } else {
                ArgsResult::Fail(needs_value(a))
            }
        } else if a.len() > 0 && a[0] == '-' {
            ArgsResult::Fail(
                "ERROR: unknown option '"@ + a + "'. Run with --help for usage."@,
            )
        } else if st.url is Some {
            ArgsResult::Fail(
                "ERROR: unexpected argument '"@ + a + "'. Run with --help for usage."@,
            )
        } else {
            parse_from(args, i + 1, ArgsState { url: Some(a), ..st })
        }
    }
}

/// An option of the command line with its value, or the URL.
pub enum CliOpt {
    Thumb,
    Files,
    Resume,
    Dir(Seq<char>),
    Exporter(Seq<char>),
    Retries(Seq<char>),
    Url(Seq<char>),
}

/// The arguments an option is written as: its short or long form, then its
/// value if it takes one.
pub open spec fn opt_tokens(o: CliOpt, long: bool) -> Seq<Seq<char>> {
    match o {
        CliOpt::Thumb => seq![if long { "--thumb"@ } else { "-t"@ }],
        CliOpt::Files => seq![if long { "--files"@ } else { "-f"@ }],
        CliOpt::Resume => seq![if long { "--resume"@ } else { "-r"@ }],
        CliOpt::Dir(v) => seq![if long { "--dir"@ } else { "-d"@ }, v],
        CliOpt::Exporter(v) => seq![if long { "--exporter"@ } else { "-e"@ }, v],
        CliOpt::Retries(v) => seq![if long { "--retries"@ } else { "-R"@ }, v],
        CliOpt::Url(u) => seq![u],
    }
}

/// The arguments a list of options is written as, each in the form its
/// flag chooses (`true` for the long form).
pub open spec fn tokens(items: Seq<(CliOpt, bool)>) -> Seq<Seq<char>>
    decreases items.len(),
{
    if items.len() == 0 {
        Seq::empty()
    } else {
        opt_tokens(items[0].0, items[0].1) + tokens(items.skip(1))
    }
}

/// A URL argument that cannot be taken for an option.
pub open spec fn url_ok(u: Seq<char>) -> bool {
    !(u.len() > 0 && u[0] == '-')
}

/// No URL of the list can be taken for an option.
pub open spec fn urls_ok(items: Seq<(CliOpt, bool)>) -> bool {
    forall|i: int| 0 <= i < items.len() ==> (#[trigger] items[i].0 matches CliOpt::Url(u) ==> url_ok(u))
}

/// What reading the options one after the other from the settings `st`
/// amounts to, whatever form each is written in.
pub open spec fn apply_opts(items: Seq<(CliOpt, bool)>, st: ArgsState) -> ArgsResult
    decreases items.len(),
{
    if items.len() == 0 {
        parse_from(Seq::empty(), 0, st)
    } else {
        let rest = items.skip(1);
        match items[0].0 {
            CliOpt::Thumb => apply_opts(rest, ArgsState { thumb: true, ..st }),
            CliOpt::Files => apply_opts(rest, ArgsState { files: true, ..st }),
            CliOpt::Resume => apply_opts(rest, ArgsState { resume: true, ..st }),
            CliOpt::Dir(v) => apply_opts(rest, ArgsState { dir: v, ..st }),
            CliOpt::Exporter(v) => if v == "html"@ {
                apply_opts(rest, st)
            } else {
                ArgsResult::Fail("ERROR: unknown exporter '"@ + v + "'. Possible values: html"@)
            },
            CliOpt::Retries(v) => match parse_u32_spec(v) {
                Some(n) => apply_opts(rest, ArgsState { retries: n, ..st }),
                None => ArgsResult::Fail("ERROR: --retries must be a non-negative integer"@),
            },
            CliOpt::Url(u) => if st.url is Some {
                ArgsResult::Fail("ERROR: unexpected argument '"@ + u + "'. Run with --help for usage."@)
            } else {
                apply_opts(rest, ArgsState { url: Some(u), ..st })
            },
        }
    }
}

/// Reading arguments from a position past a prefix is reading the rest.
proof fn lemma_parse_shift(a: Seq<Seq<char>>, r: Seq<Seq<char>>, j: int, st: ArgsState)
    requires
        0 <= j,
    ensures
        parse_from(a + r, a.len() + j, st) == parse_from(r, j, st),
    decreases r.len() - j,
{
    let all = a + r;
    let i = a.len() + j;
    if j < r.len() {
        let x = r[j];
        assert(all[i] == x);
        if j + 1 < r.len() {
            assert(all[i + 1] == r[j + 1]);
        }
        lemma_parse_shift(a, r, j + 1, ArgsState { thumb: true, ..st });
        lemma_parse_shift(a, r, j + 1, ArgsState { files: true, ..st });
        lemma_parse_shift(a, r, j + 1, ArgsState { resume: true, ..st });
        lemma_parse_shift(a, r, j + 1, ArgsState { url: Some(x), ..st });
        if j + 1 < r.len() {
            lemma_parse_shift(a, r, j + 2, ArgsState { dir: r[j + 1], ..st });
            lemma_parse_shift(a, r, j + 2, st);
            match parse_u32_spec(r[j + 1]) {
                Some(n) => lemma_parse_shift(a, r, j + 2, ArgsState { retries: n, ..st }),
                None => {},
            }
        }
    }
}

/// How the spellings of the options begin: each is told apart from the
/// others by its length and its first three characters.
proof fn lemma_spellings()
    ensures
        "-h"@.len() == 2 && "-h"@[0] == '-' && "-h"@[1] == 'h',
        "--help"@.len() == 6 && "--help"@[0] == '-' && "--help"@[1] == '-' && "--help"@[2] == 'h',
        "-t"@.len() == 2 && "-t"@[0] == '-' && "-t"@[1] == 't',
        "--thumb"@.len() == 7 && "--thumb"@[0] == '-' && "--thumb"@[1] == '-' && "--thumb"@[2] == 't',
        "-f"@.len() == 2 && "-f"@[0] == '-' && "-f"@[1] == 'f',
        "--files"@.len() == 7 && "--files"@[0] == '-' && "--files"@[1] == '-' && "--files"@[2] == 'f',
        "-r"@.len() == 2 && "-r"@[0] == '-' && "-r"@[1] == 'r',
        "--resume"@.len() == 8 && "--resume"@[0] == '-' && "--resume"@[1] == '-' && "--resume"@[2] == 'r',
        "-d"@.len() == 2 && "-d"@[0] == '-' && "-d"@[1] == 'd',
        "--dir"@.len() == 5 && "--dir"@[0] == '-' && "--dir"@[1] == '-' && "--dir"@[2] == 'd',
        "-e"@.len() == 2 && "-e"@[0] == '-' && "-e"@[1] == 'e',
        "--exporter"@.len() == 10 && "--exporter"@[0] == '-' && "--exporter"@[1] == '-' && "--exporter"@[2] == 'e',
        "-R"@.len() == 2 && "-R"@[0] == '-' && "-R"@[1] == 'R',
        "--retries"@.len() == 9 && "--retries"@[0] == '-' && "--retries"@[1] == '-' && "--retries"@[2] == 'r',
{
    reveal_strlit("-h");
    reveal_strlit("--help");
    reveal_strlit("-t");
    reveal_strlit("--thumb");
    reveal_strlit("-f");
    reveal_strlit("--files");
    reveal_strlit("-r");
    reveal_strlit("--resume");
    reveal_strlit("-d");
    reveal_strlit("--dir");
    reveal_strlit("-e");
    reveal_strlit("--exporter");
    reveal_strlit("-R");
    reveal_strlit("--retries");
}

/// Reading the arguments a list of options is written as amounts to
/// `apply_opts`, when no URL of the list can be taken for an option.
pub proof fn lemma_tokens_read(items: Seq<(CliOpt, bool)>, st: ArgsState)
    requires
        urls_ok(items),
    ensures
        parse_from(tokens(items), 0, st) == apply_opts(items, st),
    decreases items.len(),
{
    if items.len() > 0 {
        let rest = items.skip(1);
        assert(urls_ok(rest)) by {
            assert forall|i: int| 0 <= i < rest.len() implies (#[trigger] rest[i].0 matches CliOpt::Url(
                u,
            ) ==> url_ok(u)) by {
                assert(rest[i] == items[i + 1]);
            }
        }
        assert(items[0].0 matches CliOpt::Url(u) ==> url_ok(u));
        let head = opt_tokens(items[0].0, items[0].1);
        let r = tokens(rest);
        lemma_spellings();
        lemma_tokens_read(rest, ArgsState { thumb: true, ..st });
        lemma_tokens_read(rest, ArgsState { files: true, ..st });
        lemma_tokens_read(rest, ArgsState { resume: true, ..st });
        lemma_tokens_read(rest, st);
        match items[0].0 {
            CliOpt::Dir(v) => lemma_tokens_read(rest, ArgsState { dir: v, ..st }),
            CliOpt::Retries(v) => match parse_u32_spec(v) {
                Some(n) => lemma_tokens_read(rest, ArgsState { retries: n, ..st }),
                None => {},
            },
            CliOpt::Url(u) => lemma_tokens_read(rest, ArgsState { url: Some(u), ..st }),
            _ => {},
        }
        lemma_parse_shift(head, r, 0, ArgsState { thumb: true, ..st });
        lemma_parse_shift(head, r, 0, ArgsState { files: true, ..st });
        lemma_parse_shift(head, r, 0, ArgsState { resume: true, ..st });
        lemma_parse_shift(head, r, 0, st);
        match items[0].0 {
            CliOpt::Dir(v) => lemma_parse_shift(head, r, 0, ArgsState { dir: v, ..st }),
            CliOpt::Retries(v) => match parse_u32_spec(v) {
                Some(n) => lemma_parse_shift(head, r, 0, ArgsState { retries: n, ..st }),
                None => {},
            },
            CliOpt::Url(u) => lemma_parse_shift(head, r, 0, ArgsState { url: Some(u), ..st }),
            _ => {},
        }
        assert(tokens(items) == head + r);
        match items[0].0 {
            CliOpt::Thumb => assert(parse_from(head + r, 0, st) == apply_opts(items, st)),
            CliOpt::Files => assert(parse_from(head + r, 0, st) == apply_opts(items, st)),
            CliOpt::Resume => assert(parse_from(head + r, 0, st) == apply_opts(items, st)),
            CliOpt::Dir(v) => assert(parse_from(head + r, 0, st) == apply_opts(items, st)),
            CliOpt::Exporter(v) => assert(parse_from(head + r, 0, st) == apply_opts(items, st)),
            CliOpt::Retries(v) => assert(parse_from(head + r, 0, st) == apply_opts(items, st)),
            CliOpt::Url(u) => assert(parse_from(head + r, 0, st) == apply_opts(items, st)),
        }
    }
}

proof fn lemma_apply_spelling(a: Seq<(CliOpt, bool)>, b: Seq<(CliOpt, bool)>, st: ArgsState)
    requires
        a.len() == b.len(),
        forall|i: int| 0 <= i < a.len() ==> (#[trigger] a[i]).0 == b[i].0,
    ensures
        apply_opts(a, st) == apply_opts(b, st),
    decreases a.len(),
{
    if a.len() > 0 {
        let (ra, rb) = (a.skip(1), b.skip(1));
        assert forall|i: int| 0 <= i < ra.len() implies (#[trigger] ra[i]).0 == rb[i].0 by {
            assert(ra[i] == a[i + 1]);
            assert(rb[i] == b[i + 1]);
        }
        assert(a[0].0 == b[0].0);
        match a[0].0 {
            CliOpt::Thumb => lemma_apply_spelling(ra, rb, ArgsState { thumb: true, ..st }),
            CliOpt::Files => lemma_apply_spelling(ra, rb, ArgsState { files: true, ..st }),
            CliOpt::Resume => lemma_apply_spelling(ra, rb, ArgsState { resume: true, ..st }),
            CliOpt::Dir(v) => lemma_apply_spelling(ra, rb, ArgsState { dir: v, ..st }),
            CliOpt::Exporter(_) => lemma_apply_spelling(ra, rb, st),
            CliOpt::Retries(v) => match parse_u32_spec(v) {
                Some(n) => lemma_apply_spelling(ra, rb, ArgsState { retries: n, ..st }),
                None => {},
            },
            CliOpt::Url(u) => lemma_apply_spelling(ra, rb, ArgsState { url: Some(u), ..st }),
        }
    }
}

/// Writing each option in its short or its long form gives the same
/// settings (or the same message): `-t` and `--thumb`, `-d` and `--dir`
/// and so on are read alike.
pub proof fn lemma_spelling_irrelevant(a: Seq<(CliOpt, bool)>, b: Seq<(CliOpt, bool)>, st: ArgsState)
    requires
        a.len() == b.len(),
        forall|i: int| 0 <= i < a.len() ==> (#[trigger] a[i]).0 == b[i].0,
        urls_ok(a),
    ensures
        parse_from(tokens(a), 0, st) == parse_from(tokens(b), 0, st),
{
    assert(urls_ok(b)) by {
        assert forall|i: int| 0 <= i < b.len() implies (#[trigger] b[i].0 matches CliOpt::Url(u)
            ==> url_ok(u)) by {
            assert(a[i].0 == b[i].0);
            assert(a[i].0 matches CliOpt::Url(u) ==> url_ok(u));
        }
    }
    lemma_tokens_read(a, st);
    lemma_tokens_read(b, st);
    lemma_apply_spelling(a, b, st);
}

/// The option is one of the switches `-t`, `-f`, `-r`.
pub open spec fn is_switch(o: CliOpt) -> bool {
    o is Thumb || o is Files || o is Resume
}

proof fn lemma_apply_repeat(a: Seq<(CliOpt, bool)>, k: int, st: ArgsState)
    requires
        0 <= k < a.len(),
        is_switch(a[k].0),
    ensures
        apply_opts(a.insert(k + 1, a[k]), st) == apply_opts(a, st),
    decreases k,
{
    let b = a.insert(k + 1, a[k]);
    if k == 0 {
        assert(b.skip(1) == a);
        assert(b[0] == a[0]);
        let st1 = match a[0].0 {
            CliOpt::Thumb => ArgsState { thumb: true, ..st },
            CliOpt::Files => ArgsState { files: true, ..st },
            _ => ArgsState { resume: true, ..st },
        };
        assert(apply_opts(b, st) == apply_opts(a, st1));
        assert(apply_opts(a, st1) == apply_opts(a.skip(1), st1));
    } else {
        let ra = a.skip(1);
        assert(b.skip(1) == ra.insert(k, ra[k - 1]));
        assert(ra[k - 1] == a[k]);
        assert(b[0] == a[0]);
        match a[0].0 {
            CliOpt::Thumb => lemma_apply_repeat(ra, k - 1, ArgsState { thumb: true, ..st }),
            CliOpt::Files => lemma_apply_repeat(ra, k - 1, ArgsState { files: true, ..st }),
            CliOpt::Resume => lemma_apply_repeat(ra, k - 1, ArgsState { resume: true, ..st }),
            CliOpt::Dir(v) => lemma_apply_repeat(ra, k - 1, ArgsState { dir: v, ..st }),
            CliOpt::Exporter(_) => lemma_apply_repeat(ra, k - 1, st),
            CliOpt::Retries(v) => match parse_u32_spec(v) {
                Some(n) => lemma_apply_repeat(ra, k - 1, ArgsState { retries: n, ..st }),
                None => {},
            },
            CliOpt::Url(u) => lemma_apply_repeat(ra, k - 1, ArgsState { url: Some(u), ..st }),
        }
    }
}

/// Giving a switch (`-t`, `-f` or `-r`) once more right after it changes
/// nothing.
pub proof fn lemma_repeated_switch(a: Seq<(CliOpt, bool)>, k: int, st: ArgsState)
    requires
        0 <= k < a.len(),
        is_switch(a[k].0),
        urls_ok(a),
    ensures
        parse_from(tokens(a.insert(k + 1, a[k])), 0, st) == parse_from(tokens(a), 0, st),
{
    let b = a.insert(k + 1, a[k]);
    assert(urls_ok(b)) by {
        assert forall|i: int| 0 <= i < b.len() implies (#[trigger] b[i].0 matches CliOpt::Url(u)
            ==> url_ok(u)) by {
            if i <= k {
                assert(b[i] == a[i]);
            } else if i > k + 1 {
                assert(b[i] == a[i - 1]);
            }
        }
    }
    lemma_tokens_read(a, st);
    lemma_tokens_read(b, st);
    lemma_apply_repeat(a, k, st);
}

/// The option can be read without failing: a valid exporter name or
/// number of retries, or any other option; not the URL.
pub open spec fn valid_option(o: CliOpt) -> bool {
    match o {
        CliOpt::Exporter(v) => v == "html"@,
        CliOpt::Retries(v) => parse_u32_spec(v) is Some,
        CliOpt::Url(_) => false,
        _ => true,
    }
}

/// The settings after a valid option.
pub open spec fn with_option(o: CliOpt, st: ArgsState) -> ArgsState {
    match o {
        CliOpt::Thumb => ArgsState { thumb: true, ..st },
        CliOpt::Files => ArgsState { files: true, ..st },
        CliOpt::Resume => ArgsState { resume: true, ..st },
        CliOpt::Dir(v) => ArgsState { dir: v, ..st },
        CliOpt::Retries(v) => ArgsState { retries: parse_u32_spec(v).unwrap(), ..st },
        _ => st,
    }
}

/// The list with the neighbours at `k` and `k + 1` exchanged.
pub open spec fn swapped(a: Seq<(CliOpt, bool)>, k: int) -> Seq<(CliOpt, bool)> {
    a.update(k, a[k + 1]).update(k + 1, a[k])
}

proof fn lemma_apply_swap(a: Seq<(CliOpt, bool)>, k: int, st: ArgsState)
    requires
        0 <= k,
        k + 1 < a.len(),
        valid_option(a[k].0),
        a[k + 1].0 is Url,
    ensures
        apply_opts(swapped(a, k), st) == apply_opts(a, st),
    decreases k,
{
    let b = swapped(a, k);
    if k == 0 {
        let o = a[0].0;
        let u = a[1].0->Url_0;
        assert(b.skip(1).skip(1) == a.skip(1).skip(1));
        assert(b.skip(1)[0] == a[0]);
        assert(a.skip(1)[0] == a[1]);
        let rest = a.skip(1).skip(1);
        assert(apply_opts(a, st) == apply_opts(a.skip(1), with_option(o, st)));
        if st.url is None {
            assert(apply_opts(a.skip(1), with_option(o, st)) == apply_opts(
                rest,
                ArgsState { url: Some(u), ..with_option(o, st) },
            ));
            assert(apply_opts(b, st) == apply_opts(b.skip(1), ArgsState { url: Some(u), ..st }));
            assert(apply_opts(b.skip(1), ArgsState { url: Some(u), ..st }) == apply_opts(
                rest,
                with_option(o, ArgsState { url: Some(u), ..st }),
            ));
            assert(with_option(o, ArgsState { url: Some(u), ..st }) == ArgsState {
                url: Some(u),
                ..with_option(o, st)
            });
        }
    } else {
        let ra = a.skip(1);
        assert(b.skip(1) == swapped(ra, k - 1));
        assert(ra[k - 1] == a[k]);
        assert(ra[k] == a[k + 1]);
        assert(b[0] == a[0]);
        match a[0].0 {
            CliOpt::Thumb => lemma_apply_swap(ra, k - 1, ArgsState { thumb: true, ..st }),
            CliOpt::Files => lemma_apply_swap(ra, k - 1, ArgsState { files: true, ..st }),
            CliOpt::Resume => lemma_apply_swap(ra, k - 1, ArgsState { resume: true, ..st }),
            CliOpt::Dir(v) => lemma_apply_swap(ra, k - 1, ArgsState { dir: v, ..st }),
            CliOpt::Exporter(_) => lemma_apply_swap(ra, k - 1, st),
            CliOpt::Retries(v) => match parse_u32_spec(v) {
                Some(n) => lemma_apply_swap(ra, k - 1, ArgsState { retries: n, ..st }),
                None => {},
            },
            CliOpt::Url(u) => lemma_apply_swap(ra, k - 1, ArgsState { url: Some(u), ..st }),
        }
    }
}

/// A valid option may stand before or after the URL: exchanging it with
/// the URL next to it gives the same settings (or the same message).
pub proof fn lemma_option_moves_past_url(a: Seq<(CliOpt, bool)>, k: int, st: ArgsState)
    requires
        0 <= k,
        k + 1 < a.len(),
        valid_option(a[k].0),
        a[k + 1].0 is Url,
        urls_ok(a),
    ensures
        parse_from(tokens(swapped(a, k)), 0, st) == parse_from(tokens(a), 0, st),
{
    let b = swapped(a, k);
    assert(urls_ok(b)) by {
        assert forall|i: int| 0 <= i < b.len() implies (#[trigger] b[i].0 matches CliOpt::Url(u)
            ==> url_ok(u)) by {
            if i == k {
                assert(b[i] == a[k + 1]);
            } else if i == k + 1 {
                assert(b[i] == a[k]);
            } else {
                assert(b[i] == a[i]);
            }
        }
    }
    lemma_tokens_read(a, st);
    lemma_tokens_read(b, st);
    lemma_apply_swap(a, k, st);
}

/// `b` says what `a` says, written another way in one rewrite: every
/// option in its other form or the same, a switch given once more right
/// after it, or a valid option and the URL next to it exchanged (either
/// way round).
pub open spec fn one_rewrite(a: Seq<(CliOpt, bool)>, b: Seq<(CliOpt, bool)>) -> bool {
    ||| (a.len() == b.len() && forall|i: int| 0 <= i < a.len() ==> (#[trigger] a[i]).0 == b[i].0)
    ||| exists|k: int|
        #![trigger a.insert(k + 1, a[k])]
        0 <= k < a.len() && is_switch(a[k].0) && b == a.insert(k + 1, a[k])
    ||| exists|k: int|
        #![trigger swapped(a, k)]
        0 <= k && k + 1 < a.len() && b == swapped(a, k) && ((valid_option(a[k].0) && a[k
            + 1].0 is Url) || (a[k].0 is Url && valid_option(a[k + 1].0)))
}

/// `b` comes from `a` by `n` rewrites one after the other.
pub open spec fn rewritten(a: Seq<(CliOpt, bool)>, b: Seq<(CliOpt, bool)>, n: nat) -> bool
    decreases n,
{
    if n == 0 {
        a == b
    } else {
        exists|c: Seq<(CliOpt, bool)>| #[trigger] one_rewrite(a, c) && rewritten(c, b, (n - 1) as nat)
    }
}

proof fn lemma_one_rewrite(a: Seq<(CliOpt, bool)>, b: Seq<(CliOpt, bool)>, st: ArgsState)
    requires
        urls_ok(a),
        one_rewrite(a, b),
    ensures
        urls_ok(b),
        parse_from(tokens(a), 0, st) == parse_from(tokens(b), 0, st),
{
    if a.len() == b.len() && forall|i: int| 0 <= i < a.len() ==> (#[trigger] a[i]).0 == b[i].0 {
        assert forall|i: int| 0 <= i < b.len() implies (#[trigger] b[i].0 matches CliOpt::Url(u)
            ==> url_ok(u)) by {
            assert(a[i].0 == b[i].0);
            assert(a[i].0 matches CliOpt::Url(u) ==> url_ok(u));
        }
        lemma_spelling_irrelevant(a, b, st);
    } else if exists|k: int|
        #![trigger a.insert(k + 1, a[k])]
        0 <= k < a.len() && is_switch(a[k].0) && b == a.insert(k + 1, a[k]) {
        let k = choose|k: int|
            #![trigger a.insert(k + 1, a[k])]
            0 <= k < a.len() && is_switch(a[k].0) && b == a.insert(k + 1, a[k]);
        assert forall|i: int| 0 <= i < b.len() implies (#[trigger] b[i].0 matches CliOpt::Url(u)
            ==> url_ok(u)) by {
            if i <= k {
                assert(b[i] == a[i]);
            } else if i > k + 1 {
                assert(b[i] == a[i - 1]);
            }
        }
        lemma_repeated_switch(a, k, st);
    } else {
        let k = choose|k: int|
            #![trigger swapped(a, k)]
            0 <= k && k + 1 < a.len() && b == swapped(a, k) && ((valid_option(a[k].0) && a[k
                + 1].0 is Url) || (a[k].0 is Url && valid_option(a[k + 1].0)));
        assert forall|i: int| 0 <= i < b.len() implies (#[trigger] b[i].0 matches CliOpt::Url(u)
            ==> url_ok(u)) by {
            if i == k {
                assert(b[i] == a[k + 1]);
            } else if i == k + 1 {
                assert(b[i] == a[k]);
            } else {
                assert(b[i] == a[i]);
            }
        }
        if valid_option(a[k].0) && a[k + 1].0 is Url {
            lemma_option_moves_past_url(a, k, st);
        } else {
            assert(swapped(b, k) == a);
            lemma_option_moves_past_url(b, k, st);
        }
    }
}

/// Arguments that say the same thing written another way are read alike:
/// whatever mix of short and long forms, whichever side of the URL the
/// valid options stand, and however often a switch is repeated, the
/// command line gives the same settings, or the same message.
pub proof fn lemma_rewritten_args_read_alike(
    a: Seq<(CliOpt, bool)>,
    b: Seq<(CliOpt, bool)>,
    n: nat,
    st: ArgsState,
)
    requires
        urls_ok(a),
        rewritten(a, b, n),
    ensures
        urls_ok(b),
        parse_from(tokens(a), 0, st) == parse_from(tokens(b), 0, st),
    decreases n,
{
    if n > 0 {
        let c = choose|c: Seq<(CliOpt, bool)>| #[trigger] one_rewrite(a, c) && rewritten(c, b, (n - 1) as nat);
        lemma_one_rewrite(a, c, st);
        lemma_rewritten_args_read_alike(c, b, (n - 1) as nat, st);
    }
}

/// What the command line asks for.
pub enum CliArgs {
    /// Print the usage text and stop successfully.
    Help,
    /// Print the message and stop with a failure.
    Fail(String),
    /// Run with these settings.
    Run(Config),
}

/// The outcome matches what the arguments amount to.
pub open spec fn args_match(out: CliArgs, r: ArgsResult) -> bool {
    match r {
        ArgsResult::Help => out is Help,
        ArgsResult::Fail(m) => out matches CliArgs::Fail(s) && s@ == m,
        ArgsResult::Run(st) => out matches CliArgs::Run(c) && {
            &&& Some(c.url@) == st.url
            &&& c.dir@ == st.dir
            &&& c.exporter is Html
            &&& c.thumb == st.thumb
            &&& c.files == st.files
            &&& c.resume == st.resume
            &&& c.download_retries == st.retries
        },
    }
}

fn message3(a: &str, b: &str, c: &str) -> (s: String)
    ensures
        s@ == a@ + b@ + c@,
{
    let mut out: Vec<char> = Vec::new();
    extend_str(&mut out, a);
    extend_str(&mut out, b);
    extend_str(&mut out, c);
    string_of(&out)
}

fn copy_string(s: &String) -> (r: String)
    ensures
        r@ == s@,
{
    string_of(&chars_of(s.as_str()))
}

/// Reads the command line arguments (without the program name).
pub fn parse_args(args: &Vec<String>) -> (out: CliArgs)
    ensures
        args_match(out, parse_from(views_of_strings(args@), 0, initial_args())),
{
    let ghost all = views_of_strings(args@);
    let mut url: Option<String> = None;
    let mut dir = String::from_str(".");
    let mut thumb = false;
    let mut files = false;
    let mut resume = false;
    let mut retries: u32 = 3;
    let mut i: usize = 0;
    while i < args.len()
        invariant
            i <= args.len(),
            all == views_of_strings(args@),
            parse_from(all, i as int, ArgsState {
                url: match url { Some(u) => Some(u@), None => None },
                dir: dir@,
                thumb,
                files,
                resume,
                retries,
            }) == parse_from(all, 0, initial_args()),
        decreases args.len() - i,
    {
        let a = args[i].as_str();
        assert(all[i as int] == a@);
        if str_eq(a, "-h") || str_eq(a, "--help") {
            return CliArgs::Help;
        } else if str_eq(a, "-t") || str_eq(a, "--thumb") {
            thumb = true;
            i = i + 1;
        } else if str_eq(a, "-f") || str_eq(a, "--files") {
            files = true;
            i = i + 1;
        } else if str_eq(a, "-r") || str_eq(a, "--resume") {
            resume = true;
            i = i + 1;
        } else if str_eq(a, "-d") || str_eq(a, "--dir") {
            if i + 1 < args.len() {
                assert(all[i + 1] == args[i + 1 as int]@);
                dir = copy_string(&args[i + 1]);
                i = i + 2;
            } else {
                return CliArgs::Fail(message3("ERROR: ", a, " requires a value"));
            }
        } else if str_eq(a, "-e") || str_eq(a, "--exporter") {
            if i + 1 < args.len() {
                assert(all[i + 1] == args[i + 1 as int]@);
                if str_eq(args[i + 1].as_str(), "html") {
                    i = i + 2;
                } else {
                    return CliArgs::Fail(
                        message3(
                            "ERROR: unknown exporter '",
                            args[i + 1].as_str(),
                            "'. Possible values: html",
                        ),
                    );
                }
            } else {
                return CliArgs::Fail(message3("ERROR: ", a, " requires a value"));
            }
        } else if str_eq(a, "-R") || str_eq(a, "--retries") {
            if i + 1 < args.len() {
                assert(all[i + 1] == args[i + 1 as int]@);
                match parse_u32(args[i + 1].as_str()) {
                    Ok(n) => {
                        retries = n;
                        i = i + 2;
                    },
                    Err(_) => {
                        return CliArgs::Fail(
                            String::from_str("ERROR: --retries must be a non-negative integer"),
                        );
                    },
                }
            } else {
                return CliArgs::Fail(message3("ERROR: ", a, " requires a value"));
            }
        } else {
            let ac = chars_of(a);
            if ac.len() > 0 && ac[0] == '-' {
                return CliArgs::Fail(
                    message3("ERROR: unknown option '", a, "'. Run with --help for usage."),
                );
            }
            match &url {
                Some(_) => {
                    return CliArgs::Fail(
                        message3(
                            "ERROR: unexpected argument '",
                            a,
                            "'. Run with --help for usage.",
                        ),
                    );
                },
                None => {},
            }
            url = Some(copy_string(&args[i]));
            i = i + 1;
        }
    }
    match url {
        Some(u) => CliArgs::Run(
            Config {
                url: u,
                dir,
                exporter: ExporterKind::Html(HtmlExporter),
                thumb,
                files,
                resume,
                download_retries: retries,
            },
        ),
        None => CliArgs::Fail(
            String::from_str("ERROR: missing required argument <URL>. Run with --help for usage."),
        ),
    }
}

/// Text printed for an event, and where.
pub struct Printed {
    /// Printed on the error stream instead of the output stream.
    pub to_stderr: bool,
    /// The exact text, line breaks included.
    pub text: String,
}

/// The progress line of a file download: a carriage return, a tab, and the
/// position out of the total.
pub open spec fn progress(index: usize, max_index: usize) -> Seq<char> {
    "\r\tDownloading "@ + decimal(index as nat) + " / "@ + decimal(max_index as nat) + "..."@
}

/// What the command line prints for an event: on the output stream except
/// for the failures, which go to the error stream.
pub open spec fn event_text(ev: Event) -> (bool, Seq<char>) {
    match ev {
        Event::GetStarted => (false, "Fetching thread..."@),
        Event::GetDone => (false, " Done.\n"@),
        Event::GetFailed { error } => (true, "\nFailed to fetch thread: "@ + error@ + "\n"@),
        Event::DownloadAllStarted => (false, "Downloading stuff...\n"@),
        Event::DownloadAllDone => (false, "All downloads complete.\n"@),
        Event::DownloadAllFailed { error } => (true, "Download failed: "@ + error@ + "\n"@),
        Event::DownloadStarted { index, max_index } => (false, progress(index, max_index)),
        Event::DownloadDone { index, max_index } => (
            false,
            progress(index, max_index) + " Done.\n"@,
        ),
        Event::DownloadFailed { url, error } => (
            true,
            "\r\tFailed to download "@ + url@ + ": "@ + error@ + "\n"@,
        ),
        Event::DownloadSkipped { index, max_index } => (
            false,
            progress(index, max_index) + " Skipped.\n"@,
        ),
        Event::DownloadFilesStarted => (false, "Downloading files...\n"@),
        Event::DownloadFilesDone => (false, "Done.\n"@),
        Event::DownloadThumbStarted => (false, "Downloading thumbnails...\n"@),
        Event::DownloadThumbDone => (false, "Done.\n"@),
        Event::ExportStarted => (false, "Exporting..."@),
        Event::ExportDone => (false, " Done.\n"@),
        Event::ExportFailed { error } => (true, "\nExport failed: "@ + error@ + "\n"@),
    }
}

fn extend_progress(out: &mut Vec<char>, index: usize, max_index: usize)
    ensures
        final(out)@ == old(out)@ + progress(index, max_index),
{
    let ghost o0 = out@;
    extend_str(out, "\r\tDownloading ");
    extend_chars(out, &decimal_chars(index as u64));
    extend_str(out, " / ");
    extend_chars(out, &decimal_chars(max_index as u64));
    extend_str(out, "...");
    assert(out@ =~= o0 + progress(index, max_index));
}

fn printed(to_stderr: bool, text: &str) -> (p: Printed)
    ensures
        p.to_stderr == to_stderr,
        p.text@ == text@,
{
    Printed { to_stderr, text: String::from_str(text) }
}

/// What the command line prints for an event.
pub fn render_event(event: &Event) -> (p: Printed)
    ensures
        (p.to_stderr, p.text@) == event_text(*event),
{
    match event {
        Event::GetStarted => printed(false, "Fetching thread..."),
        Event::GetDone => printed(false, " Done.\n"),
        Event::GetFailed { error } => Printed {
            to_stderr: true,
            text: message3("\nFailed to fetch thread: ", error.as_str(), "\n"),
        },
        Event::DownloadAllStarted => printed(false, "Downloading stuff...\n"),
        Event::DownloadAllDone => printed(false, "All downloads complete.\n"),
        Event::DownloadAllFailed { error } => Printed {
            to_stderr: true,
            text: message3("Download failed: ", error.as_str(), "\n"),
        },
        Event::DownloadStarted { index, max_index } => {
            let mut out: Vec<char> = Vec::new();
            extend_progress(&mut out, *index, *max_index);
            assert(out@ =~= progress(*index, *max_index));
            Printed { to_stderr: false, text: string_of(&out) }
        },
        Event::DownloadDone { index, max_index } => {
            let mut out: Vec<char> = Vec::new();
            extend_progress(&mut out, *index, *max_index);
            extend_str(&mut out, " Done.\n");
            assert(out@ =~= progress(*index, *max_index) + " Done.\n"@);
            Printed { to_stderr: false, text: string_of(&out) }
        },
        Event::DownloadFailed { url, error } => {
            let mut out: Vec<char> = Vec::new();
            extend_str(&mut out, "\r\tFailed to download ");
            extend_str(&mut out, url.as_str());
            extend_str(&mut out, ": ");
            extend_str(&mut out, error.as_str());
            extend_str(&mut out, "\n");
            Printed { to_stderr: true, text: string_of(&out) }
        },
        Event::DownloadSkipped { index, max_index } => {
            let mut out: Vec<char> = Vec::new();
            extend_progress(&mut out, *index, *max_index);
            extend_str(&mut out, " Skipped.\n");
            assert(out@ =~= progress(*index, *max_index) + " Skipped.\n"@);
            Printed { to_stderr: false, text: string_of(&out) }
        },
        Event::DownloadFilesStarted => printed(false, "Downloading files...\n"),
        Event::DownloadFilesDone => printed(false, "Done.\n"),
        Event::DownloadThumbStarted => printed(false, "Downloading thumbnails...\n"),
        Event::DownloadThumbDone => printed(false, "Done.\n"),
        Event::ExportStarted => printed(false, "Exporting..."),
        Event::ExportDone => printed(false, " Done.\n"),
        Event::ExportFailed { error } => Printed {
            to_stderr: true,
            text: message3("\nExport failed: ", error.as_str(), "\n"),
        },
    }
}

/// The character sequences of a sequence of strings.
pub open spec fn views_of_strings(v: Seq<String>) -> Seq<Seq<char>> {
    Seq::new(v.len(), |i: int| v[i]@)
}

} // verus!
