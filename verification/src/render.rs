//! Rendering of posts to HTML fragments.

use vstd::prelude::*;
use crate::file::File;
use crate::post::Post;
use crate::text::{
    chars_of, decimal, decimal_chars, extend_chars, extend_str, is_digit, join, join_chars,
    last_piece, last_piece_chars, lemma_join_append, lemma_split_on_around,
    lemma_split_on_nonempty, replace, replace_chars, split_chars, split_on, string_of, views,
};

verus! {

/// What one character becomes in escaped HTML text.
pub open spec fn escape_char(c: char) -> Seq<char> {
    if c == '&' {
        seq!['&', 'a', 'm', 'p', ';']
    } else if c == '<' {
        seq!['&', 'l', 't', ';']
    } else if c == '>' {
        seq!['&', 'g', 't', ';']
    } else if c == '"' {
        seq!['&', 'q', 'u', 'o', 't', ';']
    } else {
        seq![c]
    }
}

/// HTML-escaped text: `&`, `<`, `>` and `"` become entities, every other
/// character stays as it is.
pub open spec fn escape(s: Seq<char>) -> Seq<char>
    decreases s.len(),
{
    if s.len() == 0 {
        Seq::empty()
    } else {
        escape(s.drop_last()) + escape_char(s.last())
    }
}

/// Escaping distributes over concatenation.
pub proof fn lemma_escape_concat(a: Seq<char>, b: Seq<char>)
    ensures
        escape(a + b) == escape(a) + escape(b),
    decreases b.len(),
{
    if b.len() == 0 {
        assert(a + b == a);
    } else {
        lemma_escape_concat(a, b.drop_last());
        assert((a + b).drop_last() == a + b.drop_last());
        assert((a + b).last() == b.last());
    }
}

fn escape_chars(s: &Vec<char>) -> (out: Vec<char>)
    ensures
        out@ == escape(s@),
{
    let mut out: Vec<char> = Vec::new();
    let mut i: usize = 0;
    while i < s.len()
        invariant
            i <= s.len(),
            out@ == escape(s@.take(i as int)),
        decreases s.len() - i,
    {
        let c = s[i];
        assert(s@.take(i + 1).drop_last() == s@.take(i as int));
        if c == '&' {
            extend_str(&mut out, "&amp;");
            proof { reveal_strlit("&amp;"); }
        } else if c == '<' {
            extend_str(&mut out, "&lt;");
            proof { reveal_strlit("&lt;"); }
        } else if c == '>' {
            extend_str(&mut out, "&gt;");
            proof { reveal_strlit("&gt;"); }
        } else if c == '"' {
            extend_str(&mut out, "&quot;");
            proof { reveal_strlit("&quot;"); }
        } else {
            out.push(c);
        }
        i = i + 1;
        assert(out@ =~= escape(s@.take(i as int)));
    }
    assert(s@.take(s.len() as int) == s@);
    out
}

/// Escapes `&`, `<`, `>` and `"` for use in HTML text and attribute values.
pub fn html_escape(s: &str) -> (r: String)
    ensures
        r@ == escape(s@),
{
    let cs = chars_of(s);
    let out = escape_chars(&cs);
    string_of(&out)
}

/// The escaped form of `>>`, which marks a reply reference.
pub open spec fn reply_marker() -> Seq<char> {
    seq!['&', 'g', 't', ';', '&', 'g', 't', ';']
}

/// The escaped form of `>`, which opens a quoted ("green") line.
pub open spec fn quote_marker() -> Seq<char> {
    seq!['&', 'g', 't', ';']
}

/// `s` begins with `p`.
pub open spec fn starts_with(s: Seq<char>, p: Seq<char>) -> bool {
    p.len() <= s.len() && s.take(p.len() as int) == p
}

/// The number of ASCII digits at the start of `s`.
pub open spec fn digit_run(s: Seq<char>) -> nat
    decreases s.len(),
{
    if s.len() > 0 && is_digit(s[0]) {
        1 + digit_run(s.skip(1))
    } else {
        0
    }
}

/// The digit run is a prefix of `s` made of digits, and the character after
/// it (if any) is not a digit.
pub proof fn lemma_digit_run(s: Seq<char>)
    ensures
        digit_run(s) <= s.len(),
        forall|i: int| 0 <= i < digit_run(s) ==> is_digit(#[trigger] s[i]),
        digit_run(s) < s.len() ==> !is_digit(s[digit_run(s) as int]),
    decreases s.len(),
{
    if s.len() > 0 && is_digit(s[0]) {
        lemma_digit_run(s.skip(1));
        assert forall|i: int| 0 <= i < digit_run(s) implies is_digit(#[trigger] s[i]) by {
            if i > 0 {
                assert(s[i] == s.skip(1)[i - 1]);
            }
        }
    }
}

/// The link that a reply reference `>>id` becomes.
pub open spec fn reply_anchor(id: Seq<char>) -> Seq<char> {
    let open = seq!['<', 'a', ' ', 'h', 'r', 'e', 'f', '=', '"', '#', 'p', 'o', 's', 't'];
    let class = seq![
        '"', ' ', 'c', 'l', 'a', 's', 's', '=', '"', 'r', 'e', 'p', 'l', 'y', '-', 'l', 'i', 'n',
        'k', '"', '>',
    ];
    open + id + class + reply_marker() + id + seq!['<', '/', 'a', '>']
}

/// Escaped line text with every `&gt;&gt;` that is followed by digits
/// turned into a link to the post with that number; the leftmost marker is
/// handled first and the scan goes on after what it consumed.
pub open spec fn link_replies(s: Seq<char>) -> Seq<char>
    decreases s.len(),
{
    if starts_with(s, reply_marker()) {
        let a = s.skip(8);
        let k = digit_run(a);
        proof {
            lemma_digit_run(a);
        }
        if k > 0 {
            reply_anchor(a.take(k as int)) + link_replies(a.skip(k as int))
        } else {
            reply_marker() + link_replies(a)
        }
    } else if s.len() == 0 {
        Seq::empty()
    } else {
        seq![s[0]] + link_replies(s.skip(1))
    }
}

/// An escaped line is a quote when it starts with `&gt;` but is not a reply
/// reference (`&gt;&gt;` followed by a digit).
pub open spec fn is_quote(e: Seq<char>) -> bool {
    starts_with(e, quote_marker()) && !(starts_with(e, reply_marker()) && e.len() > 8 && is_digit(
        e[8],
    ))
}

/// The markup that wraps a quoted line.
pub open spec fn quote_open() -> Seq<char> {
    seq!['<', 's', 'p', 'a', 'n', ' ', 'c', 'l', 'a', 's', 's', '=', '"', 'q', 'u', 'o', 't', 'e', '"', '>']
}

/// The markup that closes a quoted line.
pub open spec fn quote_close() -> Seq<char> {
    seq!['<', '/', 's', 'p', 'a', 'n', '>']
}

/// One line of post text as HTML.
pub open spec fn line_html(line: Seq<char>) -> Seq<char> {
    let e = escape(line);
    if is_quote(e) {
        quote_open() + link_replies(e) + quote_close()
    } else {
        link_replies(e)
    }
}

/// The separator put between rendered lines.
pub open spec fn line_break() -> Seq<char> {
    seq!['<', 'b', 'r', '>', '\n']
}

/// Post text as HTML: the text is split at `\n`, each line rendered with
/// `line_html`, and the lines joined with `<br>\n`.
pub open spec fn text_html(text: Seq<char>) -> Seq<char> {
    join(split_on(text, '\n').map_values(|l: Seq<char>| line_html(l)), line_break())
}

/// A reply reference `>>` followed by a number links the post with that
/// number, whatever the number's length: the whole run of digits becomes the
/// anchor `<a href="#post{number}" class="reply-link">&gt;&gt;{number}</a>`,
/// and the text after the run is linked on its own.
pub proof fn lemma_reply_links_any_number(d: Seq<char>, rest: Seq<char>)
    requires
        d.len() > 0,
        forall|i: int| 0 <= i < d.len() ==> '0' <= #[trigger] d[i] && d[i] <= '9',
        rest.len() > 0 ==> !('0' <= rest[0] && rest[0] <= '9'),
    ensures
        link_replies("&gt;&gt;"@ + d + rest) == "<a href=\"#post"@ + d
            + "\" class=\"reply-link\">&gt;&gt;"@ + d + "</a>"@ + link_replies(rest),
{
    reveal_strlit("&gt;&gt;");
    reveal_strlit("<a href=\"#post");
    reveal_strlit("\" class=\"reply-link\">&gt;&gt;");
    reveal_strlit("</a>");
    let s = "&gt;&gt;"@ + d + rest;
    assert(s.take(8) =~= reply_marker());
    let a = s.skip(8);
    assert(a =~= d + rest);
    assert forall|t: int| 0 <= t < d.len() implies is_digit(#[trigger] a[t]) by {
        assert(a[t] == d[t]);
    }
    if d.len() < a.len() {
        assert(a[d.len() as int] == rest[0]);
    }
    lemma_digit_run_exact(a, d.len());
    assert(a.take(d.len() as int) =~= d);
    assert(a.skip(d.len() as int) =~= rest);
    assert(reply_anchor(d) =~= "<a href=\"#post"@ + d + "\" class=\"reply-link\">&gt;&gt;"@ + d
        + "</a>"@);
}

/// Text without a line break is split into itself alone.
proof fn lemma_split_on_single(s: Seq<char>, c: char)
    requires
        forall|i: int| 0 <= i < s.len() ==> #[trigger] s[i] != c,
    ensures
        split_on(s, c) == seq![s],
    decreases s.len(),
{
    if s.len() == 0 {
        assert(s =~= Seq::<char>::empty());
    } else {
        let t = s.drop_last();
        assert forall|i: int| 0 <= i < t.len() implies #[trigger] t[i] != c by {
            assert(t[i] == s[i]);
        }
        lemma_split_on_single(t, c);
        assert(t.push(s.last()) =~= s);
        assert(seq![t].update(0, t.push(s.last())) =~= seq![s]);
    }
}

/// Digits are left as they are by escaping.
proof fn lemma_escape_digits(d: Seq<char>)
    requires
        forall|i: int| 0 <= i < d.len() ==> '0' <= #[trigger] d[i] && d[i] <= '9',
    ensures
        escape(d) == d,
    decreases d.len(),
{
    if d.len() > 0 {
        let t = d.drop_last();
        assert forall|i: int| 0 <= i < t.len() implies '0' <= #[trigger] t[i] && t[i] <= '9' by {
            assert(t[i] == d[i]);
        }
        lemma_escape_digits(t);
        assert(t + seq![d.last()] =~= d);
    }
}

/// A post text that is a reply reference `>>` with a number of any length
/// renders as exactly the link to that post:
/// `<a href="#post{number}" class="reply-link">&gt;&gt;{number}</a>`.
pub proof fn lemma_reply_text_renders_as_link(d: Seq<char>)
    requires
        d.len() > 0,
        forall|i: int| 0 <= i < d.len() ==> '0' <= #[trigger] d[i] && d[i] <= '9',
    ensures
        text_html(">>"@ + d) == "<a href=\"#post"@ + d + "\" class=\"reply-link\">&gt;&gt;"@ + d
            + "</a>"@,
{
    reveal_strlit(">>");
    reveal_strlit("&gt;&gt;");
    let s = ">>"@ + d;
    assert forall|i: int| 0 <= i < s.len() implies #[trigger] s[i] != '\n' by {
        if i >= 2 {
            assert(s[i] == d[i - 2]);
        }
    }
    lemma_split_on_single(s, '\n');
    let f = |l: Seq<char>| line_html(l);
    assert(seq![s].map_values(f) =~= seq![line_html(s)]);
    lemma_escape_concat(">>"@, d);
    lemma_escape_digits(d);
    reveal_with_fuel(escape, 3);
    assert(">>"@.drop_last() =~= seq!['>']);
    assert(seq!['>'].drop_last() =~= Seq::<char>::empty());
    assert(escape(">>"@) =~= "&gt;&gt;"@);
    let e = escape(s);
    assert(e =~= "&gt;&gt;"@ + d);
    assert(e[8] == d[0]);
    assert(e.take(8) =~= reply_marker());
    assert(!is_quote(e));
    lemma_reply_links_any_number(d, Seq::empty());
    assert("&gt;&gt;"@ + d + Seq::<char>::empty() =~= e);
    assert(link_replies(Seq::<char>::empty()) =~= Seq::<char>::empty());
}

/// Rendering text made of two parts around a line break renders each part
/// and puts `<br>\n` between them.
pub proof fn lemma_text_html_lines(a: Seq<char>, b: Seq<char>)
    ensures
        text_html(a + seq!['\n'] + b) == text_html(a) + line_break() + text_html(b),
{
    let f = |l: Seq<char>| line_html(l);
    lemma_split_on_around(a, b, '\n');
    lemma_split_on_nonempty(a, '\n');
    lemma_split_on_nonempty(b, '\n');
    let x = split_on(a, '\n');
    let y = split_on(b, '\n');
    assert((x + y).map_values(f) =~= x.map_values(f) + y.map_values(f));
    lemma_join_append(x.map_values(f), y.map_values(f), line_break());
}

/// Escaped text holds no `<`, `>` or `"`: nothing in it can open or close
/// markup or an attribute value.
pub proof fn lemma_escape_inert(s: Seq<char>)
    ensures
        forall|i: int|
            0 <= i < escape(s).len() ==> #[trigger] escape(s)[i] != '<' && escape(s)[i] != '>'
                && escape(s)[i] != '"',
    decreases s.len(),
{
    if s.len() > 0 {
        lemma_escape_inert(s.drop_last());
        let e0 = escape(s.drop_last());
        let c = escape_char(s.last());
        assert forall|i: int| 0 <= i < escape(s).len() implies #[trigger] escape(s)[i] != '<'
            && escape(s)[i] != '>' && escape(s)[i] != '"' by {
            if i < e0.len() {
                assert(escape(s)[i] == e0[i]);
            } else {
                assert(escape(s)[i] == c[i - e0.len()]);
            }
        }
    }
}

fn starts_with_marker_at(e: &Vec<char>, i: usize) -> (b: bool)
    requires
        i <= e.len(),
    ensures
        b == starts_with(e@.skip(i as int), reply_marker()),
{
    if e.len() - i < 8 {
        return false;
    }
    let b = e[i] == '&' && e[i + 1] == 'g' && e[i + 2] == 't' && e[i + 3] == ';' && e[i + 4]
        == '&' && e[i + 5] == 'g' && e[i + 6] == 't' && e[i + 7] == ';';
    assert(b <==> e@.skip(i as int).take(8) =~= reply_marker());
    b
}

fn digit_run_at(e: &Vec<char>, j: usize) -> (k: usize)
    requires
        j <= e.len(),
    ensures
        k == digit_run(e@.skip(j as int)),
        j + k <= e.len(),
{
    let mut k: usize = j;
    while k < e.len() && '0' <= e[k] && e[k] <= '9'
        invariant
            j <= k <= e.len(),
            forall|t: int| j <= t < k ==> is_digit(#[trigger] e@[t]),
        decreases e.len() - k,
    {
        k = k + 1;
    }
    proof {
        lemma_digit_run_exact(e@.skip(j as int), (k - j) as nat);
    }
    k - j
}

/// A prefix of digits followed by a non-digit (or the end) is the digit run.
proof fn lemma_digit_run_exact(s: Seq<char>, n: nat)
    requires
        n <= s.len(),
        forall|t: int| 0 <= t < n ==> is_digit(#[trigger] s[t]),
        n < s.len() ==> !is_digit(s[n as int]),
    ensures
        digit_run(s) == n,
    decreases n,
{
    if n > 0 {
        assert forall|t: int| 0 <= t < n - 1 implies is_digit(#[trigger] s.skip(1)[t]) by {
            assert(s.skip(1)[t] == s[t + 1]);
        }
        if n - 1 < s.skip(1).len() {
            assert(s.skip(1)[n - 1] == s[n as int]);
        }
        lemma_digit_run_exact(s.skip(1), (n - 1) as nat);
    }
}

fn extend_range(out: &mut Vec<char>, e: &Vec<char>, from: usize, to: usize)
    requires
        from <= to <= e.len(),
    ensures
        final(out)@ == old(out)@ + e@.subrange(from as int, to as int),
{
    let mut i = from;
    while i < to
        invariant
            from <= i <= to <= e.len(),
            out@ == old(out)@ + e@.subrange(from as int, i as int),
        decreases to - i,
    {
        out.push(e[i]);
        i = i + 1;
        assert(out@ =~= old(out)@ + e@.subrange(from as int, i as int));
    }
}

fn link_replies_chars(e: &Vec<char>) -> (out: Vec<char>)
    ensures
        out@ == link_replies(e@),
{
    let mut out: Vec<char> = Vec::new();
    let mut i: usize = 0;
    assert(e@.skip(0) == e@);
    while i < e.len()
        invariant
            i <= e.len(),
            out@ + link_replies(e@.skip(i as int)) == link_replies(e@),
        decreases e.len() - i,
    {
        let ghost s = e@.skip(i as int);
        if starts_with_marker_at(e, i) {
            let j = i + 8;
            let k = digit_run_at(e, j);
            let ghost a = s.skip(8);
            assert(a == e@.skip(j as int));
            if k > 0 {
                let ghost o0 = out@;
                extend_str(&mut out, "<a href=\"#post");
                extend_range(&mut out, e, j, j + k);
                extend_str(&mut out, "\" class=\"reply-link\">&gt;&gt;");
                extend_range(&mut out, e, j, j + k);
                extend_str(&mut out, "</a>");
                proof {
                    reveal_strlit("<a href=\"#post");
                    reveal_strlit("\" class=\"reply-link\">&gt;&gt;");
                    reveal_strlit("</a>");
                    assert(a.take(k as int) == e@.subrange(j as int, (j + k) as int));
                    assert(a.skip(k as int) == e@.skip((j + k) as int));
                    assert(out@ =~= o0 + reply_anchor(a.take(k as int)));
                }
                i = j + k;
            } else {
                let ghost o0 = out@;
                extend_str(&mut out, "&gt;&gt;");
                proof {
                    reveal_strlit("&gt;&gt;");
                    assert(out@ =~= o0 + reply_marker());
                }
                i = j;
            }
        } else {
            out.push(e[i]);
            assert(s.skip(1) == e@.skip(i + 1));
            i = i + 1;
        }
    }
    assert(e@.skip(e.len() as int) =~= Seq::<char>::empty());
    out
}

fn is_quote_chars(e: &Vec<char>) -> (b: bool)
    ensures
        b == is_quote(e@),
{
    let gt = e.len() >= 4 && e[0] == '&' && e[1] == 'g' && e[2] == 't' && e[3] == ';';
    assert(gt <==> starts_with(e@, quote_marker())) by {
        if e.len() >= 4 {
            assert(gt <==> e@.take(4) =~= quote_marker());
        }
    }
    let reply = starts_with_marker_at(e, 0) && e.len() > 8 && '0' <= e[8] && e[8] <= '9';
    assert(e@.skip(0) == e@);
    gt && !reply
}

fn line_html_chars(line: &Vec<char>) -> (out: Vec<char>)
    ensures
        out@ == line_html(line@),
{
    let e = escape_chars(line);
    let linked = link_replies_chars(&e);
    if is_quote_chars(&e) {
        let mut out: Vec<char> = Vec::new();
        extend_str(&mut out, "<span class=\"quote\">");
        extend_chars(&mut out, &linked);
        extend_str(&mut out, "</span>");
        proof {
            reveal_strlit("<span class=\"quote\">");
            reveal_strlit("</span>");
            assert(out@ =~= quote_open() + linked@ + quote_close());
        }
        out
    } else {
        linked
    }
}

/// Converts plain post text to HTML: `>>id` becomes a reply link, a line
/// that starts with `>` (but is not a reply reference) becomes a quote span,
/// and line breaks become `<br>`.
pub fn render_text_to_html(text: &str) -> (html: String)
    ensures
        html@ == text_html(text@),
{
    let cs = chars_of(text);
    let lines = split_chars(&cs, '\n');
    let mut rendered: Vec<Vec<char>> = Vec::new();
    let mut i: usize = 0;
    while i < lines.len()
        invariant
            i <= lines.len(),
            views(lines@) == split_on(text@, '\n'),
            views(rendered@) == views(lines@).take(i as int).map_values(
                |l: Seq<char>| line_html(l),
            ),
        decreases lines.len() - i,
    {
        let r = line_html_chars(&lines[i]);
        let ghost before = views(rendered@);
        let ghost rv = r@;
        rendered.push(r);
        assert(views(rendered@) =~= before.push(rv));
        i = i + 1;
        assert(views(rendered@) =~= views(lines@).take(i as int).map_values(
            |l: Seq<char>| line_html(l),
        ));
    }
    assert(views(lines@).take(lines.len() as int) == views(lines@));
    let mut sep: Vec<char> = Vec::new();
    extend_str(&mut sep, "<br>\n");
    proof {
        reveal_strlit("<br>\n");
        assert(sep@ =~= line_break());
    }
    let out = join_chars(&rendered, &sep);
    string_of(&out)
}

/// The link target of a file: the local copy under `files/` when files are
/// downloaded and the file has a URL, the remote URL otherwise.
pub open spec fn file_href(f: File, download_files: bool) -> Seq<char> {
    if download_files && f.url@.len() > 0 {
        "files/"@ + last_piece(f.url@, '/')
    } else {
        f.url@
    }
}

/// The image source of a file: the local thumbnail under `thumb/` when
/// thumbnails are downloaded and the file has one, the remote one otherwise.
pub open spec fn file_img_src(f: File, download_thumbnails: bool) -> Seq<char> {
    if download_thumbnails && f.url_thumb@.len() > 0 {
        "thumb/"@ + last_piece(f.url_thumb@, '/')
    } else {
        f.url_thumb@
    }
}

/// The thumbnail link of one attached file.
pub open spec fn image_link_html(f: File, download_files: bool, download_thumbnails: bool) -> Seq<
    char,
> {
    "    <div class=\"post-image\">\n      <a href=\""@ + escape(file_href(f, download_files))
        + "\" target=\"_blank\" title=\""@ + escape(f.name_orig@)
        + "\">\n        <img src=\""@ + escape(file_img_src(f, download_thumbnails))
        + "\" alt=\"\" loading=\"lazy\">\n      </a>\n"@
}

/// The caption of one attached file: its name and links to the original
/// and the thumbnail.
pub open spec fn image_info_html(f: File) -> Seq<char> {
    "      <div class=\"post-image-info\">"@ + escape(f.name_orig@) + " (<a href=\""@ + escape(
        f.url@,
    ) + "\" target=\"_blank\" class=\"post-image-link\">o</a>, <a href=\""@ + escape(f.url_thumb@)
        + "\" target=\"_blank\" class=\"post-image-link\">t</a>)</div>\n    </div>\n"@
}

/// The HTML of one attached file.
pub open spec fn image_html(f: File, download_files: bool, download_thumbnails: bool) -> Seq<
    char,
> {
    image_link_html(f, download_files, download_thumbnails) + image_info_html(f)
}

/// The HTML of the files, one after the other.
pub open spec fn images_body(files: Seq<File>, download_files: bool, download_thumbnails: bool) -> Seq<
    char,
>
    decreases files.len(),
{
    if files.len() == 0 {
        Seq::empty()
    } else {
        images_body(files.drop_last(), download_files, download_thumbnails) + image_html(
            files.last(),
            download_files,
            download_thumbnails,
        )
    }
}

/// The image block of a post: nothing when it has no files, else the files
/// inside a `post-images` block.
pub open spec fn images_html(files: Seq<File>, download_files: bool, download_thumbnails: bool) -> Seq<
    char,
> {
    if files.len() == 0 {
        Seq::empty()
    } else {
        "  <div class=\"post-images\">\n"@ + images_body(files, download_files, download_thumbnails)
            + "  </div>\n"@
    }
}

/// The name shown for a poster without one.
pub open spec fn anonymous() -> Seq<char> {
    "Аноним"@
}

/// The poster line: the name (or the anonymous name), preceded by the mail
/// field in brackets when there is one.
pub open spec fn name_display(p: Post) -> Seq<char> {
    let name = match p.name {
        Some(n) => n@,
        None => anonymous(),
    };
    match p.mailto {
        Some(m) => "["@ + m@ + "] "@ + name,
        None => name,
    }
}

/// The poster line shows the poster's own name when there is one, and
/// "Аноним" otherwise, after the mail field in brackets when there is one.
pub proof fn lemma_name_shown(p: Post)
    ensures
        match (p.name, p.mailto) {
            (Some(n), Some(m)) => name_display(p) == "["@ + m@ + "] "@ + n@,
            (Some(n), None) => name_display(p) == n@,
            (None, Some(m)) => name_display(p) == "["@ + m@ + "] Аноним"@,
            (None, None) => name_display(p) == "Аноним"@,
        },
{
    reveal_strlit("] ");
    reveal_strlit("Аноним");
    reveal_strlit("] Аноним");
    assert("] "@ + "Аноним"@ =~= "] Аноним"@);
    if p.name is None && p.mailto is Some {
        let m = p.mailto->Some_0;
        assert("["@ + m@ + "] "@ + "Аноним"@ =~= "["@ + m@ + "] Аноним"@);
    }
}

/// The head of a post: subject (when present), name, time, number and id.
pub open spec fn head_html(p: Post) -> Seq<char> {
    let id = decimal(p.id as nat);
    "  <div class=\"post-head\">\n"@ + match p.subject {
        Some(s) => "    <span class=\"post-subject\">"@ + escape(s@) + "</span>\n"@,
        None => Seq::empty(),
    } + "    <span class=\"post-name\">"@ + escape(name_display(p)) + "</span>\n"@
        + "    <span class=\"post-time\">"@ + escape(p.time@) + "</span>\n"@
        + "    <span class=\"post-num\">"@ + escape(p.num@) + "</span>\n"@
        + "    <span class=\"post-id\"><a href=\"#post"@ + id + "\">№"@ + id
        + "</a></span>\n"@ + "  </div>\n"@
}

/// The body of a post: its text as HTML, when it has any.
pub open spec fn body_html(p: Post) -> Seq<char> {
    "  <div class=\"post-body\">\n"@ + if p.text@.len() > 0 {
        "    "@ + text_html(p.text@) + "\n"@
    } else {
        Seq::empty()
    } + "  </div>\n"@
}

/// A whole post as an HTML fragment.
pub open spec fn post_html(p: Post, download_files: bool, download_thumbnails: bool) -> Seq<char> {
    "<div class=\"post\" id=\"post"@ + decimal(p.id as nat) + "\">\n"@ + head_html(p)
        + images_html(p.files@, download_files, download_thumbnails) + body_html(p) + "</div>\n"@
}

fn local_or_remote(url: &Vec<char>, local: bool, dir: &str) -> (v: Vec<char>)
    ensures
        v@ == if local && url@.len() > 0 {
            dir@ + last_piece(url@, '/')
        } else {
            url@
        },
{
    let mut v: Vec<char> = Vec::new();
    if local && url.len() > 0 {
        extend_str(&mut v, dir);
        let last = last_piece_chars(url, '/');
        extend_chars(&mut v, &last);
    } else {
        extend_chars(&mut v, url);
    }
    v
}

fn image_link_chars(out: &mut Vec<char>, f: &File, download_files: bool, download_thumbnails: bool)
    ensures
        final(out)@ == old(out)@ + image_link_html(*f, download_files, download_thumbnails),
{
    let href = local_or_remote(&chars_of(f.url.as_str()), download_files, "files/");
    let src = local_or_remote(&chars_of(f.url_thumb.as_str()), download_thumbnails, "thumb/");
    let e_href = escape_chars(&href);
    let e_name = escape_chars(&chars_of(f.name_orig.as_str()));
    let e_src = escape_chars(&src);
    let ghost o0 = out@;
    extend_str(out, "    <div class=\"post-image\">\n      <a href=\"");
    extend_chars(out, &e_href);
    extend_str(out, "\" target=\"_blank\" title=\"");
    extend_chars(out, &e_name);
    extend_str(out, "\">\n        <img src=\"");
    extend_chars(out, &e_src);
    extend_str(out, "\" alt=\"\" loading=\"lazy\">\n      </a>\n");
    assert(out@ =~= o0 + image_link_html(*f, download_files, download_thumbnails));
}

fn image_info_chars(out: &mut Vec<char>, f: &File)
    ensures
        final(out)@ == old(out)@ + image_info_html(*f),
{
    let e_name = escape_chars(&chars_of(f.name_orig.as_str()));
    let e_url = escape_chars(&chars_of(f.url.as_str()));
    let e_thumb = escape_chars(&chars_of(f.url_thumb.as_str()));
    let ghost o0 = out@;
    extend_str(out, "      <div class=\"post-image-info\">");
    extend_chars(out, &e_name);
    extend_str(out, " (<a href=\"");
    extend_chars(out, &e_url);
    extend_str(out, "\" target=\"_blank\" class=\"post-image-link\">o</a>, <a href=\"");
    extend_chars(out, &e_thumb);
    extend_str(out, "\" target=\"_blank\" class=\"post-image-link\">t</a>)</div>\n    </div>\n");
    assert(out@ =~= o0 + image_info_html(*f));
}

fn image_html_chars(out: &mut Vec<char>, f: &File, download_files: bool, download_thumbnails: bool)
    ensures
        final(out)@ == old(out)@ + image_html(*f, download_files, download_thumbnails),
{
    image_link_chars(out, f, download_files, download_thumbnails);
    image_info_chars(out, f);
}

fn render_images_chars(
    out: &mut Vec<char>,
    files: &Vec<File>,
    download_files: bool,
    download_thumbnails: bool,
)
    ensures
        final(out)@ == old(out)@ + images_html(files@, download_files, download_thumbnails),
{
    if files.len() == 0 {
        assert(old(out)@ + images_html(files@, download_files, download_thumbnails) =~= old(out)@);
        return ;
    }
    let ghost o0 = out@;
    extend_str(out, "  <div class=\"post-images\">\n");
    let ghost o1 = out@;
    let mut i: usize = 0;
    while i < files.len()
        invariant
            i <= files.len(),
            out@ == o1 + images_body(files@.take(i as int), download_files, download_thumbnails),
        decreases files.len() - i,
    {
        assert(files@.take(i + 1).drop_last() == files@.take(i as int));
        image_html_chars(out, &files[i], download_files, download_thumbnails);
        i = i + 1;
        assert(out@ =~= o1 + images_body(files@.take(i as int), download_files, download_thumbnails));
    }
    assert(files@.take(files.len() as int) == files@);
    extend_str(out, "  </div>\n");
    assert(out@ =~= o0 + images_html(files@, download_files, download_thumbnails));
}

/// Renders the files of a post: an empty string when there are none, else
/// one block per file linking the local copies or the remote URLs.
pub fn render_images(files: &Vec<File>, download_files: bool, download_thumbnails: bool) -> (html:
    String)
    ensures
        html@ == images_html(files@, download_files, download_thumbnails),
{
    let mut out: Vec<char> = Vec::new();
    render_images_chars(&mut out, files, download_files, download_thumbnails);
    assert(out@ =~= images_html(files@, download_files, download_thumbnails));
    string_of(&out)
}

fn opt_chars(s: &Option<String>) -> (v: Option<Vec<char>>)
    ensures
        match *s {
            Some(x) => v is Some && v->0@ == x@,
            None => v is None,
        },
{
    match s {
        Some(x) => Some(chars_of(x.as_str())),
        None => None,
    }
}

fn name_display_chars(p: &Post) -> (v: Vec<char>)
    ensures
        v@ == name_display(*p),
{
    let mut name: Vec<char> = Vec::new();
    match &p.name {
        Some(n) => extend_str(&mut name, n.as_str()),
        None => extend_str(&mut name, "Аноним"),
    }
    let mut v: Vec<char> = Vec::new();
    match &p.mailto {
        Some(m) => {
            extend_str(&mut v, "[");
            extend_str(&mut v, m.as_str());
            extend_str(&mut v, "] ");
            extend_chars(&mut v, &name);
        },
        None => extend_chars(&mut v, &name),
    }
    assert(v@ =~= name_display(*p));
    v
}

#[verifier::rlimit(60)]
/// Renders a single post to an HTML fragment: the head (subject, name with
/// mail field, time, number, id link), the attached files and the text.
pub fn render_post(post: &Post, download_files: bool, download_thumbnails: bool) -> (html: String)
    ensures
        html@ == post_html(*post, download_files, download_thumbnails),
{
    let id = decimal_chars(post.id as u64);
    let mut out: Vec<char> = Vec::new();
    extend_str(&mut out, "<div class=\"post\" id=\"post");
    extend_chars(&mut out, &id);
    extend_str(&mut out, "\">\n");
    let ghost o1 = out@;
    extend_str(&mut out, "  <div class=\"post-head\">\n");
    match &post.subject {
        Some(s) => {
            extend_str(&mut out, "    <span class=\"post-subject\">");
            let sc = chars_of(s.as_str());
            extend_chars(&mut out, &escape_chars(&sc));
            extend_str(&mut out, "</span>\n");
        },
        None => {},
    }
    extend_str(&mut out, "    <span class=\"post-name\">");
    extend_chars(&mut out, &escape_chars(&name_display_chars(post)));
    extend_str(&mut out, "</span>\n");
    extend_str(&mut out, "    <span class=\"post-time\">");
    extend_chars(&mut out, &escape_chars(&chars_of(post.time.as_str())));
    extend_str(&mut out, "</span>\n");
    extend_str(&mut out, "    <span class=\"post-num\">");
    extend_chars(&mut out, &escape_chars(&chars_of(post.num.as_str())));
    extend_str(&mut out, "</span>\n");
    extend_str(&mut out, "    <span class=\"post-id\"><a href=\"#post");
    extend_chars(&mut out, &id);
    extend_str(&mut out, "\">№");
    extend_chars(&mut out, &id);
    extend_str(&mut out, "</a></span>\n");
    extend_str(&mut out, "  </div>\n");
    assert(out@ =~= o1 + head_html(*post));
    let ghost o2 = out@;
    render_images_chars(&mut out, &post.files, download_files, download_thumbnails);
    let ghost o3 = out@;
    extend_str(&mut out, "  <div class=\"post-body\">\n");
    let text = chars_of(post.text.as_str());
    if text.len() > 0 {
        extend_str(&mut out, "    ");
        let th = render_text_to_html(post.text.as_str());
        extend_str(&mut out, th.as_str());
        extend_str(&mut out, "\n");
    }
    extend_str(&mut out, "  </div>\n");
    assert(out@ =~= o3 + body_html(*post));
    extend_str(&mut out, "</div>\n");
    assert(out@ =~= post_html(*post, download_files, download_thumbnails));
    string_of(&out)
}

/// The page that rendered posts are put into, at the `{{posts}}` marker.
pub const TEMPLATE: &'static str = "<!DOCTYPE html>
<html>
<head>
<meta charset=\"utf-8\">
<meta name=\"viewport\" content=\"width=device-width, initial-scale=1\">
<style>
body { font-family: sans-serif; background: #eef2ff; color: #111; margin: 1em; }
.post { background: #d6daf0; border: 1px solid #b7c5d9; margin: 0.5em 0; padding: 0.5em; }
.post-head span { margin-right: 0.5em; }
.post-subject { color: #0f0c5d; font-weight: bold; }
.post-name { color: #117743; font-weight: bold; }
.post-images { display: flex; flex-wrap: wrap; gap: 0.5em; }
.post-image img { max-width: 200px; max-height: 200px; }
.quote { color: #789922; }
.reply-link { color: #d00; }
</style>
</head>
<body>
{{posts}}
</body>
</html>
";

/// The marker in the template that the posts replace.
pub open spec fn posts_marker() -> Seq<char> {
    seq!['{', '{', 'p', 'o', 's', 't', 's', '}', '}']
}

/// The rendered posts, one after the other, separated by a line break.
pub open spec fn posts_html(posts: Seq<Post>, download_files: bool, download_thumbnails: bool) -> Seq<
    char,
> {
    join(
        posts.map_values(|p: Post| post_html(p, download_files, download_thumbnails)),
        seq!['\n'],
    )
}

/// A page of posts: the template with the rendered posts at the marker.
pub open spec fn page_html(posts: Seq<Post>, download_files: bool, download_thumbnails: bool) -> Seq<
    char,
> {
    replace(TEMPLATE@, posts_marker(), posts_html(posts, download_files, download_thumbnails))
}

/// Puts already rendered HTML into the template.
pub fn fill_template(body: &Vec<char>) -> (page: String)
    ensures
        page@ == replace(TEMPLATE@, posts_marker(), body@),
{
    let t = chars_of(TEMPLATE);
    let mut marker: Vec<char> = Vec::new();
    extend_str(&mut marker, "{{posts}}");
    proof {
        reveal_strlit("{{posts}}");
        assert(marker@ =~= posts_marker());
    }
    let out = replace_chars(&t, &marker, body);
    string_of(&out)
}

/// Renders the posts, separated by line breaks.
pub fn render_posts(posts: &[Post], download_files: bool, download_thumbnails: bool) -> (html:
    Vec<char>)
    ensures
        html@ == posts_html(posts@, download_files, download_thumbnails),
{
    let mut rendered: Vec<Vec<char>> = Vec::new();
    let mut i: usize = 0;
    while i < posts.len()
        invariant
            i <= posts.len(),
            views(rendered@) == posts@.take(i as int).map_values(
                |p: Post| post_html(p, download_files, download_thumbnails),
            ),
        decreases posts.len() - i,
    {
        let h = render_post(&posts[i], download_files, download_thumbnails);
        let hc = chars_of(h.as_str());
        let ghost before = views(rendered@);
        let ghost hv = hc@;
        rendered.push(hc);
        assert(views(rendered@) =~= before.push(hv));
        i = i + 1;
        assert(views(rendered@) =~= posts@.take(i as int).map_values(
            |p: Post| post_html(p, download_files, download_thumbnails),
        ));
    }
    assert(posts@.take(posts.len() as int) == posts@);
    let mut sep: Vec<char> = Vec::new();
    sep.push('\n');
    assert(sep@ =~= seq!['\n']);
    join_chars(&rendered, &sep)
}

/// The page of a thread: every post rendered, in order, put into the
/// template.
pub fn render_page(posts: &[Post], download_files: bool, download_thumbnails: bool) -> (page: String)
    ensures
        page@ == page_html(posts@, download_files, download_thumbnails),
{
    let body = render_posts(posts, download_files, download_thumbnails);
    fill_template(&body)
}

} // verus!
