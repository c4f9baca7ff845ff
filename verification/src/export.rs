//! Export of scraped threads to static HTML: the page of each thread, the
//! assets it links, and the index page that lists the threads.

use vstd::prelude::*;
use crate::config::Config;
use crate::error::Error;
use crate::events::Reporter;
use crate::post::Post;
use crate::render::{post_html, render_post, TEMPLATE, posts_marker, fill_template, page_html, render_page};
use crate::text::{
    chars_of, decimal, digit_char, decimal_chars, extend_chars, extend_str, join, join_chars, replace,
    replace_chars, string_of, views,
};

verus! {

/// An export format for scraped threads.
pub trait Export {
    /// Exports the posts of one thread, reporting progress.
    fn export(&self, posts: &[Post], config: &Config, reporter: &dyn Reporter) -> Result<(), Error>;
}

/// A post of the index page links its thread folder, and its local files
/// and thumbnails are looked up inside that folder.
pub open spec fn index_entry(p: Post, files: bool, thumb: bool) -> Seq<char> {
    let id = decimal(p.id as nat);
    let h0 = post_html(p, files, thumb);
    let h1 = if files {
        replace(h0, "<a href=\"files/"@, "<a href=\""@ + id + "/files/"@)
    } else {
        h0
    };
    let h2 = if thumb {
        replace(h1, "<img src=\"thumb/"@, "<img src=\""@ + id + "/thumb/"@)
    } else {
        h1
    };
    "<div><a href=\""@ + id + "/index.html\">В тред &rarr;</a></div>"@ + h2 + "\n"@
}

/// `pat` occurs nowhere in `s`.
pub open spec fn free_of(s: Seq<char>, pat: Seq<char>) -> bool {
    forall|i: int|
        0 <= i && i + pat.len() <= s.len() ==> #[trigger] s.subrange(i, i + pat.len()) != pat
}

/// `p` occurs in `t` at position `q`.
spec fn occurs_at(t: Seq<char>, q: int, p: Seq<char>) -> bool {
    0 <= q && q + p.len() <= t.len() && t.subrange(q, q + p.len()) == p
}

/// The decimal form of a number is made of digits, at least one.
proof fn lemma_decimal_digits(n: nat)
    ensures
        decimal(n).len() >= 1,
        forall|i: int| 0 <= i < decimal(n).len() ==> '0' <= #[trigger] decimal(n)[i] && decimal(n)[i] <= '9',
    decreases n,
{
    if n >= 10 {
        lemma_decimal_digits(n / 10);
        let d = (n % 10) as nat;
        assert('0' <= digit_char(d) && digit_char(d) <= '9') by {
            assert(0 <= d < 10);
        }
    } else {
        assert('0' <= digit_char(n) && digit_char(n) <= '9');
    }
}

/// Replacing copies the text before the first occurrence of the pattern.
proof fn lemma_replace_copies(t: Seq<char>, p: Seq<char>, r: Seq<char>, m: int)
    requires
        p.len() > 0,
        0 <= m <= t.len(),
        forall|q: int| 0 <= q < m ==> !#[trigger] occurs_at(t, q, p),
    ensures
        replace(t, p, r) == t.take(m) + replace(t.skip(m), p, r),
    decreases m,
{
    if m == 0 {
        assert(t.skip(0) =~= t);
        assert(t.take(0) + replace(t, p, r) =~= replace(t, p, r));
    } else {
        assert(!occurs_at(t, 0, p));
        assert(t.subrange(0, p.len() as int) =~= t.take(p.len() as int));
        let u = t.skip(1);
        assert forall|q: int| 0 <= q < m - 1 implies !#[trigger] occurs_at(u, q, p) by {
            assert(!occurs_at(t, q + 1, p));
            if q + p.len() <= u.len() {
                assert(u.subrange(q, q + p.len()) =~= t.subrange(q + 1, q + 1 + p.len()));
            }
        }
        lemma_replace_copies(u, p, r, m - 1);
        assert(u.skip(m - 1) =~= t.skip(m));
        assert(seq![t[0]] + u.take(m - 1) =~= t.take(m));
    }
}

/// The first occurrence of `p` in `t` at or after `q0` and before `n`, or `n`.
proof fn lemma_first_occurrence(t: Seq<char>, p: Seq<char>, q0: int, n: int) -> (m: int)
    requires
        0 <= q0 <= n,
        forall|q: int| 0 <= q < q0 ==> !#[trigger] occurs_at(t, q, p),
    ensures
        q0 <= m <= n,
        forall|q: int| 0 <= q < m ==> !#[trigger] occurs_at(t, q, p),
        m < n ==> occurs_at(t, m, p),
    decreases n - q0,
{
    if q0 == n || occurs_at(t, q0, p) {
        q0
    } else {
        lemma_first_occurrence(t, p, q0 + 1, n)
    }
}

/// Replacing `p` by `r` leaves a text free of `pat` (or frees it, when `p`
/// is `pat`), when `r` begins like `pat` but differs from it at `j`, and the
/// first character of `pat` occurs nowhere else in `pat` or `r`.
proof fn lemma_replace_free(s: Seq<char>, pat: Seq<char>, p: Seq<char>, r: Seq<char>, j: int)
    requires
        pat.len() > 0,
        p.len() > 0,
        forall|k: int| 1 <= k < pat.len() ==> #[trigger] pat[k] != pat[0],
        r.len() > 0,
        r[0] == pat[0],
        forall|k: int| 1 <= k < r.len() ==> #[trigger] r[k] != pat[0],
        0 <= j < r.len(),
        j < pat.len(),
        r[j] != pat[j],
        p == pat || free_of(s, pat),
    ensures
        free_of(replace(s, p, r), pat),
    decreases s.len(),
{
    let l = pat.len() as int;
    let out = replace(s, p, r);
    if p.len() <= s.len() && s.take(p.len() as int) == p {
        let rest = s.skip(p.len() as int);
        if p != pat {
            assert forall|i: int| 0 <= i && i + l <= rest.len() implies #[trigger] rest.subrange(i, i + l) != pat by {
                assert(rest.subrange(i, i + l) =~= s.subrange(i + p.len(), i + p.len() + l));
            }
        }
        lemma_replace_free(rest, pat, p, r, j);
        let o2 = replace(rest, p, r);
        assert(out == r + o2);
        assert forall|i: int| 0 <= i && i + l <= out.len() implies #[trigger] out.subrange(i, i + l) != pat by {
            let w = out.subrange(i, i + l);
            if i == 0 {
                assert(w[j] == r[j]);
            } else if i < r.len() {
                assert(w[0] == r[i]);
            } else {
                assert(w =~= o2.subrange(i - r.len(), i - r.len() + l));
            }
        }
    } else if s.len() == 0 {
    } else {
        let t = s.skip(1);
        if p != pat {
            assert forall|i: int| 0 <= i && i + l <= t.len() implies #[trigger] t.subrange(i, i + l) != pat by {
                assert(t.subrange(i, i + l) =~= s.subrange(i + 1, i + 1 + l));
            }
        }
        lemma_replace_free(t, pat, p, r, j);
        let o2 = replace(t, p, r);
        assert(out == seq![s[0]] + o2);
        assert forall|i: int| 0 <= i && i + l <= out.len() implies #[trigger] out.subrange(i, i + l) != pat by {
            let w = out.subrange(i, i + l);
            if i > 0 {
                assert(w =~= o2.subrange(i - 1, i - 1 + l));
            } else if w == pat {
                let n = if l - 1 <= t.len() { l - 1 } else { t.len() as int };
                let m = lemma_first_occurrence(t, p, 0, n);
                lemma_replace_copies(t, p, r, m);
                let tail = t.skip(m);
                if m < n {
                    assert(tail.take(p.len() as int) =~= t.subrange(m, m + p.len()));
                    assert(replace(tail, p, r) == r + replace(tail.skip(p.len() as int), p, r));
                    assert(o2[m] == r[0]);
                    assert(w[m + 1] == o2[m]);
                    assert(pat[m + 1] != pat[0]);
                } else if n == l - 1 {
                    assert forall|k: int| 0 <= k < l implies s.subrange(0, l)[k] == pat[k] by {
                        if k > 0 {
                            assert(o2[k - 1] == t[k - 1]);
                            assert(w[k] == o2[k - 1]);
                        }
                    }
                    assert(s.subrange(0, l) =~= pat);
                    if p == pat {
                        assert(s.take(l) =~= s.subrange(0, l));
                    }
                } else {
                    assert(tail.len() == 0);
                    assert(replace(tail, p, r) =~= Seq::<char>::empty());
                    assert(o2 =~= t.take(m));
                }
            }
        }
    }
}

/// Putting `y` after `x` makes no new occurrence of `pat` when the last
/// character of `x` is not in `pat`.
proof fn lemma_free_after(x: Seq<char>, y: Seq<char>, pat: Seq<char>)
    requires
        x.len() > 0,
        free_of(x, pat),
        free_of(y, pat),
        forall|k: int| 0 <= k < pat.len() ==> #[trigger] pat[k] != x.last(),
    ensures
        free_of(x + y, pat),
{
    let l = pat.len() as int;
    let s = x + y;
    assert forall|i: int| 0 <= i && i + l <= s.len() implies #[trigger] s.subrange(i, i + l) != pat by {
        let w = s.subrange(i, i + l);
        if i + l <= x.len() {
            assert(w =~= x.subrange(i, i + l));
        } else if i >= x.len() {
            assert(w =~= y.subrange(i - x.len(), i - x.len() + l));
        } else {
            assert(w[x.len() - 1 - i] == x.last());
        }
    }
}

/// Putting `y` after `x` makes no new occurrence of `pat` when the first
/// character of `y` is not in `pat`.
proof fn lemma_free_before(x: Seq<char>, y: Seq<char>, pat: Seq<char>)
    requires
        y.len() > 0,
        free_of(x, pat),
        free_of(y, pat),
        forall|k: int| 0 <= k < pat.len() ==> #[trigger] pat[k] != y[0],
    ensures
        free_of(x + y, pat),
{
    let l = pat.len() as int;
    let s = x + y;
    assert forall|i: int| 0 <= i && i + l <= s.len() implies #[trigger] s.subrange(i, i + l) != pat by {
        let w = s.subrange(i, i + l);
        if i + l <= x.len() {
            assert(w =~= x.subrange(i, i + l));
        } else if i >= x.len() {
            assert(w =~= y.subrange(i - x.len(), i - x.len() + l));
        } else {
            assert(w[x.len() - i] == y[0]);
        }
    }
}

/// A text in which the first character of `pat` can only begin windows too
/// short to hold `pat` is free of it.
proof fn lemma_free_by_lead(x: Seq<char>, pat: Seq<char>, from: int)
    requires
        pat.len() > 0,
        0 <= from,
        forall|i: int| from <= i && i + pat.len() <= x.len() ==> #[trigger] x[i] != pat[0],
        forall|i: int| 0 <= i < from && i + pat.len() <= x.len() ==> #[trigger] x.subrange(i, i + pat.len()) != pat,
    ensures
        free_of(x, pat),
{
    assert forall|i: int| 0 <= i && i + pat.len() <= x.len() implies #[trigger] x.subrange(i, i + pat.len()) != pat by {
        if i >= from {
            assert(x.subrange(i, i + pat.len())[0] == x[i]);
        }
    }
}

/// With files downloaded, no link of an index entry points at `files/…`
/// next to the index page: every such link of the post's HTML is led into
/// the thread's folder (`{id}/files/…`), so `<a href="files/` occurs nowhere
/// in the entry, whatever the post and whether thumbnails are downloaded.
pub proof fn lemma_index_entry_links_into_thread(p: Post, thumb: bool)
    ensures
        free_of(index_entry(p, true, thumb), "<a href=\"files/"@),
{
    let pat = "<a href=\"files/"@;
    reveal_strlit("<a href=\"files/");
    reveal_strlit("<a href=\"");
    reveal_strlit("/files/");
    reveal_strlit("<img src=\"thumb/");
    reveal_strlit("<img src=\"");
    reveal_strlit("/thumb/");
    reveal_strlit("<div><a href=\"");
    reveal_strlit("/index.html\">В тред &rarr;</a></div>");
    reveal_strlit("\n");
    let id = decimal(p.id as nat);
    lemma_decimal_digits(p.id as nat);
    let h0 = post_html(p, true, thumb);
    let r1 = "<a href=\""@ + id + "/files/"@;
    assert(r1[9] == id[0]);
    assert forall|k: int| 1 <= k < r1.len() implies #[trigger] r1[k] != pat[0] by {
        if 9 <= k < 9 + id.len() {
            assert(r1[k] == id[k - 9]);
        }
    }
    lemma_replace_free(h0, pat, pat, r1, 9);
    let h1 = replace(h0, pat, r1);
    let h2 = if thumb {
        let r2 = "<img src=\""@ + id + "/thumb/"@;
        assert forall|k: int| 1 <= k < r2.len() implies #[trigger] r2[k] != pat[0] by {
            if 10 <= k < 10 + id.len() {
                assert(r2[k] == id[k - 10]);
            }
        }
        lemma_replace_free(h1, pat, "<img src=\"thumb/"@, r2, 1);
        replace(h1, "<img src=\"thumb/"@, r2)
    } else {
        h1
    };
    let head = "<div><a href=\""@ + id + "/index.html\">В тред &rarr;</a></div>"@;
    assert(head[14] == id[0]);
    assert forall|i: int| 6 <= i && i + pat.len() <= head.len() implies #[trigger] head[i] != pat[0] by {
        if 14 <= i < 14 + id.len() {
            assert(head[i] == id[i - 14]);
        }
    }
    assert forall|i: int| 0 <= i < 6 && i + pat.len() <= head.len() implies #[trigger] head.subrange(i, i + pat.len()) != pat by {
        let w = head.subrange(i, i + pat.len());
        if i == 5 {
            assert(w[9] == head[14]);
        } else if i == 0 {
            assert(w[1] == head[1]);
        } else {
            assert(w[0] == head[i]);
        }
    }
    lemma_free_by_lead(head, pat, 6);
    lemma_free_after(head, h2, pat);
    assert(free_of("\n"@, pat));
    lemma_free_before(head + h2, "\n"@, pat);
    assert(index_entry(p, true, thumb) == head + h2 + "\n"@);
}

/// The index page of the threads: one entry per first post, separated by
/// line breaks, in the template.
pub open spec fn index_html(first_posts: Seq<Post>, files: bool, thumb: bool) -> Seq<char> {
    replace(
        TEMPLATE@,
        posts_marker(),
        join(first_posts.map_values(|p: Post| index_entry(p, files, thumb)), seq!['\n']),
    )
}

fn index_entry_chars(p: &Post, files: bool, thumb: bool) -> (out: Vec<char>)
    ensures
        out@ == index_entry(*p, files, thumb),
{
    let id = decimal_chars(p.id as u64);
    let h0 = chars_of(render_post(p, files, thumb).as_str());
    let h1 = if files {
        let mut pat: Vec<char> = Vec::new();
        extend_str(&mut pat, "<a href=\"files/");
        let mut rep: Vec<char> = Vec::new();
        extend_str(&mut rep, "<a href=\"");
        extend_chars(&mut rep, &id);
        extend_str(&mut rep, "/files/");
        proof {
            reveal_strlit("<a href=\"files/");
        }
        replace_chars(&h0, &pat, &rep)
    } else {
        h0
    };
    let h2 = if thumb {
        let mut pat: Vec<char> = Vec::new();
        extend_str(&mut pat, "<img src=\"thumb/");
        let mut rep: Vec<char> = Vec::new();
        extend_str(&mut rep, "<img src=\"");
        extend_chars(&mut rep, &id);
        extend_str(&mut rep, "/thumb/");
        proof {
            reveal_strlit("<img src=\"thumb/");
        }
        replace_chars(&h1, &pat, &rep)
    } else {
        h1
    };
    let mut out: Vec<char> = Vec::new();
    extend_str(&mut out, "<div><a href=\"");
    extend_chars(&mut out, &id);
    extend_str(&mut out, "/index.html\">В тред &rarr;</a></div>");
    extend_chars(&mut out, &h2);
    extend_str(&mut out, "\n");
    assert(out@ =~= index_entry(*p, files, thumb));
    out
}

/// The index page that lists the scraped threads by their first posts;
/// `None` when no thread was scraped (then no index is written).
#[verifier::rlimit(40)]
pub fn index_page(first_posts: &[Post], config: &Config) -> (page: Option<String>)
    ensures
        first_posts@.len() == 0 <==> page is None,
        page matches Some(p) ==> p@ == index_html(first_posts@, config.files, config.thumb),
{
    if first_posts.len() == 0 {
        return None;
    }
    let mut entries: Vec<Vec<char>> = Vec::new();
    let mut i: usize = 0;
    while i < first_posts.len()
        invariant
            i <= first_posts.len(),
            views(entries@) == first_posts@.take(i as int).map_values(
                |p: Post| index_entry(p, config.files, config.thumb),
            ),
        decreases first_posts.len() - i,
    {
        let e = index_entry_chars(&first_posts[i], config.files, config.thumb);
        let ghost before = views(entries@);
        let ghost ev = e@;
        entries.push(e);
        assert(views(entries@) =~= before.push(ev));
        i = i + 1;
        assert(views(entries@) =~= first_posts@.take(i as int).map_values(
            |p: Post| index_entry(p, config.files, config.thumb),
        ));
    }
    assert(first_posts@.take(first_posts.len() as int) == first_posts@);
    let mut sep: Vec<char> = Vec::new();
    sep.push('\n');
    assert(sep@ =~= seq!['\n']);
    let body = join_chars(&entries, &sep);
    Some(fill_template(&body))
}

/// The folder of a thread: the id of its first post.
pub fn thread_dir(posts: &[Post]) -> (d: String)
    requires
        posts@.len() > 0,
    ensures
        d@ == decimal(posts@[0].id as nat),
{
    string_of(&decimal_chars(posts[0].id as u64))
}

/// The page of a thread: all its posts, linking local files and thumbnails
/// when those are downloaded.
pub fn thread_page(posts: &[Post], config: &Config) -> (page: String)
    ensures
        page@ == page_html(posts@, config.files, config.thumb),
{
    render_page(posts, config.files, config.thumb)
}

} // verus!
