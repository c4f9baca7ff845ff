//! Character-level string utilities used by the parsers and renderers.
//!
//! Strings are handled as sequences of `char`; every executable helper here
//! is stated against a spec function over `Seq<char>`.

use vstd::prelude::*;

verus! {

/// Appends one character to a string (std `String::push`); the contract
/// states what the std documentation promises: the character is added at
/// the end and nothing else changes.
#[verifier::external_body]
pub(crate) fn push_char(s: &mut String, c: char)
    ensures
        final(s)@ == old(s)@.push(c),
{
    s.push(c)
}

/// The characters of a string slice, in order.
pub fn chars_of(s: &str) -> (v: Vec<char>)
    ensures
        v@ == s@,
{
    let mut v: Vec<char> = Vec::new();
    for c in it: s.chars()
        invariant
            v@ == it.seq().take(it.index() as int),
    {
        v.push(c);
        assert(v@ == it.seq().take(it.index() + 1));
    }
    v
}

/// A string holding exactly the given characters.
pub fn string_of(v: &Vec<char>) -> (s: String)
    ensures
        s@ == v@,
{
    let mut s = String::new();
    let mut i: usize = 0;
    while i < v.len()
        invariant
            i <= v.len(),
            s@ == v@.take(i as int),
        decreases v.len() - i,
    {
        push_char(&mut s, v[i]);
        i = i + 1;
        assert(s@ == v@.take(i as int));
    }
    assert(v@.take(v.len() as int) == v@);
    s
}

/// Appends the characters of `src` to `dst`.
pub fn extend_chars(dst: &mut Vec<char>, src: &Vec<char>)
    ensures
        final(dst)@ == old(dst)@ + src@,
{
    let mut i: usize = 0;
    while i < src.len()
        invariant
            i <= src.len(),
            dst@ == old(dst)@ + src@.take(i as int),
        decreases src.len() - i,
    {
        dst.push(src[i]);
        i = i + 1;
        assert(dst@ == old(dst)@ + src@.take(i as int));
    }
    assert(src@.take(src.len() as int) == src@);
}

/// Appends the characters of a string slice to `dst`.
pub fn extend_str(dst: &mut Vec<char>, src: &str)
    ensures
        final(dst)@ == old(dst)@ + src@,
{
    let cs = chars_of(src);
    extend_chars(dst, &cs);
}

/// `c` is one of the ASCII digits `0`..`9`.
pub open spec fn is_digit(c: char) -> bool {
    '0' <= c && c <= '9'
}

/// The ASCII digit for a value below ten.
pub open spec fn digit_char(d: nat) -> char {
    ((d + 48) as u8) as char
}

/// The decimal representation of a natural number, without leading zeros.
pub open spec fn decimal(n: nat) -> Seq<char>
    decreases n,
{
    if n < 10 {
        seq![digit_char(n)]
    } else {
        decimal(n / 10).push(digit_char(n % 10))
    }
}

fn digit_of(d: u64) -> (c: char)
    requires
        d < 10,
    ensures
        c == digit_char(d as nat),
{
    if d == 0 { '0' }
    else if d == 1 { '1' }
    else if d == 2 { '2' }
    else if d == 3 { '3' }
    else if d == 4 { '4' }
    else if d == 5 { '5' }
    else if d == 6 { '6' }
    else if d == 7 { '7' }
    else if d == 8 { '8' }
    else { '9' }
}

/// The decimal digits of `n`, as `format!("{}", n)` prints them.
pub fn decimal_chars(n: u64) -> (v: Vec<char>)
    ensures
        v@ == decimal(n as nat),
    decreases n,
{
    if n < 10 {
        let mut v: Vec<char> = Vec::new();
        v.push(digit_of(n));
        v
    } else {
        let mut v = decimal_chars(n / 10);
        v.push(digit_of(n % 10));
        v
    }
}

/// The decimal digits of a wide number, as `format!("{}", n)` prints them.
pub fn decimal_chars_wide(n: u128) -> (v: Vec<char>)
    ensures
        v@ == decimal(n as nat),
    decreases n,
{
    if n < 10 {
        let mut v: Vec<char> = Vec::new();
        v.push(digit_of(n as u64));
        v
    } else {
        let mut v = decimal_chars_wide(n / 10);
        v.push(digit_of((n % 10) as u64));
        v
    }
}

/// The character sequences held by a sequence of character vectors.
pub open spec fn views(v: Seq<Vec<char>>) -> Seq<Seq<char>> {
    Seq::new(v.len(), |i: int| v[i]@)
}

/// The pieces of `s` between occurrences of `sep`, as `str::split` yields
/// them: there is always at least one piece, and a separator at either end
/// gives an empty piece there.
pub open spec fn split_on(s: Seq<char>, sep: char) -> Seq<Seq<char>>
    decreases s.len(),
{
    if s.len() == 0 {
        seq![Seq::<char>::empty()]
    } else {
        let p = split_on(s.drop_last(), sep);
        if s.last() == sep {
            p.push(Seq::<char>::empty())
        } else {
            p.update(p.len() - 1, p.last().push(s.last()))
        }
    }
}

/// `split_on` always yields at least one piece.
pub proof fn lemma_split_on_nonempty(s: Seq<char>, sep: char)
    ensures
        split_on(s, sep).len() >= 1,
    decreases s.len(),
{
    if s.len() > 0 {
        lemma_split_on_nonempty(s.drop_last(), sep);
    }
}

/// The parts joined with `sep` between consecutive parts, as
/// `[String]::join` builds it.
pub open spec fn join(parts: Seq<Seq<char>>, sep: Seq<char>) -> Seq<char>
    decreases parts.len(),
{
    if parts.len() == 0 {
        Seq::empty()
    } else if parts.len() == 1 {
        parts[0]
    } else {
        join(parts.drop_last(), sep) + sep + parts.last()
    }
}

/// Splitting on a character and joining again with that character gives
/// back the original text.
pub proof fn lemma_join_split(s: Seq<char>, sep: char)
    ensures
        join(split_on(s, sep), seq![sep]) == s,
        forall|i: int|
            0 <= i < split_on(s, sep).len() ==> !(#[trigger] split_on(s, sep)[i]).contains(sep),
    decreases s.len(),
{
    lemma_split_on_nonempty(s, sep);
    if s.len() > 0 {
        let p = split_on(s.drop_last(), sep);
        lemma_join_split(s.drop_last(), sep);
        lemma_split_on_nonempty(s.drop_last(), sep);
        if s.last() == sep {
            let q = p.push(Seq::<char>::empty());
            assert(q.drop_last() == p);
            assert(join(q, seq![sep]) == join(p, seq![sep]) + seq![sep] + Seq::<char>::empty());
            assert(s == s.drop_last().push(sep));
            assert forall|i: int| 0 <= i < q.len() implies !(#[trigger] q[i]).contains(sep) by {
                if i < p.len() {
                    assert(q[i] == p[i]);
                } else {
                    assert(q[i] =~= Seq::<char>::empty());
                }
            }
        } else {
            let n = p.len() - 1;
            let q = p.update(n, p.last().push(s.last()));
            if p.len() == 1 {
                assert(join(q, seq![sep]) == q[0]);
                assert(join(p, seq![sep]) == p[0]);
                assert(s == s.drop_last().push(s.last()));
            } else {
                assert(q.drop_last() == p.drop_last());
                assert(join(q, seq![sep]) == join(p.drop_last(), seq![sep]) + seq![sep] + q.last());
                assert(join(p, seq![sep]) == join(p.drop_last(), seq![sep]) + seq![sep] + p.last());
                assert(s == s.drop_last().push(s.last()));
            }
            assert forall|i: int| 0 <= i < q.len() implies !(#[trigger] q[i]).contains(sep) by {
                if i < n {
                    assert(q[i] == p[i]);
                } else {
                    let w = p.last().push(s.last());
                    assert(q[i] == w);
                    assert(!p.last().contains(sep));
                    if w.contains(sep) {
                        let k = choose|k: int| 0 <= k < w.len() && w[k] == sep;
                        if k < p.last().len() {
                            assert(p.last()[k] == sep);
                        }
                    }
                }
            }
        }
    }
}

/// Splitting text made of two parts around a separator gives the pieces of
/// the first part followed by those of the second.
pub proof fn lemma_split_on_around(a: Seq<char>, b: Seq<char>, sep: char)
    ensures
        split_on(a + seq![sep] + b, sep) == split_on(a, sep) + split_on(b, sep),
    decreases b.len(),
{
    let s = a + seq![sep] + b;
    if b.len() == 0 {
        assert(s.drop_last() == a);
        assert(split_on(a, sep).push(Seq::<char>::empty()) =~= split_on(a, sep) + split_on(b, sep));
    } else {
        lemma_split_on_around(a, b.drop_last(), sep);
        lemma_split_on_nonempty(b.drop_last(), sep);
        assert(s.drop_last() == a + seq![sep] + b.drop_last());
        let p = split_on(a, sep);
        let q = split_on(b.drop_last(), sep);
        if b.last() == sep {
            assert((p + q).push(Seq::<char>::empty()) =~= p + q.push(Seq::<char>::empty()));
        } else {
            let pq = p + q;
            assert(pq.update(pq.len() - 1, pq.last().push(b.last())) =~= p + q.update(
                q.len() - 1,
                q.last().push(b.last()),
            ));
        }
    }
}

/// Joining two non-empty lists of parts puts the separator between their
/// joins.
pub proof fn lemma_join_append(x: Seq<Seq<char>>, y: Seq<Seq<char>>, sep: Seq<char>)
    requires
        x.len() >= 1,
        y.len() >= 1,
    ensures
        join(x + y, sep) == join(x, sep) + sep + join(y, sep),
    decreases y.len(),
{
    let xy = x + y;
    if y.len() == 1 {
        assert(xy.drop_last() == x);
        assert(xy.last() == y[0]);
    } else {
        lemma_join_append(x, y.drop_last(), sep);
        assert(xy.drop_last() == x + y.drop_last());
        assert(join(xy, sep) == join(x, sep) + sep + join(y.drop_last(), sep) + sep + y.last());
        assert(join(xy, sep) =~= join(x, sep) + sep + join(y, sep));
    }
}

/// Splits `s` at every occurrence of `sep`.
pub fn split_chars(s: &Vec<char>, sep: char) -> (parts: Vec<Vec<char>>)
    ensures
        views(parts@) == split_on(s@, sep),
{
    let mut parts: Vec<Vec<char>> = Vec::new();
    let mut cur: Vec<char> = Vec::new();
    let mut i: usize = 0;
    while i < s.len()
        invariant
            i <= s.len(),
            views(parts@).push(cur@) == split_on(s@.take(i as int), sep),
        decreases s.len() - i,
    {
        let c = s[i];
        let ghost before = views(parts@).push(cur@);
        assert(s@.take(i + 1).drop_last() == s@.take(i as int));
        if c == sep {
            let ghost dv0 = views(parts@);
            let ghost cur0 = cur@;
            parts.push(cur);
            assert(views(parts@) =~= dv0.push(cur0));
            cur = Vec::new();
            assert(views(parts@).push(cur@) =~= before.push(Seq::<char>::empty()));
        } else {
            cur.push(c);
            assert(views(parts@).push(cur@) == before.update(
                before.len() - 1,
                before.last().push(c),
            ));
        }
        i = i + 1;
    }
    assert(s@.take(s.len() as int) == s@);
    let ghost dv0 = views(parts@);
    let ghost cur0 = cur@;
    parts.push(cur);
    assert(views(parts@) =~= dv0.push(cur0));
    parts
}

/// Joins the parts with `sep` between consecutive parts.
pub fn join_chars(parts: &Vec<Vec<char>>, sep: &Vec<char>) -> (out: Vec<char>)
    ensures
        out@ == join(views(parts@), sep@),
{
    let mut out: Vec<char> = Vec::new();
    let mut i: usize = 0;
    while i < parts.len()
        invariant
            i <= parts.len(),
            out@ == join(views(parts@).take(i as int), sep@),
        decreases parts.len() - i,
    {
        let ghost dv = views(parts@);
        assert(dv.take(i + 1).drop_last() == dv.take(i as int));
        if i > 0 {
            extend_chars(&mut out, sep);
        }
        extend_chars(&mut out, &parts[i]);
        i = i + 1;
        assert(dv.take(i as int).last() == parts[i - 1]@);
    }
    assert(views(parts@).take(parts.len() as int) == views(parts@));
    out
}

/// The piece after the last occurrence of `sep` (the whole text when there
/// is none), as `s.split(sep).last()` gives it.
pub open spec fn last_piece(s: Seq<char>, sep: char) -> Seq<char> {
    split_on(s, sep).last()
}

/// The piece after the last `sep`.
pub fn last_piece_chars(s: &Vec<char>, sep: char) -> (out: Vec<char>)
    ensures
        out@ == last_piece(s@, sep),
{
    let mut cur: Vec<char> = Vec::new();
    let mut i: usize = 0;
    while i < s.len()
        invariant
            i <= s.len(),
            cur@ == split_on(s@.take(i as int), sep).last(),
        decreases s.len() - i,
    {
        assert(s@.take(i + 1).drop_last() == s@.take(i as int));
        proof {
            lemma_split_on_nonempty(s@.take(i as int), sep);
        }
        if s[i] == sep {
            cur = Vec::new();
        } else {
            cur.push(s[i]);
        }
        i = i + 1;
    }
    assert(s@.take(s.len() as int) == s@);
    cur
}

/// `s` with every occurrence of the non-empty `pat` replaced by `rep`,
/// occurrences found from the left and not overlapping, as `str::replace`
/// does it.
pub open spec fn replace(s: Seq<char>, pat: Seq<char>, rep: Seq<char>) -> Seq<char>
    decreases s.len(),
{
    if pat.len() > 0 && pat.len() <= s.len() && s.take(pat.len() as int) == pat {
        rep + replace(s.skip(pat.len() as int), pat, rep)
    } else if s.len() == 0 {
        Seq::empty()
    } else {
        seq![s[0]] + replace(s.skip(1), pat, rep)
    }
}

fn matches_at(s: &Vec<char>, i: usize, pat: &Vec<char>) -> (b: bool)
    requires
        i <= s.len(),
    ensures
        b == (pat@.len() <= s@.skip(i as int).len() && s@.skip(i as int).take(pat@.len() as int)
            == pat@),
{
    if pat.len() > s.len() - i {
        return false;
    }
    let mut k: usize = 0;
    while k < pat.len()
        invariant
            k <= pat.len() <= s.len() - i,
            forall|t: int| 0 <= t < k ==> s@[i + t] == pat@[t],
        decreases pat.len() - k,
    {
        if s[i + k] != pat[k] {
            assert(s@.skip(i as int).take(pat@.len() as int)[k as int] != pat@[k as int]);
            return false;
        }
        k = k + 1;
    }
    assert(s@.skip(i as int).take(pat@.len() as int) =~= pat@);
    true
}

/// Replaces every occurrence of the non-empty `pat` in `s` by `rep`.
pub fn replace_chars(s: &Vec<char>, pat: &Vec<char>, rep: &Vec<char>) -> (out: Vec<char>)
    requires
        pat@.len() > 0,
    ensures
        out@ == replace(s@, pat@, rep@),
{
    let mut out: Vec<char> = Vec::new();
    let mut i: usize = 0;
    assert(s@.skip(0) == s@);
    while i < s.len()
        invariant
            i <= s.len(),
            pat@.len() > 0,
            out@ + replace(s@.skip(i as int), pat@, rep@) == replace(s@, pat@, rep@),
        decreases s.len() - i,
    {
        if matches_at(s, i, pat) {
            extend_chars(&mut out, rep);
            assert(s@.skip(i as int).skip(pat@.len() as int) == s@.skip(i + pat@.len()));
            i = i + pat.len();
        } else {
            out.push(s[i]);
            assert(s@.skip(i as int).skip(1) == s@.skip(i + 1));
            i = i + 1;
        }
    }
    assert(s@.skip(s.len() as int) =~= Seq::<char>::empty());
    out
}

/// Whether two character sequences are equal.
pub fn chars_eq(a: &Vec<char>, b: &Vec<char>) -> (r: bool)
    ensures
        r == (a@ == b@),
{
    if a.len() != b.len() {
        return false;
    }
    let mut i: usize = 0;
    while i < a.len()
        invariant
            i <= a.len() == b.len(),
            a@.take(i as int) == b@.take(i as int),
        decreases a.len() - i,
    {
        if a[i] != b[i] {
            assert(a@[i as int] != b@[i as int]);
            return false;
        }
        i = i + 1;
        assert(a@.take(i as int) =~= b@.take(i as int));
    }
    assert(a@ =~= a@.take(a.len() as int));
    assert(b@ =~= b@.take(b.len() as int));
    true
}

/// Whether two string slices hold the same characters.
pub fn str_eq(a: &str, b: &str) -> (r: bool)
    ensures
        r == (a@ == b@),
{
    chars_eq(&chars_of(a), &chars_of(b))
}

/// The numeric value of a run of ASCII digits.
pub open spec fn digits_value(s: Seq<char>) -> nat
    decreases s.len(),
{
    if s.len() == 0 {
        0
    } else {
        digits_value(s.drop_last()) * 10 + ((s.last() as u32) - 48) as nat
    }
}

/// Every character of `s` is an ASCII digit.
pub open spec fn all_digits(s: Seq<char>) -> bool {
    forall|i: int| 0 <= i < s.len() ==> is_digit(#[trigger] s[i])
}

/// What `u32::from_str` accepts and yields: an optional `+`, then one or
/// more ASCII digits whose value fits in a `u32`.
pub open spec fn parse_u32_spec(s: Seq<char>) -> Option<u32> {
    let d = if s.len() > 0 && s[0] == '+' {
        s.skip(1)
    } else {
        s
    };
    if d.len() > 0 && all_digits(d) && digits_value(d) <= u32::MAX {
        Some(digits_value(d) as u32)
    } else {
        None
    }
}

/// Parses a decimal `u32` with std's `str::parse::<u32>`. Its documentation
/// (`u32::from_str_radix` with radix 10) accepts exactly an optional `+`
/// followed by digits, and fails on an empty string, any other character,
/// or a value above `u32::MAX`; the contract states that. Which
/// `ParseIntError` comes back on failure is not stated.
#[verifier::external_body]
pub(crate) fn parse_u32(s: &str) -> (r: Result<u32, std::num::ParseIntError>)
    ensures
        match r {
            Ok(v) => parse_u32_spec(s@) == Some(v),
            Err(_) => parse_u32_spec(s@) is None,
        },
{
    s.parse::<u32>()
}

/// `c` is a white-space character in the sense of `char::is_whitespace`
/// (the Unicode `White_Space` property).
pub open spec fn is_whitespace(c: char) -> bool {
    ('\t' <= c && c <= '\r') || c == ' ' || c == '\u{85}' || c == '\u{a0}' || c == '\u{1680}' || (
    '\u{2000}' <= c && c <= '\u{200a}') || c == '\u{2028}' || c == '\u{2029}' || c == '\u{202f}'
        || c == '\u{205f}' || c == '\u{3000}'
}

/// Whether a character is white space.
pub fn is_whitespace_char(c: char) -> (b: bool)
    ensures
        b == is_whitespace(c),
{
    ('\t' <= c && c <= '\r') || c == ' ' || c == '\u{85}' || c == '\u{a0}' || c == '\u{1680}' || (
    '\u{2000}' <= c && c <= '\u{200a}') || c == '\u{2028}' || c == '\u{2029}' || c == '\u{202f}'
        || c == '\u{205f}' || c == '\u{3000}'
}

/// `s` without its leading white space.
pub open spec fn trim_start(s: Seq<char>) -> Seq<char>
    decreases s.len(),
{
    if s.len() > 0 && is_whitespace(s[0]) {
        trim_start(s.skip(1))
    } else {
        s
    }
}

/// `s` without its trailing white space.
pub open spec fn trim_end(s: Seq<char>) -> Seq<char>
    decreases s.len(),
{
    if s.len() > 0 && is_whitespace(s.last()) {
        trim_end(s.drop_last())
    } else {
        s
    }
}

/// `s` without leading and trailing white space, as `str::trim` gives it.
pub open spec fn trim(s: Seq<char>) -> Seq<char> {
    trim_end(trim_start(s))
}

/// The characters that show: the ASCII graphic characters, and the
/// characters from U+00A1 to U+167F and from U+3001 on (letters, digits,
/// punctuation and signs of most scripts).
pub open spec fn shows(c: char) -> bool {
    ('!' <= c && c <= '~') || ('\u{a1}' <= c && c <= '\u{167f}') || '\u{3001}' <= c
}

/// A character that shows is not white space.
pub proof fn lemma_shown_is_not_white_space(c: char)
    requires
        shows(c),
    ensures
        !is_whitespace(c),
{
}

/// Trimming removes only white space: a string that begins and ends with a
/// character that shows comes out of `trim` unchanged.
pub proof fn lemma_trim_keeps_shown_ends(s: Seq<char>)
    requires
        s.len() > 0,
        shows(s[0]),
        shows(s.last()),
    ensures
        trim(s) == s,
{
    assert(trim_start(s) == s);
    assert(trim_end(s) == s);
}

proof fn lemma_trim_start_at(s: Seq<char>, i: int)
    requires
        0 <= i <= s.len(),
        forall|k: int| 0 <= k < i ==> is_whitespace(#[trigger] s[k]),
        i < s.len() ==> !is_whitespace(s[i]),
    ensures
        trim_start(s) == s.skip(i),
    decreases i,
{
    if i == 0 {
        assert(s.skip(0) == s);
    } else {
        assert forall|k: int| 0 <= k < i - 1 implies is_whitespace(#[trigger] s.skip(1)[k]) by {
            assert(s.skip(1)[k] == s[k + 1]);
        }
        if i - 1 < s.skip(1).len() {
            assert(s.skip(1)[i - 1] == s[i]);
        }
        lemma_trim_start_at(s.skip(1), i - 1);
        assert(s.skip(1).skip(i - 1) == s.skip(i));
    }
}

proof fn lemma_trim_end_at(s: Seq<char>, j: int)
    requires
        0 <= j <= s.len(),
        forall|k: int| j <= k < s.len() ==> is_whitespace(#[trigger] s[k]),
        j > 0 ==> !is_whitespace(s[j - 1]),
    ensures
        trim_end(s) == s.take(j),
    decreases s.len() - j,
{
    if j == s.len() {
        assert(s.take(j) == s);
    } else {
        assert forall|k: int| j <= k < s.drop_last().len() implies is_whitespace(
            #[trigger] s.drop_last()[k],
        ) by {
            assert(s.drop_last()[k] == s[k]);
        }
        if j > 0 {
            assert(s.drop_last()[j - 1] == s[j - 1]);
        }
        lemma_trim_end_at(s.drop_last(), j);
        assert(s.drop_last().take(j) == s.take(j));
    }
}

/// Removes leading and trailing white space.
pub fn trim_chars(s: &Vec<char>) -> (out: Vec<char>)
    ensures
        out@ == trim(s@),
{
    let mut i: usize = 0;
    while i < s.len() && is_whitespace_char(s[i])
        invariant
            i <= s.len(),
            forall|k: int| 0 <= k < i ==> is_whitespace(#[trigger] s@[k]),
        decreases s.len() - i,
    {
        i = i + 1;
    }
    proof {
        lemma_trim_start_at(s@, i as int);
    }
    let mut j: usize = s.len();
    while j > i && is_whitespace_char(s[j - 1])
        invariant
            i <= j <= s.len(),
            forall|k: int| j <= k < s.len() ==> is_whitespace(#[trigger] s@[k]),
        decreases j,
    {
        j = j - 1;
    }
    let ghost t = s@.skip(i as int);
    proof {
        assert forall|k: int| (j - i) <= k < t.len() implies is_whitespace(#[trigger] t[k]) by {
            assert(t[k] == s@[k + i]);
        }
        if j > i {
            assert(t[j - i - 1] == s@[j - 1]);
        }
        lemma_trim_end_at(t, (j - i) as int);
        assert(t.take((j - i) as int) == s@.subrange(i as int, j as int));
    }
    let mut out: Vec<char> = Vec::new();
    let mut k: usize = i;
    while k < j
        invariant
            i <= k <= j <= s.len(),
            out@ == s@.subrange(i as int, k as int),
        decreases j - k,
    {
        out.push(s[k]);
        k = k + 1;
        assert(out@ =~= s@.subrange(i as int, k as int));
    }
    out
}

/// A line with one trailing carriage return removed.
pub open spec fn strip_cr(l: Seq<char>) -> Seq<char> {
    if l.len() > 0 && l.last() == '\r' {
        l.drop_last()
    } else {
        l
    }
}

/// The lines of `s` as `str::lines` yields them: split at `\n`, a `\r`
/// before a `\n` dropped, and no line after a final `\n` (nor for an empty
/// string).
pub open spec fn lines(s: Seq<char>) -> Seq<Seq<char>> {
    let p = split_on(s, '\n');
    let body = p.drop_last().map_values(|l: Seq<char>| strip_cr(l));
    if p.last().len() == 0 {
        body
    } else {
        body.push(p.last())
    }
}

/// The lines of `s`.
pub fn lines_chars(s: &Vec<char>) -> (out: Vec<Vec<char>>)
    ensures
        views(out@) == lines(s@),
{
    let parts = split_chars(s, '\n');
    proof {
        lemma_split_on_nonempty(s@, '\n');
    }
    let n = parts.len();
    let mut out: Vec<Vec<char>> = Vec::new();
    let mut i: usize = 0;
    while i + 1 < n
        invariant
            n == parts.len(),
            n >= 1,
            i + 1 <= n,
            views(parts@) == split_on(s@, '\n'),
            views(out@) == views(parts@).drop_last().take(i as int).map_values(
                |l: Seq<char>| strip_cr(l),
            ),
        decreases n - i,
    {
        let p = &parts[i];
        let mut l: Vec<char> = Vec::new();
        let m = p.len();
        let keep = if m > 0 && p[m - 1] == '\r' {
            m - 1
        } else {
            m
        };
        let mut k: usize = 0;
        while k < keep
            invariant
                k <= keep <= m == p.len(),
                l@ == p@.take(k as int),
            decreases keep - k,
        {
            l.push(p[k]);
            k = k + 1;
            assert(l@ =~= p@.take(k as int));
        }
        assert(l@ == strip_cr(p@)) by {
            if m > 0 && p@.last() == '\r' {
                assert(p@.take(keep as int) =~= p@.drop_last());
            } else {
                assert(p@.take(keep as int) =~= p@);
            }
        }
        let ghost before = views(out@);
        let ghost lv = l@;
        out.push(l);
        assert(views(out@) =~= before.push(lv));
        i = i + 1;
        assert(views(out@) =~= views(parts@).drop_last().take(i as int).map_values(
            |l: Seq<char>| strip_cr(l),
        ));
    }
    assert(views(parts@).drop_last().take(i as int) == views(parts@).drop_last());
    let last = &parts[n - 1];
    if last.len() > 0 {
        let mut copy: Vec<char> = Vec::new();
        extend_chars(&mut copy, last);
        let ghost before = views(out@);
        let ghost cv = copy@;
        out.push(copy);
        assert(views(out@) =~= before.push(cv));
    }
    out
}

} // verus!
