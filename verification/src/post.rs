//! Posts of a thread, and how they are read from a thread page.
//!
//! Reading a page happens in two layers. The page is first read into plain
//! values (`RawPost` and the types under it) with the HTML parser; the rules
//! that turn those values into a `Post` (which elements are required, how
//! the id is read, how URLs and names are completed, how the text is put
//! together) are then applied by the functions named after each part of a
//! post, whose contracts state them exactly.

use vstd::prelude::*;
use crate::error::Error;
use crate::file::{File, file_text, extend_file_text};
use crate::text::{
    chars_of, string_of, extend_chars, extend_str, lines, lines_chars, trim, trim_chars,
    parse_u32, parse_u32_spec, str_eq, decimal, decimal_chars,
};
use crate::render::starts_with;
use crate::dom::{
    as_element, attr_of, attribute, children_count, children_of, element_name, inner_text,
    known_selector, node_is_element, node_text, opt_seq, parse_page, parse_selector, select_page,
    select_within, selected_in, selected_in_page, tag_name, text_node_value, text_of, Element,
};

verus! {

/// A single post in a thread.
#[derive(Debug, Clone)]
pub struct Post {
    /// Subject line, absent when the post has none.
    pub subject: Option<String>,
    /// Poster name, absent for the default anonymous name.
    pub name: Option<String>,
    /// Mail field, e.g. "mailto:sage".
    pub mailto: Option<String>,
    /// Time as shown, e.g. "01/02/26 Вск 03:13:12".
    pub time: String,
    /// Position in the thread, e.g. "#5".
    pub num: String,
    /// Post number, e.g. 329281515.
    pub id: u32,
    /// Attached files.
    pub files: Vec<File>,
    /// Post text.
    pub text: String,
}

/// A child of the comment body element.
#[derive(Debug)]
pub enum ChildNode {
    /// A text node.
    Text(String),
    /// An element with its tag name and all the text inside it.
    Element { name: String, text: String },
    /// Anything else (comments, processing instructions, ...).
    Other,
}

/// What is read from the `div.post_head` element of a post.
#[derive(Debug)]
pub struct RawPostHead {
    /// `href` of the first `span.post_id a[href]`.
    pub id_href: Option<String>,
    /// Text of the first `h1.post_subject`.
    pub subject: Option<String>,
    /// Text of the first `span.poster_name`.
    pub name: Option<String>,
    /// `title` of the first `a.post_mail`.
    pub mailto: Option<String>,
    /// Text of the first `span.post_time`.
    pub time: Option<String>,
    /// Text of the first `span.post_num`.
    pub num: Option<String>,
}

/// What is read from a `div.post_image_block` element.
#[derive(Debug)]
pub struct RawImageBlock {
    /// The block's `title` attribute.
    pub title: Option<String>,
    /// `src` of the first `.post_image img`.
    pub thumb_src: Option<String>,
    /// `href` of the first `a.img_filename`.
    pub href: Option<String>,
}

/// What is read from the `span.post_comment` element of a post.
#[derive(Debug)]
pub struct RawComment {
    /// Every `div.post_image_block`, in the order the parser selects them.
    pub blocks: Vec<RawImageBlock>,
    /// The children of the first `div.post_comment_body`, if there is one.
    pub body: Option<Vec<ChildNode>>,
}

/// What is read from a `div.post` element.
#[derive(Debug)]
pub struct RawPost {
    /// The first `div.post_head`, if there is one.
    pub head: Option<RawPostHead>,
    /// The first `span.post_comment`, if there is one.
    pub comment: Option<RawComment>,
}

/// The characters of an optional string, empty when absent.
pub open spec fn or_empty(o: Option<String>) -> Seq<char> {
    match o {
        Some(s) => s@,
        None => Seq::empty(),
    }
}

/// The characters of an optional string.
pub open spec fn opt_view(o: Option<String>) -> Option<Seq<char>> {
    match o {
        Some(s) => Some(s@),
        None => None,
    }
}

/// The site that relative links of a thread page point into.
pub open spec fn site() -> Seq<char> {
    "https://arhivach.vc"@
}

/// The name used for a file whose title lacks the line.
pub open spec fn unnamed() -> Seq<char> {
    "unnamed"@
}

/// Line `i` of a block title, or `unnamed` when the title has no such line.
/// The title reads "size, dimensions", then the original name, then the
/// timestamp name.
pub open spec fn title_line(title: Seq<char>, i: int) -> Seq<char> {
    if i < lines(title).len() {
        lines(title)[i]
    } else {
        unnamed()
    }
}

/// The thumbnail URL of a block: the site prefixed to the image source, or
/// empty when there is none.
pub open spec fn thumb_url(src: Seq<char>) -> Seq<char> {
    if src.len() == 0 {
        Seq::empty()
    } else {
        site() + src
    }
}

/// The file URL of a block: an absolute `http...` link as it is, an empty
/// link as empty, anything else prefixed with the site.
pub open spec fn file_url(href: Seq<char>) -> Seq<char> {
    if starts_with(href, seq!['h', 't', 't', 'p']) {
        href
    } else if href.len() == 0 {
        Seq::empty()
    } else {
        site() + href
    }
}

/// The file described by an image block.
pub open spec fn block_file_matches(f: File, b: RawImageBlock) -> bool {
    &&& f.name_orig@ == title_line(or_empty(b.title), 1)
    &&& f.name_timestamp@ == title_line(or_empty(b.title), 2)
    &&& f.url_thumb@ == thumb_url(or_empty(b.thumb_src))
    &&& f.url@ == file_url(or_empty(b.href))
}

/// The text a comment body child contributes: a text node its text, a `br`
/// element a line break, any other element all the text inside it.
pub open spec fn child_text(n: ChildNode) -> Seq<char> {
    match n {
        ChildNode::Text(t) => t@,
        ChildNode::Element { name, text } => if name@ == "br"@ {
            seq!['\n']
        } else {
            text@
        },
        ChildNode::Other => Seq::empty(),
    }
}

/// The children's text, one after the other.
pub open spec fn children_text(nodes: Seq<ChildNode>) -> Seq<char>
    decreases nodes.len(),
{
    if nodes.len() == 0 {
        Seq::empty()
    } else {
        children_text(nodes.drop_last()) + child_text(nodes.last())
    }
}

/// The post text of a comment body: the children's text, trimmed.
pub open spec fn body_text(nodes: Seq<ChildNode>) -> Seq<char> {
    trim(children_text(nodes))
}

/// The reason a post cannot be read, in the order the checks are made.
pub enum PostFailure {
    MissingHead,
    MissingId,
    BadId,
    MissingTime,
    MissingNum,
    MissingComment,
    MissingBody,
}

/// The digits of the post id: the `href` without its leading `#`.
pub open spec fn id_digits(href: Option<String>) -> Option<Seq<char>> {
    match href {
        Some(h) => if h@.len() > 0 && h@[0] == '#' {
            Some(h@.skip(1))
        } else {
            None
        },
        None => None,
    }
}

/// The first thing wrong with a post head, if anything.
pub open spec fn head_failure(h: RawPostHead) -> Option<PostFailure> {
    match id_digits(h.id_href) {
        None => Some(PostFailure::MissingId),
        Some(d) => if parse_u32_spec(d) is None {
            Some(PostFailure::BadId)
        } else if h.time is None {
            Some(PostFailure::MissingTime)
        } else if h.num is None {
            Some(PostFailure::MissingNum)
        } else {
            None
        },
    }
}

/// The post id of a head that has one.
pub open spec fn head_id(h: RawPostHead) -> u32 {
    parse_u32_spec(id_digits(h.id_href).unwrap()).unwrap()
}

/// The poster name: the name read, unless it is the anonymous default.
pub open spec fn head_name(h: RawPostHead) -> Option<Seq<char>> {
    match h.name {
        Some(n) => if n@ == "Аноним"@ {
            None
        } else {
            Some(n@)
        },
        None => None,
    }
}

/// The first thing wrong with a post, if anything.
pub open spec fn post_failure(raw: RawPost) -> Option<PostFailure> {
    match raw.head {
        None => Some(PostFailure::MissingHead),
        Some(h) => match head_failure(h) {
            Some(f) => Some(f),
            None => match raw.comment {
                None => Some(PostFailure::MissingComment),
                Some(c) => if c.body is None {
                    Some(PostFailure::MissingBody)
                } else {
                    None
                },
            },
        },
    }
}

/// The error that reports a failure.
pub open spec fn error_for(e: Error, f: PostFailure) -> bool {
    match f {
        PostFailure::BadId => e is ParseInt,
        _ => e matches Error::MissingElement(n) && n@ == match f {
            PostFailure::MissingHead => "post_head"@,
            PostFailure::MissingId => "post id"@,
            PostFailure::MissingTime => "post_time"@,
            PostFailure::MissingNum => "post_num"@,
            PostFailure::MissingComment => "post_comment"@,
            _ => "post_comment_body"@,
        },
    }
}

/// The files of a post match its image blocks one for one.
pub open spec fn files_match(files: Seq<File>, blocks: Seq<RawImageBlock>) -> bool {
    &&& files.len() == blocks.len()
    &&& forall|i: int| 0 <= i < files.len() ==> block_file_matches(#[trigger] files[i], blocks[i])
}

/// The head fields of a post match what was read from its head.
pub open spec fn head_matches(p: Post, h: RawPostHead) -> bool {
    &&& opt_view(p.subject) == opt_view(h.subject)
    &&& opt_view(p.name) == head_name(h)
    &&& opt_view(p.mailto) == opt_view(h.mailto)
    &&& p.time@ == or_empty(h.time)
    &&& p.num@ == or_empty(h.num)
    &&& p.id == head_id(h)
}

/// A post matches what was read from a `div.post` that has no failure.
pub open spec fn post_matches(p: Post, raw: RawPost) -> bool {
    &&& head_matches(p, raw.head.unwrap())
    &&& files_match(p.files@, raw.comment.unwrap().blocks@)
    &&& p.text@ == body_text(raw.comment.unwrap().body.unwrap()@)
}

/// The result of reading a post: the post when nothing is wrong, else the
/// error for the first failure.
pub open spec fn post_result(r: Result<Post, Error>, raw: RawPost) -> bool {
    match post_failure(raw) {
        None => r matches Ok(p) && post_matches(p, raw),
        Some(f) => r matches Err(e) && error_for(e, f),
    }
}

/// The head fields read from a post head.
pub type HeadFields = (Option<String>, Option<String>, Option<String>, String, String, u32);

/// The result of reading a post head.
pub open spec fn head_result(r: Result<HeadFields, Error>, h: RawPostHead) -> bool {
    match head_failure(h) {
        None => r matches Ok(t) && {
            &&& opt_view(t.0) == opt_view(h.subject)
            &&& opt_view(t.1) == head_name(h)
            &&& opt_view(t.2) == opt_view(h.mailto)
            &&& t.3@ == or_empty(h.time)
            &&& t.4@ == or_empty(h.num)
            &&& t.5 == head_id(h)
        },
        Some(f) => r matches Err(e) && error_for(e, f),
    }
}

fn opt_chars(o: &Option<String>) -> (v: Vec<char>)
    ensures
        v@ == or_empty(*o),
{
    match o {
        Some(s) => chars_of(s.as_str()),
        None => Vec::new(),
    }
}

fn copy_opt(o: &Option<String>) -> (r: Option<String>)
    ensures
        opt_view(r) == opt_view(*o),
{
    match o {
        Some(s) => Some(string_of(&chars_of(s.as_str()))),
        None => None,
    }
}

/// The result of reading all posts of a page: the posts, one per `div.post`
/// in the order they were read, when none of them fails, else the error for the
/// first failure of the first post that fails.
pub open spec fn posts_result(r: Result<Vec<Post>, Error>, raws: Seq<RawPost>) -> bool {
    match r {
        Ok(ps) => {
            &&& ps@.len() == raws.len()
            &&& forall|i: int|
                0 <= i < raws.len() ==> post_failure(#[trigger] raws[i]) is None && post_matches(
                    ps@[i],
                    raws[i],
                )
        },
        Err(e) => exists|k: int|
            {
                &&& 0 <= k < raws.len()
                &&& forall|j: int| 0 <= j < k ==> post_failure(#[trigger] raws[j]) is None
                &&& post_failure(#[trigger] raws[k]) matches Some(f)
                &&& error_for(e, f)
            },
    }
}

/// The position of the first element below `path` that matches `sel`.
pub open spec fn first_at(page: Seq<char>, path: Seq<nat>, sel: Seq<char>) -> Option<Seq<nat>> {
    let found = selected_in(page, path, sel);
    if found.len() > 0 {
        Some(found[0])
    } else {
        None
    }
}

/// The text of the first element below `path` that matches `sel`.
pub open spec fn first_text_at(page: Seq<char>, path: Seq<nat>, sel: Seq<char>) -> Option<Seq<char>> {
    match first_at(page, path, sel) {
        Some(p) => Some(inner_text(page, p)),
        None => None,
    }
}

/// An attribute of the first element below `path` that matches `sel`.
pub open spec fn first_attr_at(page: Seq<char>, path: Seq<nat>, sel: Seq<char>, name: Seq<char>) -> Option<
    Seq<char>,
> {
    match first_at(page, path, sel) {
        Some(p) => attribute(page, p, name),
        None => None,
    }
}

/// `h` is what the `div.post_head` element at `path` holds.
pub open spec fn head_read(h: RawPostHead, page: Seq<char>, path: Seq<nat>) -> bool {
    &&& opt_view(h.id_href) == first_attr_at(page, path, "span.post_id a[href]"@, "href"@)
    &&& opt_view(h.subject) == first_text_at(page, path, "h1.post_subject"@)
    &&& opt_view(h.name) == first_text_at(page, path, "span.poster_name"@)
    &&& opt_view(h.mailto) == first_attr_at(page, path, "a.post_mail"@, "title"@)
    &&& opt_view(h.time) == first_text_at(page, path, "span.post_time"@)
    &&& opt_view(h.num) == first_text_at(page, path, "span.post_num"@)
}

/// `b` is what the `div.post_image_block` element at `path` holds.
pub open spec fn block_read(b: RawImageBlock, page: Seq<char>, path: Seq<nat>) -> bool {
    &&& opt_view(b.title) == attribute(page, path, "title"@)
    &&& opt_view(b.thumb_src) == first_attr_at(page, path, ".post_image img"@, "src"@)
    &&& opt_view(b.href) == first_attr_at(page, path, "a.img_filename"@, "href"@)
}

/// `c` is the node at `path`: a text node with its text, an element with
/// its tag name and the text below it, or another node.
pub open spec fn child_read(c: ChildNode, page: Seq<char>, path: Seq<nat>) -> bool {
    match text_node_value(page, path) {
        Some(t) => c matches ChildNode::Text(s) && s@ == t,
        None => if node_is_element(page, path) {
            c matches ChildNode::Element { name, text } && name@ == tag_name(page, path) && text@
                == inner_text(page, path)
        } else {
            c is Other
        },
    }
}

/// `nodes` are the children of the element at `path`, in order.
pub open spec fn children_read(nodes: Seq<ChildNode>, page: Seq<char>, path: Seq<nat>) -> bool {
    &&& nodes.len() == children_count(page, path)
    &&& forall|i: int| 0 <= i < nodes.len() ==> #[trigger] child_read(nodes[i], page, path.push(i as nat))
}

/// `c` is what the `span.post_comment` element at `path` holds: every image
/// block below it, and the children of its first comment body.
pub open spec fn comment_read(c: RawComment, page: Seq<char>, path: Seq<nat>) -> bool {
    let blocks = selected_in(page, path, "div.post_image_block"@);
    &&& c.blocks@.len() == blocks.len()
    &&& forall|i: int| 0 <= i < blocks.len() ==> #[trigger] block_read(c.blocks@[i], page, blocks[i])
    &&& match first_at(page, path, "div.post_comment_body"@) {
        Some(p) => c.body matches Some(nodes) && children_read(nodes@, page, p),
        None => c.body is None,
    }
}

/// `r` is what the `div.post` element at `path` holds: its first head and
/// its first comment, when it has them.
pub open spec fn post_read(r: RawPost, page: Seq<char>, path: Seq<nat>) -> bool {
    &&& match first_at(page, path, "div.post_head"@) {
        Some(p) => r.head matches Some(h) && head_read(h, page, p),
        None => r.head is None,
    }
    &&& match first_at(page, path, "span.post_comment"@) {
        Some(p) => r.comment matches Some(c) && comment_read(c, page, p),
        None => r.comment is None,
    }
}

/// `raws` are the `div.post` elements of the page, one each, in the order
/// the parser selects them.
pub open spec fn page_read(raws: Seq<RawPost>, page: Seq<char>) -> bool {
    let found = selected_in_page(page, "div.post"@);
    &&& raws.len() == found.len()
    &&& forall|k: int| 0 <= k < raws.len() ==> #[trigger] post_read(raws[k], page, found[k])
}

/// The result of reading the page `html`: the posts built from its
/// `div.post` elements, or the error for the first that cannot be built.
pub open spec fn reads_page(r: Result<Vec<Post>, Error>, html: Seq<char>) -> bool {
    exists|raws: Seq<RawPost>| page_read(raws, html) && posts_result(r, raws)
}

fn first_of<'a>(el: &Element<'a>, selector: &str) -> (r: Option<Element<'a>>)
    requires
        known_selector(selector@),
    ensures
        match first_at(el.page(), el.path(), selector@) {
            Some(p) => r matches Some(e) && e.page() == el.page() && e.path() == p,
            None => r is None,
        },
{
    let sel = parse_selector(selector);
    let mut found = select_within(el, &sel);
    if found.len() > 0 {
        Some(found.swap_remove(0))
    } else {
        None
    }
}

fn first_text(el: &Element, selector: &str) -> (r: Option<String>)
    requires
        known_selector(selector@),
    ensures
        opt_view(r) == first_text_at(el.page(), el.path(), selector@),
{
    match first_of(el, selector) {
        Some(e) => Some(text_of(&e)),
        None => None,
    }
}

fn first_attr(el: &Element, selector: &str, name: &str) -> (r: Option<String>)
    requires
        known_selector(selector@),
    ensures
        opt_view(r) == first_attr_at(el.page(), el.path(), selector@, name@),
{
    match first_of(el, selector) {
        Some(e) => {
            let r = attr_of(&e, name);
            assert(opt_view(r) == opt_seq(r));
            r
        },
        None => None,
    }
}

fn read_post_head(el: &Element) -> (r: RawPostHead)
    ensures
        head_read(r, el.page(), el.path()),
{
    RawPostHead {
        id_href: first_attr(el, "span.post_id a[href]", "href"),
        subject: first_text(el, "h1.post_subject"),
        name: first_text(el, "span.poster_name"),
        mailto: first_attr(el, "a.post_mail", "title"),
        time: first_text(el, "span.post_time"),
        num: first_text(el, "span.post_num"),
    }
}

fn read_image_block(el: &Element) -> (r: RawImageBlock)
    ensures
        block_read(r, el.page(), el.path()),
{
    let title = attr_of(el, "title");
    assert(opt_view(title) == opt_seq(title));
    RawImageBlock {
        title,
        thumb_src: first_attr(el, ".post_image img", "src"),
        href: first_attr(el, "a.img_filename", "href"),
    }
}

/// Each child of an element as its kind: a text node with its text, an
/// element with its tag name and the text inside it, or another node.
fn read_children(el: &Element) -> (out: Vec<ChildNode>)
    ensures
        children_read(out@, el.page(), el.path()),
{
    let nodes = children_of(el);
    let mut out: Vec<ChildNode> = Vec::new();
    let mut i: usize = 0;
    while i < nodes.len()
        invariant
            i <= nodes.len(),
            out@.len() == i,
            nodes@.len() == children_count(el.page(), el.path()),
            forall|k: int|
                0 <= k < nodes@.len() ==> (#[trigger] nodes@[k]).page() == el.page()
                    && nodes@[k].path() == el.path().push(k as nat),
            forall|k: int| 0 <= k < i ==> #[trigger] child_read(out@[k], el.page(), el.path().push(k as nat)),
        decreases nodes.len() - i,
    {
        let n = &nodes[i];
        let child = match node_text(n) {
            Some(t) => ChildNode::Text(t),
            None => match as_element(n) {
                Some(e) => ChildNode::Element { name: element_name(&e), text: text_of(&e) },
                None => ChildNode::Other,
            },
        };
        assert(child_read(child, el.page(), el.path().push(i as nat)));
        out.push(child);
        i = i + 1;
    }
    out
}

fn read_comment(el: &Element) -> (r: RawComment)
    ensures
        comment_read(r, el.page(), el.path()),
{
    let sel = parse_selector("div.post_image_block");
    let found = select_within(el, &sel);
    let ghost want = selected_in(el.page(), el.path(), "div.post_image_block"@);
    let mut blocks: Vec<RawImageBlock> = Vec::new();
    let mut i: usize = 0;
    while i < found.len()
        invariant
            i <= found.len(),
            blocks@.len() == i,
            want == selected_in(el.page(), el.path(), "div.post_image_block"@),
            found@.len() == want.len(),
            forall|k: int|
                0 <= k < found@.len() ==> (#[trigger] found@[k]).page() == el.page()
                    && found@[k].path() == want[k],
            forall|k: int| 0 <= k < i ==> #[trigger] block_read(blocks@[k], el.page(), want[k]),
        decreases found.len() - i,
    {
        let b = read_image_block(&found[i]);
        blocks.push(b);
        i = i + 1;
    }
    let body = match first_of(el, "div.post_comment_body") {
        Some(b) => Some(read_children(&b)),
        None => None,
    };
    RawComment { blocks, body }
}

fn read_post(el: &Element) -> (r: RawPost)
    ensures
        post_read(r, el.page(), el.path()),
{
    let head = match first_of(el, "div.post_head") {
        Some(h) => Some(read_post_head(&h)),
        None => None,
    };
    let comment = match first_of(el, "span.post_comment") {
        Some(c) => Some(read_comment(&c)),
        None => None,
    };
    RawPost { head, comment }
}

/// The printed list of files: one indented line per file.
pub open spec fn files_text(files: Seq<File>) -> Seq<char>
    decreases files.len(),
{
    if files.len() == 0 {
        Seq::empty()
    } else {
        files_text(files.drop_last()) + "\n  - "@ + file_text(files.last())
    }
}

/// The first part of a printed post: the poster (with the mail field in
/// parentheses when it is not empty), time, number and id.
pub open spec fn post_header_text(p: Post) -> Seq<char> {
    let name = match p.name {
        Some(n) => n@,
        None => "Аноним"@,
    };
    let mailto = or_empty(p.mailto);
    (if mailto.len() > 0 {
        name + " ("@ + mailto + ")"@
    } else {
        name
    }) + " "@ + p.time@ + " "@ + p.num@ + " ID:"@ + decimal(p.id as nat)
}

/// The subject line of a printed post, when it has a subject.
pub open spec fn post_subject_text(p: Post) -> Seq<char> {
    match p.subject {
        Some(s) => "\n"@ + s@,
        None => Seq::empty(),
    }
}

/// The file list of a printed post, when it has files.
pub open spec fn post_files_text(p: Post) -> Seq<char> {
    if p.files@.len() > 0 {
        "\n[Files: "@ + decimal(p.files@.len()) + "]"@ + files_text(p.files@)
    } else {
        Seq::empty()
    }
}

/// The text of a printed post, when it has text.
pub open spec fn post_body_text(p: Post) -> Seq<char> {
    if p.text@.len() > 0 {
        "\n"@ + p.text@
    } else {
        Seq::empty()
    }
}

/// The printed form of a post: header, then subject, files and text, each
/// on new lines and only when present.
pub open spec fn post_text(p: Post) -> Seq<char> {
    post_header_text(p) + post_subject_text(p) + post_files_text(p) + post_body_text(p)
}

fn extend_post_header(out: &mut Vec<char>, p: &Post)
    ensures
        final(out)@ == old(out)@ + post_header_text(*p),
{
    let ghost o0 = out@;
    match &p.name {
        Some(n) => extend_str(out, n.as_str()),
        None => extend_str(out, "Аноним"),
    }
    let mailto = opt_chars(&p.mailto);
    if mailto.len() > 0 {
        extend_str(out, " (");
        extend_chars(out, &mailto);
        extend_str(out, ")");
    }
    extend_str(out, " ");
    extend_str(out, p.time.as_str());
    extend_str(out, " ");
    extend_str(out, p.num.as_str());
    extend_str(out, " ID:");
    extend_chars(out, &decimal_chars(p.id as u64));
    assert(out@ =~= o0 + post_header_text(*p));
}

fn extend_post_files(out: &mut Vec<char>, p: &Post)
    ensures
        final(out)@ == old(out)@ + post_files_text(*p),
{
    let ghost o0 = out@;
    if p.files.len() > 0 {
        extend_str(out, "\n[Files: ");
        extend_chars(out, &decimal_chars(p.files.len() as u64));
        extend_str(out, "]");
        let ghost o4 = out@;
        let mut i: usize = 0;
        while i < p.files.len()
            invariant
                i <= p.files.len(),
                out@ == o4 + files_text(p.files@.take(i as int)),
            decreases p.files.len() - i,
        {
            assert(p.files@.take(i + 1).drop_last() == p.files@.take(i as int));
            extend_str(out, "\n  - ");
            extend_file_text(out, &p.files[i]);
            i = i + 1;
            assert(out@ =~= o4 + files_text(p.files@.take(i as int)));
        }
        assert(p.files@.take(p.files.len() as int) == p.files@);
    }
    assert(out@ =~= o0 + post_files_text(*p));
}

impl Post {
    /// The post in printed form.
    pub fn display(&self) -> (s: String)
        ensures
            s@ == post_text(*self),
    {
        let mut out: Vec<char> = Vec::new();
        extend_post_header(&mut out, self);
        let ghost o2 = out@;
        match &self.subject {
            Some(s) => {
                extend_str(&mut out, "\n");
                extend_str(&mut out, s.as_str());
            },
            None => {},
        }
        assert(out@ =~= o2 + post_subject_text(*self));
        extend_post_files(&mut out, self);
        let ghost o5 = out@;
        let text = chars_of(self.text.as_str());
        if text.len() > 0 {
            extend_str(&mut out, "\n");
            extend_chars(&mut out, &text);
        }
        assert(out@ =~= o5 + post_body_text(*self));
        assert(out@ =~= post_text(*self));
        string_of(&out)
    }

    /// Reads every `div.post` of a thread page, in the order the parser selects them. Each post
    /// is read into plain values and built with `parse_post` (see
    /// `from_raw_posts`); the first post that cannot be built ends the
    /// reading with its error.
    pub fn parse_posts(html: &str) -> (r: Result<Vec<Post>, Error>)
        ensures
            reads_page(r, html@),
    {
        let page = parse_page(html);
        let sel = parse_selector("div.post");
        let nodes = select_page(&page, &sel);
        let ghost found = selected_in_page(html@, "div.post"@);
        let mut raws: Vec<RawPost> = Vec::new();
        let mut i: usize = 0;
        while i < nodes.len()
            invariant
                i <= nodes.len(),
                raws@.len() == i,
                found == selected_in_page(html@, "div.post"@),
                nodes@.len() == found.len(),
                forall|k: int|
                    0 <= k < nodes@.len() ==> (#[trigger] nodes@[k]).page() == html@
                        && nodes@[k].path() == found[k],
                forall|k: int| 0 <= k < i ==> #[trigger] post_read(raws@[k], html@, found[k]),
            decreases nodes.len() - i,
        {
            let raw = read_post(&nodes[i]);
            raws.push(raw);
            i = i + 1;
        }
        assert(page_read(raws@, html@));
        Post::from_raw_posts(&raws)
    }

    /// Builds the posts of a page from what was read from its `div.post`
    /// elements, in order; the first one that cannot be built ends the
    /// building with its error.
    pub fn from_raw_posts(raws: &Vec<RawPost>) -> (r: Result<Vec<Post>, Error>)
        ensures
            posts_result(r, raws@),
    {
        let mut posts: Vec<Post> = Vec::new();
        let mut i: usize = 0;
        while i < raws.len()
            invariant
                i <= raws.len(),
                posts@.len() == i,
                forall|k: int|
                    0 <= k < i ==> post_failure(#[trigger] raws@[k]) is None && post_matches(
                        posts@[k],
                        raws@[k],
                    ),
            decreases raws.len() - i,
        {
            match Post::parse_post(&raws[i]) {
                Ok(p) => {
                    posts.push(p);
                },
                Err(e) => {
                    assert(posts_result(Err(e), raws@)) by {
                        assert forall|j: int| 0 <= j < i implies post_failure(
                            #[trigger] raws@[j],
                        ) is None by {}
                    }
                    return Err(e);
                },
            }
            i = i + 1;
        }
        Ok(posts)
    }

    /// Reads the head fields (subject, name, mailto, time, num, id) from
    /// what was read from `div.post_head`.
    ///
    /// The id is the `href` of the post id link without its leading `#`;
    /// an absent link or `#` gives `MissingElement("post id")`, digits that
    /// do not parse give `ParseInt`. A missing time or number gives
    /// `MissingElement("post_time")` or `MissingElement("post_num")`, in
    /// that order after the id. The anonymous default name reads as no
    /// name.
    pub fn parse_post_head(head: &RawPostHead) -> (r: Result<HeadFields, Error>)
        ensures
            head_result(r, *head),
    {
        let digits = match &head.id_href {
            Some(h) => {
                let hc = chars_of(h.as_str());
                if hc.len() > 0 && hc[0] == '#' {
                    let mut d: Vec<char> = Vec::new();
                    let mut k: usize = 1;
                    while k < hc.len()
                        invariant
                            1 <= k <= hc.len(),
                            d@ == hc@.subrange(1, k as int),
                        decreases hc.len() - k,
                    {
                        d.push(hc[k]);
                        k = k + 1;
                        assert(d@ =~= hc@.subrange(1, k as int));
                    }
                    assert(d@ =~= h@.skip(1));
                    d
                } else {
                    return Err(Error::MissingElement("post id"));
                }
            },
            None => {
                return Err(Error::MissingElement("post id"));
            },
        };
        let ds = string_of(&digits);
        let id = match parse_u32(ds.as_str()) {
            Ok(v) => v,
            Err(e) => {
                return Err(Error::ParseInt(e));
            },
        };
        let subject = copy_opt(&head.subject);
        let name = match &head.name {
            Some(n) => {
                let is_anon = str_eq(n.as_str(), "Аноним");
                if is_anon {
                    None
                } else {
                    Some(string_of(&chars_of(n.as_str())))
                }
            },
            None => None,
        };
        let mailto = copy_opt(&head.mailto);
        let time = match &head.time {
            Some(t) => string_of(&chars_of(t.as_str())),
            None => {
                return Err(Error::MissingElement("post_time"));
            },
        };
        let num = match &head.num {
            Some(n) => string_of(&chars_of(n.as_str())),
            None => {
                return Err(Error::MissingElement("post_num"));
            },
        };
        Ok((subject, name, mailto, time, num, id))
    }

    /// Builds the file of a `div.post_image_block` from what was read from
    /// it: the original and timestamp names are lines 1 and 2 of the title
    /// (`unnamed` when missing), the thumbnail source is made absolute, and
    /// the file link is made absolute unless it already starts with `http`.
    pub fn parse_post_image_block(block: &RawImageBlock) -> (f: File)
        ensures
            block_file_matches(f, *block),
    {
        let title = opt_chars(&block.title);
        let title_lines = lines_chars(&title);
        let name_orig = if title_lines.len() > 1 {
            string_of(&title_lines[1])
        } else {
            String::from_str("unnamed")
        };
        let name_timestamp = if title_lines.len() > 2 {
            string_of(&title_lines[2])
        } else {
            String::from_str("unnamed")
        };
        let src = opt_chars(&block.thumb_src);
        let url_thumb = if src.len() == 0 {
            String::new()
        } else {
            let mut u: Vec<char> = Vec::new();
            extend_str(&mut u, "https://arhivach.vc");
            extend_chars(&mut u, &src);
            string_of(&u)
        };
        let href = opt_chars(&block.href);
        let is_http = href.len() >= 4 && href[0] == 'h' && href[1] == 't' && href[2] == 't'
            && href[3] == 'p';
        proof {
            if href.len() >= 4 {
                assert(is_http <==> href@.take(4) =~= seq!['h', 't', 't', 'p']);
            }
        }
        let url = if is_http {
            string_of(&href)
        } else if href.len() == 0 {
            String::new()
        } else {
            let mut u: Vec<char> = Vec::new();
            extend_str(&mut u, "https://arhivach.vc");
            extend_chars(&mut u, &href);
            string_of(&u)
        };
        File { name_orig, name_timestamp, url_thumb, url }
    }

    /// The post text of a `div.post_comment_body`, from its children: text
    /// nodes as they are, `<br>` as a line break, other elements as the text
    /// inside them (so reply links read `>>id` and quotes `>text`), and the
    /// whole trimmed.
    pub fn parse_post_comment_body(nodes: &Vec<ChildNode>) -> (text: String)
        ensures
            text@ == body_text(nodes@),
    {
        let mut out: Vec<char> = Vec::new();
        let mut i: usize = 0;
        while i < nodes.len()
            invariant
                i <= nodes.len(),
                out@ == children_text(nodes@.take(i as int)),
            decreases nodes.len() - i,
        {
            assert(nodes@.take(i + 1).drop_last() == nodes@.take(i as int));
            match &nodes[i] {
                ChildNode::Text(t) => extend_str(&mut out, t.as_str()),
                ChildNode::Element { name, text } => {
                    if str_eq(name.as_str(), "br") {
                        out.push('\n');
                    } else {
                        extend_str(&mut out, text.as_str());
                    }
                },
                ChildNode::Other => {},
            }
            i = i + 1;
            assert(out@ =~= children_text(nodes@.take(i as int)));
        }
        assert(nodes@.take(nodes.len() as int) == nodes@);
        string_of(&trim_chars(&out))
    }

    /// Reads the files and the text of a post from what was read from its
    /// `span.post_comment`: one file per image block, in order, and the text
    /// of the comment body, which must be present
    /// (`MissingElement("post_comment_body")` otherwise).
    pub fn parse_post_comment(comment: &RawComment) -> (r: Result<(Vec<File>, String), Error>)
        ensures
            match comment.body {
                None => r matches Err(e) && error_for(e, PostFailure::MissingBody),
                Some(nodes) => r matches Ok(t) && files_match(t.0@, comment.blocks@) && t.1@
                    == body_text(nodes@),
            },
    {
        let mut files: Vec<File> = Vec::new();
        let mut i: usize = 0;
        while i < comment.blocks.len()
            invariant
                i <= comment.blocks.len(),
                files_match(files@, comment.blocks@.take(i as int)),
            decreases comment.blocks.len() - i,
        {
            let f = Post::parse_post_image_block(&comment.blocks[i]);
            files.push(f);
            i = i + 1;
            assert(files_match(files@, comment.blocks@.take(i as int))) by {
                assert forall|k: int| 0 <= k < files@.len() implies block_file_matches(
                    #[trigger] files@[k],
                    comment.blocks@.take(i as int)[k],
                ) by {
                    assert(comment.blocks@.take(i as int)[k] == comment.blocks@[k]);
                    if k < i - 1 {
                        assert(comment.blocks@.take(i - 1)[k] == comment.blocks@[k]);
                    }
                }
            }
        }
        assert(comment.blocks@.take(comment.blocks.len() as int) == comment.blocks@);
        match &comment.body {
            Some(nodes) => {
                let text = Post::parse_post_comment_body(nodes);
                Ok((files, text))
            },
            None => Err(Error::MissingElement("post_comment_body")),
        }
    }

    /// Builds a post from what was read from its `div.post`: the head
    /// (`MissingElement("post_head")` when absent) is read first, then the
    /// comment (`MissingElement("post_comment")` when absent); the first
    /// failure is the result.
    pub fn parse_post(raw: &RawPost) -> (r: Result<Post, Error>)
        ensures
            post_result(r, *raw),
    {
        let head = match &raw.head {
            Some(h) => h,
            None => {
                return Err(Error::MissingElement("post_head"));
            },
        };
        let (subject, name, mailto, time, num, id) = match Post::parse_post_head(head) {
            Ok(t) => t,
            Err(e) => {
                return Err(e);
            },
        };
        let comment = match &raw.comment {
            Some(c) => c,
            None => {
                return Err(Error::MissingElement("post_comment"));
            },
        };
        let (files, text) = match Post::parse_post_comment(comment) {
            Ok(t) => t,
            Err(e) => {
                return Err(e);
            },
        };
        Ok(Post { subject, name, mailto, time, num, id, files, text })
    }
}

} // verus!
