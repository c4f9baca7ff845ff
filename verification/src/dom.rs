//! Access to parsed HTML documents through the `scraper` crate.
//!
//! A page is parsed once; every element and node read from it keeps the
//! text of the page and its position in the tree (the index of each child
//! taken from the document root down to it), as ghost values. What the
//! parser finds at a position is a function of the page text alone; the
//! names below stand for it, one for each function of the parser that
//! reads it, and the reading functions state their results over them.

use vstd::prelude::*;

verus! {

/// A parsed HTML document.
#[verifier::external_type_specification]
#[verifier::external_body]
pub struct ExHtml(scraper::Html);

/// A compiled CSS selector.
#[verifier::external_type_specification]
#[verifier::external_body]
pub struct ExSelector(scraper::Selector);

/// A reference to an element of a parsed document.
#[verifier::external_type_specification]
#[verifier::external_body]
pub struct ExElementRef<'a>(scraper::ElementRef<'a>);

/// A node of a parsed document: text, element, comment and so on.
#[verifier::external_type_specification]
#[verifier::external_body]
pub struct ExNode(scraper::Node);

/// A reference to a node of a tree.
#[verifier::external_type_specification]
#[verifier::external_body]
#[verifier::reject_recursive_types(T)]
pub struct ExNodeRef<'a, T: 'a>(ego_tree::NodeRef<'a, T>);

/// The positions of the elements of the page parsed from `page` that match
/// the selector `sel`, in the order `scraper::Html::select` yields them.
pub uninterp spec fn selected_in_page(page: Seq<char>, sel: Seq<char>) -> Seq<Seq<nat>>;

/// The positions of the elements below the element at `path` that match
/// the selector `sel`, in the order `scraper::ElementRef::select` yields
/// them.
pub uninterp spec fn selected_in(page: Seq<char>, path: Seq<nat>, sel: Seq<char>) -> Seq<Seq<nat>>;

/// The value of the attribute `name` of the element at `path`
/// (`scraper::ElementRef::attr`).
pub uninterp spec fn attribute(page: Seq<char>, path: Seq<nat>, name: Seq<char>) -> Option<Seq<char>>;

/// All the text below the element at `path`, as `scraper::ElementRef::text`
/// yields it, joined.
pub uninterp spec fn inner_text(page: Seq<char>, path: Seq<nat>) -> Seq<char>;

/// The number of children of the element at `path`
/// (`ego_tree::NodeRef::children`).
pub uninterp spec fn children_count(page: Seq<char>, path: Seq<nat>) -> nat;

/// The text of the node at `path` when it is a text node
/// (`scraper::Node::as_text`).
pub uninterp spec fn text_node_value(page: Seq<char>, path: Seq<nat>) -> Option<Seq<char>>;

/// The node at `path` is an element (`scraper::ElementRef::wrap` gives
/// one).
pub uninterp spec fn node_is_element(page: Seq<char>, path: Seq<nat>) -> bool;

/// The tag name of the element at `path` (`scraper::node::Element::name`).
pub uninterp spec fn tag_name(page: Seq<char>, path: Seq<nat>) -> Seq<char>;

/// A parsed page, with the text it was parsed from.
pub struct Page {
    doc: scraper::Html,
    text: Ghost<Seq<char>>,
}

impl Page {
    /// The text the page was parsed from.
    pub closed spec fn text(&self) -> Seq<char> {
        self.text@
    }
}

/// A compiled selector, with its text.
pub struct Css {
    compiled: scraper::Selector,
    text: Ghost<Seq<char>>,
}

impl Css {
    /// The text the selector was compiled from.
    pub closed spec fn text(&self) -> Seq<char> {
        self.text@
    }
}

/// An element of a page, with the page text and its position.
pub struct Element<'a> {
    node: scraper::ElementRef<'a>,
    page: Ghost<Seq<char>>,
    path: Ghost<Seq<nat>>,
}

impl<'a> Element<'a> {
    /// The text of the page the element belongs to.
    pub closed spec fn page(&self) -> Seq<char> {
        self.page@
    }

    /// The position of the element in the tree.
    pub closed spec fn path(&self) -> Seq<nat> {
        self.path@
    }
}

/// A node of a page (of any kind), with the page text and its position.
pub struct PageNode<'a> {
    node: ego_tree::NodeRef<'a, scraper::Node>,
    page: Ghost<Seq<char>>,
    path: Ghost<Seq<nat>>,
}

impl<'a> PageNode<'a> {
    /// The text of the page the node belongs to.
    pub closed spec fn page(&self) -> Seq<char> {
        self.page@
    }

    /// The position of the node in the tree.
    pub closed spec fn path(&self) -> Seq<nat> {
        self.path@
    }
}

/// The characters of an optional string.
pub open spec fn opt_seq(o: Option<String>) -> Option<Seq<char>> {
    match o {
        Some(s) => Some(s@),
        None => None,
    }
}

/// The CSS selectors that the thread page reader uses; all of them are
/// valid selectors.
pub open spec fn known_selector(s: Seq<char>) -> bool {
    ||| s == "div.post"@
    ||| s == "div.post_head"@
    ||| s == "span.post_comment"@
    ||| s == "span.post_id a[href]"@
    ||| s == "h1.post_subject"@
    ||| s == "span.poster_name"@
    ||| s == "a.post_mail"@
    ||| s == "span.post_time"@
    ||| s == "span.post_num"@
    ||| s == "div.post_image_block"@
    ||| s == "div.post_comment_body"@
    ||| s == ".post_image img"@
    ||| s == "a.img_filename"@
}

/// Parses a whole HTML document (`scraper::Html::parse_document`), which
/// accepts any input; the page keeps the text it was parsed from.
#[verifier::external_body]
pub(crate) fn parse_page(html: &str) -> (p: Page)
    ensures
        p.text() == html@,
{
    Page { doc: scraper::Html::parse_document(html), text: Ghost(html@) }
}

/// Compiles a CSS selector (`scraper::Selector::parse`). It fails only on
/// invalid CSS, so the selector must be one of the known ones, which are
/// all valid.
#[verifier::external_body]
pub(crate) fn parse_selector(selector: &str) -> (c: Css)
    requires
        known_selector(selector@),
    ensures
        c.text() == selector@,
{
    Css { compiled: scraper::Selector::parse(selector).unwrap(), text: Ghost(selector@) }
}

/// The elements of a page that match a selector (`scraper::Html::select`),
/// in the order it yields them.
#[verifier::external_body]
pub(crate) fn select_page<'a>(page: &'a Page, css: &Css) -> (r: Vec<Element<'a>>)
    ensures
        r@.len() == selected_in_page(page.text(), css.text()).len(),
        forall|i: int|
            0 <= i < r@.len() ==> (#[trigger] r@[i]).page() == page.text() && r@[i].path()
                == selected_in_page(page.text(), css.text())[i],
{
    page.doc.select(&css.compiled).enumerate().map(|(i, node)| Element {
        node,
        page: Ghost(page.text@),
        path: Ghost(selected_in_page(page.text@, css.text@)[i as int]),
    }).collect()
}

/// The elements below an element that match a selector
/// (`scraper::ElementRef::select`), in the order it yields them.
#[verifier::external_body]
pub(crate) fn select_within<'a>(el: &Element<'a>, css: &Css) -> (r: Vec<Element<'a>>)
    ensures
        r@.len() == selected_in(el.page(), el.path(), css.text()).len(),
        forall|i: int|
            0 <= i < r@.len() ==> (#[trigger] r@[i]).page() == el.page() && r@[i].path()
                == selected_in(el.page(), el.path(), css.text())[i],
{
    el.node.select(&css.compiled).enumerate().map(|(i, node)| Element {
        node,
        page: Ghost(el.page@),
        path: Ghost(selected_in(el.page@, el.path@, css.text@)[i as int]),
    }).collect()
}

/// The value of an attribute of an element (`scraper::ElementRef::attr`).
#[verifier::external_body]
pub(crate) fn attr_of(el: &Element, name: &str) -> (r: Option<String>)
    ensures
        opt_seq(r) == attribute(el.page(), el.path(), name@),
{
    el.node.attr(name).map(String::from)
}

/// All the text below an element (`scraper::ElementRef::text`), joined.
#[verifier::external_body]
pub(crate) fn text_of(el: &Element) -> (r: String)
    ensures
        r@ == inner_text(el.page(), el.path()),
{
    el.node.text().collect()
}

/// The children of an element (`ego_tree::NodeRef::children`), in order;
/// child `i` sits at the element's position followed by `i`.
#[verifier::external_body]
pub(crate) fn children_of<'a>(el: &Element<'a>) -> (r: Vec<PageNode<'a>>)
    ensures
        r@.len() == children_count(el.page(), el.path()),
        forall|i: int|
            0 <= i < r@.len() ==> (#[trigger] r@[i]).page() == el.page() && r@[i].path()
                == el.path().push(i as nat),
{
    el.node.children().enumerate().map(|(i, node)| PageNode {
        node,
        page: Ghost(el.page@),
        path: Ghost(el.path@.push(i as nat)),
    }).collect()
}

/// The text of a node when it is a text node (`scraper::Node::as_text`).
#[verifier::external_body]
pub(crate) fn node_text(node: &PageNode) -> (r: Option<String>)
    ensures
        opt_seq(r) == text_node_value(node.page(), node.path()),
{
    node.node.value().as_text().map(|t| t.to_string())
}

/// The node as an element when it is one (`scraper::ElementRef::wrap`).
#[verifier::external_body]
pub(crate) fn as_element<'a>(node: &PageNode<'a>) -> (r: Option<Element<'a>>)
    ensures
        r is Some == node_is_element(node.page(), node.path()),
        r matches Some(e) ==> e.page() == node.page() && e.path() == node.path(),
{
    scraper::ElementRef::wrap(node.node).map(|e| Element { node: e, page: node.page, path: node.path })
}

/// The tag name of an element (`scraper::node::Element::name`).
#[verifier::external_body]
pub(crate) fn element_name(el: &Element) -> (r: String)
    ensures
        r@ == tag_name(el.page(), el.path()),
{
    el.node.value().name().to_string()
}

} // verus!
