use arhivarch_downloader::error::Error;
use arhivarch_downloader::file::File;
use arhivarch_downloader::post::{ChildNode, Post, RawComment, RawImageBlock, RawPost, RawPostHead};

const PAGE: &str = r##"<html><body>
<div class="post" id="post329274763" postid="329274763">
<div class="post_head">
<span class="poster_name" title="">Аноним</span>&nbsp;
<span class="post_time">01/02/26 Вск 04:27:32</span>&nbsp;
<span class="post_num">#77</span>&nbsp;
<span class="post_id"><a style="position:absolute;margin-top:-50px;" id="329274763"></a><a href="#329274763">№329274763</a></span> &nbsp;
</div>
<span class="post_comment">
<div class="post_image_block" id="pib_77_2" pib="77_2" title="537.4 Кб, 946 x 946
image.png
17699092523481.png"><a class="expand_image" href="#"><div class="post_image" id="thumb_77_2"><img src="/storage/t/acc7f5856bc60ad3bdbd4dc7027e33f9.png" alt="" loading="lazy"></div></a><a href="/storage/a/cc/acc7f5856bc60ad3bdbd4dc7027e33f9.png" target="_blank" class="img_filename">image.png</a></div>
<div class="post_comment_body"><a href="#329274893" class="post-reply-link" data-thread="329273515" data-num="329274893">&gt;&gt;329274893</a><br><span class="unkfunc">&gt;greentext1</span><br>text1</div>
</span>
</div>
<div class="post" id="post329274800" postid="329274800">
<div class="post_head">
<h1 class="post_subject">Subject</h1>
<a class="post_mail" title="mailto:sage" href="mailto:sage">sage</a>
<span class="poster_name">Bob</span>
<span class="post_time">01/02/26 Вск 04:30:00</span>
<span class="post_num">#78</span>
<span class="post_id"><a href="#329274800">№329274800</a></span>
</div>
<span class="post_comment">
<div class="post_comment_body">  hello  </div>
</span>
</div>
</body></html>"##;

fn text(s: &str) -> Option<String> {
    Some(s.to_string())
}

fn head() -> RawPostHead {
    RawPostHead {
        id_href: text("#123"),
        subject: None,
        name: text("Аноним"),
        mailto: None,
        time: text("time"),
        num: text("#1"),
    }
}

fn comment(body: Vec<ChildNode>) -> RawComment {
    RawComment { blocks: vec![], body: Some(body) }
}

#[test]
fn parse_posts_reads_a_page() {
    let posts = Post::parse_posts(PAGE).unwrap();
    assert_eq!(posts.len(), 2);

    let p = &posts[0];
    assert_eq!(p.id, 329274763);
    assert_eq!(p.subject, None);
    assert_eq!(p.name, None);
    assert_eq!(p.mailto, None);
    assert_eq!(p.time, "01/02/26 Вск 04:27:32");
    assert_eq!(p.num, "#77");
    assert_eq!(p.text, ">>329274893\n>greentext1\ntext1");
    assert_eq!(p.files.len(), 1);
    let f = &p.files[0];
    assert_eq!(f.name_orig, "image.png");
    assert_eq!(f.name_timestamp, "17699092523481.png");
    assert_eq!(f.url_thumb, "https://arhivach.vc/storage/t/acc7f5856bc60ad3bdbd4dc7027e33f9.png");
    assert_eq!(f.url, "https://arhivach.vc/storage/a/cc/acc7f5856bc60ad3bdbd4dc7027e33f9.png");

    let q = &posts[1];
    assert_eq!(q.id, 329274800);
    assert_eq!(q.subject.as_deref(), Some("Subject"));
    assert_eq!(q.name.as_deref(), Some("Bob"));
    assert_eq!(q.mailto.as_deref(), Some("mailto:sage"));
    assert_eq!(q.num, "#78");
    assert_eq!(q.text, "hello");
    assert!(q.files.is_empty());
}

#[test]
fn parse_posts_of_page_without_posts_is_empty() {
    let posts = Post::parse_posts("<html><body><p>nothing</p></body></html>").unwrap();
    assert!(posts.is_empty());
}

#[test]
fn parse_posts_fails_on_post_without_head() {
    let page = r#"<div class="post"><span class="post_comment"><div class="post_comment_body">x</div></span></div>"#;
    match Post::parse_posts(page) {
        Err(Error::MissingElement(name)) => assert_eq!(name, "post_head"),
        other => panic!("unexpected {:?}", other.map(|v| v.len())),
    }
}

#[test]
fn parse_posts_fails_on_bad_id() {
    let page = r##"<div class="post"><div class="post_head"><span class="post_time">t</span><span class="post_num">#1</span><span class="post_id"><a href="#abc">x</a></span></div><span class="post_comment"><div class="post_comment_body">x</div></span></div>"##;
    assert!(matches!(Post::parse_posts(page), Err(Error::ParseInt(_))));
}

#[test]
fn head_with_anonymous_name_has_no_name() {
    let (subject, name, mailto, time, num, id) = Post::parse_post_head(&head()).unwrap();
    assert_eq!(subject, None);
    assert_eq!(name, None);
    assert_eq!(mailto, None);
    assert_eq!(time, "time");
    assert_eq!(num, "#1");
    assert_eq!(id, 123);
}

#[test]
fn head_errors_come_in_order() {
    let mut h = head();
    h.id_href = text("123");
    assert!(matches!(Post::parse_post_head(&h), Err(Error::MissingElement("post id"))));
    let mut h = head();
    h.id_href = None;
    assert!(matches!(Post::parse_post_head(&h), Err(Error::MissingElement("post id"))));
    let mut h = head();
    h.id_href = text("#99999999999");
    assert!(matches!(Post::parse_post_head(&h), Err(Error::ParseInt(_))));
    let mut h = head();
    h.time = None;
    h.num = None;
    assert!(matches!(Post::parse_post_head(&h), Err(Error::MissingElement("post_time"))));
    let mut h = head();
    h.num = None;
    assert!(matches!(Post::parse_post_head(&h), Err(Error::MissingElement("post_num"))));
}

#[test]
fn image_block_fields() {
    let block = RawImageBlock {
        title: text("402.2 Кб, 800 x 532\nimage.png\n17699142349880.png"),
        thumb_src: text("/storage/t/83c2.thumb"),
        href: text("https://i.arhivach.vc/storage/a/x.mp4"),
    };
    let f: File = Post::parse_post_image_block(&block);
    assert_eq!(f.name_orig, "image.png");
    assert_eq!(f.name_timestamp, "17699142349880.png");
    assert_eq!(f.url_thumb, "https://arhivach.vc/storage/t/83c2.thumb");
    assert_eq!(f.url, "https://i.arhivach.vc/storage/a/x.mp4");
}

#[test]
fn image_block_without_anything() {
    let block = RawImageBlock { title: None, thumb_src: None, href: None };
    let f = Post::parse_post_image_block(&block);
    assert_eq!(f.name_orig, "unnamed");
    assert_eq!(f.name_timestamp, "unnamed");
    assert_eq!(f.url_thumb, "");
    assert_eq!(f.url, "");
}

#[test]
fn image_block_relative_link_gets_site() {
    let block = RawImageBlock { title: text("one line"), thumb_src: None, href: text("/storage/a/y.png") };
    let f = Post::parse_post_image_block(&block);
    assert_eq!(f.name_orig, "unnamed");
    assert_eq!(f.url, "https://arhivach.vc/storage/a/y.png");
}

#[test]
fn comment_body_example() {
    let nodes = vec![
        ChildNode::Text("\n    ".to_string()),
        ChildNode::Element { name: "a".to_string(), text: ">>329274893".to_string() },
        ChildNode::Element { name: "br".to_string(), text: String::new() },
        ChildNode::Element { name: "span".to_string(), text: ">greentext1".to_string() },
        ChildNode::Element { name: "br".to_string(), text: String::new() },
        ChildNode::Text("text1\n".to_string()),
        ChildNode::Other,
    ];
    assert_eq!(Post::parse_post_comment_body(&nodes), ">>329274893\n>greentext1\ntext1");
}

#[test]
fn comment_without_body_fails() {
    let c = RawComment { blocks: vec![], body: None };
    assert!(matches!(Post::parse_post_comment(&c), Err(Error::MissingElement("post_comment_body"))));
}

#[test]
fn post_errors() {
    let raw = RawPost { head: None, comment: Some(comment(vec![])) };
    assert!(matches!(Post::parse_post(&raw), Err(Error::MissingElement("post_head"))));
    let raw = RawPost { head: Some(head()), comment: None };
    assert!(matches!(Post::parse_post(&raw), Err(Error::MissingElement("post_comment"))));
}

#[test]
fn raw_posts_stop_at_first_failure() {
    let good = RawPost { head: Some(head()), comment: Some(comment(vec![ChildNode::Text("hi".to_string())])) };
    let bad = RawPost { head: None, comment: None };
    let good2 = RawPost { head: Some(head()), comment: Some(comment(vec![])) };
    assert!(matches!(
        Post::from_raw_posts(&vec![good, bad, good2]),
        Err(Error::MissingElement("post_head"))
    ));
    let good = RawPost { head: Some(head()), comment: Some(comment(vec![ChildNode::Text("hi".to_string())])) };
    let posts = Post::from_raw_posts(&vec![good]).unwrap();
    assert_eq!(posts.len(), 1);
    assert_eq!(posts[0].text, "hi");
}

#[test]
fn post_display() {
    let posts = Post::parse_posts(PAGE).unwrap();
    assert_eq!(
        posts[0].display(),
        "Аноним 01/02/26 Вск 04:27:32 #77 ID:329274763\n[Files: 1]\n  - image.png [17699092523481.png]\n  url:   https://arhivach.vc/storage/a/cc/acc7f5856bc60ad3bdbd4dc7027e33f9.png\n  thumb: https://arhivach.vc/storage/t/acc7f5856bc60ad3bdbd4dc7027e33f9.png\n>>329274893\n>greentext1\ntext1"
    );
    assert_eq!(
        posts[1].display(),
        "Bob (mailto:sage) 01/02/26 Вск 04:30:00 #78 ID:329274800\nSubject\nhello"
    );
}

#[test]
fn file_display() {
    let f = File {
        name_orig: "videolol.mp4".to_string(),
        name_timestamp: "17699100670710.mp4".to_string(),
        url_thumb: "T".to_string(),
        url: "U".to_string(),
    };
    assert_eq!(f.display(), "videolol.mp4 [17699100670710.mp4]\n  url:   U\n  thumb: T");
}
