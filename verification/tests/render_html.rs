use arhivarch_downloader::file::File;
use arhivarch_downloader::post::Post;
use arhivarch_downloader::render::{
    fill_template, html_escape, render_images, render_page, render_post, render_text_to_html,
    TEMPLATE,
};

fn sample_file() -> File {
    File {
        name_orig: "a.png".to_string(),
        name_timestamp: "123.png".to_string(),
        url_thumb: "https://arhivach.vc/storage/t/x.thumb".to_string(),
        url: "https://i.arhivach.vc/storage/a/x.png".to_string(),
    }
}

fn sample_post() -> Post {
    Post {
        subject: Some("Hi <b>".to_string()),
        name: None,
        mailto: Some("mailto:sage".to_string()),
        time: "01/02/26 Вск 03:13:12".to_string(),
        num: "#5".to_string(),
        id: 42,
        files: vec![],
        text: ">>41\n>quote\nplain & <x>".to_string(),
    }
}

#[test]
fn escape_replaces_the_four_markup_characters() {
    assert_eq!(html_escape("a & b < c > d \" e"), "a &amp; b &lt; c &gt; d &quot; e");
    assert_eq!(html_escape("plain 'text'"), "plain 'text'");
    assert_eq!(html_escape(""), "");
}

#[test]
fn escape_of_concatenation_is_concatenation_of_escapes() {
    let a = "x<y";
    let b = "&\"z";
    let joined = format!("{}{}", a, b);
    assert_eq!(html_escape(&joined), format!("{}{}", html_escape(a), html_escape(b)));
}

#[test]
fn escaped_text_has_no_raw_markup() {
    let e = html_escape("<script>alert(\"x\")</script> & more >");
    assert!(!e.contains('<'));
    assert!(!e.contains('>'));
    assert!(!e.contains('"'));
}

#[test]
fn reply_reference_becomes_link() {
    assert_eq!(
        render_text_to_html(">>41"),
        "<a href=\"#post41\" class=\"reply-link\">&gt;&gt;41</a>"
    );
}

#[test]
fn reply_in_the_middle_of_a_line() {
    assert_eq!(
        render_text_to_html("see >>7 and >>8x"),
        "see <a href=\"#post7\" class=\"reply-link\">&gt;&gt;7</a> and <a href=\"#post8\" class=\"reply-link\">&gt;&gt;8</a>x"
    );
}

#[test]
fn quote_line_becomes_span() {
    assert_eq!(render_text_to_html(">quote"), "<span class=\"quote\">&gt;quote</span>");
}

#[test]
fn double_marker_without_digits_is_a_quote() {
    assert_eq!(render_text_to_html(">>abc"), "<span class=\"quote\">&gt;&gt;abc</span>");
}

#[test]
fn quote_line_with_reply_inside() {
    assert_eq!(
        render_text_to_html(">so >>12"),
        "<span class=\"quote\">&gt;so <a href=\"#post12\" class=\"reply-link\">&gt;&gt;12</a></span>"
    );
}

#[test]
fn lines_are_joined_with_br() {
    assert_eq!(
        render_text_to_html(">>41\n>quote\nplain & <x>"),
        "<a href=\"#post41\" class=\"reply-link\">&gt;&gt;41</a><br>\n<span class=\"quote\">&gt;quote</span><br>\nplain &amp; &lt;x&gt;"
    );
}

#[test]
fn rendering_two_parts_around_a_newline() {
    let a = ">green";
    let b = "x >>3";
    let whole = format!("{}\n{}", a, b);
    assert_eq!(
        render_text_to_html(&whole),
        format!("{}<br>\n{}", render_text_to_html(a), render_text_to_html(b))
    );
}

#[test]
fn empty_text_and_empty_lines() {
    assert_eq!(render_text_to_html(""), "");
    assert_eq!(render_text_to_html("\n"), "<br>\n");
}

#[test]
fn images_of_no_files_are_empty() {
    assert_eq!(render_images(&vec![], true, true), "");
}

#[test]
fn images_link_local_copies_when_downloaded() {
    let html = render_images(&vec![sample_file()], true, true);
    assert_eq!(
        html,
        "  <div class=\"post-images\">\n    <div class=\"post-image\">\n      <a href=\"files/x.png\" target=\"_blank\" title=\"a.png\">\n        <img src=\"thumb/x.thumb\" alt=\"\" loading=\"lazy\">\n      </a>\n      <div class=\"post-image-info\">a.png (<a href=\"https://i.arhivach.vc/storage/a/x.png\" target=\"_blank\" class=\"post-image-link\">o</a>, <a href=\"https://arhivach.vc/storage/t/x.thumb\" target=\"_blank\" class=\"post-image-link\">t</a>)</div>\n    </div>\n  </div>\n"
    );
}

#[test]
fn images_link_remote_urls_when_not_downloaded() {
    let html = render_images(&vec![sample_file()], false, false);
    assert!(html.contains("<a href=\"https://i.arhivach.vc/storage/a/x.png\" target=\"_blank\" title=\"a.png\">"));
    assert!(html.contains("<img src=\"https://arhivach.vc/storage/t/x.thumb\" alt=\"\" loading=\"lazy\">"));
}

#[test]
fn images_with_empty_urls_stay_empty() {
    let f = File {
        name_orig: "n".to_string(),
        name_timestamp: "t".to_string(),
        url_thumb: String::new(),
        url: String::new(),
    };
    let html = render_images(&vec![f], true, true);
    assert!(html.contains("<a href=\"\" target=\"_blank\" title=\"n\">"));
    assert!(html.contains("<img src=\"\" alt=\"\" loading=\"lazy\">"));
}

#[test]
fn post_renders_head_and_body() {
    let html = render_post(&sample_post(), false, false);
    let expected = "<div class=\"post\" id=\"post42\">\n  <div class=\"post-head\">\n    <span class=\"post-subject\">Hi &lt;b&gt;</span>\n    <span class=\"post-name\">[mailto:sage] Аноним</span>\n    <span class=\"post-time\">01/02/26 Вск 03:13:12</span>\n    <span class=\"post-num\">#5</span>\n    <span class=\"post-id\"><a href=\"#post42\">№42</a></span>\n  </div>\n  <div class=\"post-body\">\n    <a href=\"#post41\" class=\"reply-link\">&gt;&gt;41</a><br>\n<span class=\"quote\">&gt;quote</span><br>\nplain &amp; &lt;x&gt;\n  </div>\n</div>\n";
    assert_eq!(html, expected);
}

#[test]
fn post_without_text_or_subject() {
    let p = Post {
        subject: None,
        name: Some("Bob".to_string()),
        mailto: None,
        time: "t".to_string(),
        num: "#1".to_string(),
        id: 7,
        files: vec![],
        text: String::new(),
    };
    let expected = "<div class=\"post\" id=\"post7\">\n  <div class=\"post-head\">\n    <span class=\"post-name\">Bob</span>\n    <span class=\"post-time\">t</span>\n    <span class=\"post-num\">#1</span>\n    <span class=\"post-id\"><a href=\"#post7\">№7</a></span>\n  </div>\n  <div class=\"post-body\">\n  </div>\n</div>\n";
    assert_eq!(render_post(&p, true, true), expected);
}

#[test]
fn page_puts_posts_into_template() {
    let p = sample_post();
    let page = render_page(&[p.clone(), p.clone()], false, false);
    let one = render_post(&p, false, false);
    assert_eq!(page, TEMPLATE.replace("{{posts}}", &format!("{}\n{}", one, one)));
}

#[test]
fn template_is_filled_at_the_marker() {
    let body: Vec<char> = "<p>x</p>".chars().collect();
    assert_eq!(fill_template(&body), TEMPLATE.replace("{{posts}}", "<p>x</p>"));
}
