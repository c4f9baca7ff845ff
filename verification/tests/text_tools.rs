use arhivarch_downloader::text::{
    chars_of, decimal_chars, join_chars, last_piece_chars, lines_chars, replace_chars,
    split_chars, str_eq, string_of, trim_chars,
};

fn chars(s: &str) -> Vec<char> {
    s.chars().collect()
}

fn strings(parts: &[Vec<char>]) -> Vec<String> {
    parts.iter().map(|p| p.iter().collect()).collect()
}

#[test]
fn split_keeps_empty_pieces() {
    assert_eq!(strings(&split_chars(&chars("a/b//c/"), '/')), vec!["a", "b", "", "c", ""]);
    assert_eq!(strings(&split_chars(&chars(""), '/')), vec![""]);
}

#[test]
fn join_after_split_gives_back_the_text() {
    for text in ["a\nb\n\nc", "", "\n", "no separator"] {
        let parts = split_chars(&chars(text), '\n');
        assert_eq!(string_of(&join_chars(&parts, &vec!['\n'])), text);
    }
}

#[test]
fn last_piece_is_the_file_name() {
    let name = last_piece_chars(&chars("https://i.arhivach.vc/storage/a/x.png"), '/');
    assert_eq!(string_of(&name), "x.png");
    assert_eq!(string_of(&last_piece_chars(&chars("plain"), '/')), "plain");
    assert_eq!(string_of(&last_piece_chars(&chars("dir/"), '/')), "");
}

#[test]
fn replace_is_left_to_right_without_overlap() {
    let out = replace_chars(&chars("aaa"), &chars("aa"), &chars("b"));
    assert_eq!(string_of(&out), "ba");
    let out = replace_chars(&chars("x{{posts}}y"), &chars("{{posts}}"), &chars("P"));
    assert_eq!(string_of(&out), "xPy");
}

#[test]
fn trim_removes_unicode_white_space_at_both_ends() {
    assert_eq!(string_of(&trim_chars(&chars("\u{a0} \t x y \n\u{3000}"))), "x y");
    assert_eq!(string_of(&trim_chars(&chars("   "))), "");
}

#[test]
fn lines_drop_line_endings() {
    assert_eq!(strings(&lines_chars(&chars("foo\nbar\n\r\nbaz\r"))), vec!["foo", "bar", "", "baz\r"]);
    assert_eq!(strings(&lines_chars(&chars("a\n"))), vec!["a"]);
    assert!(lines_chars(&chars("")).is_empty());
}

#[test]
fn decimal_digits() {
    assert_eq!(string_of(&decimal_chars(0)), "0");
    assert_eq!(string_of(&decimal_chars(329274763)), "329274763");
    assert_eq!(string_of(&decimal_chars(u64::MAX)), u64::MAX.to_string());
}

#[test]
fn strings_compare_by_characters() {
    assert!(str_eq("Аноним", "Аноним"));
    assert!(!str_eq("Аноним", "Аноним "));
    assert_eq!(chars_of("héllo"), vec!['h', 'é', 'l', 'l', 'o']);
}
