use dockrtui::text;

#[test]
fn whitespace_is_what_std_says() {
    for n in 0u32..=0x10ffff {
        if let Some(c) = char::from_u32(n) {
            assert_eq!(text::is_whitespace(c), c.is_whitespace(), "{n:x}");
        }
    }
}

#[test]
fn trims_as_std_does() {
    for s in ["", " ", "a", "  a b\t", "\u{2003}x\u{a0}\r\n", "é "] {
        assert_eq!(text::trim(s), s.trim());
        assert_eq!(text::trim_start(s), s.trim_start());
        assert_eq!(text::trim_end(s), s.trim_end());
    }
}

#[test]
fn splits_as_std_does() {
    for s in ["", "a", "a,b", ",a,,b,", "é,ü"] {
        let want: Vec<String> = s.split(',').map(String::from).collect();
        assert_eq!(text::split(s, ','), want);
    }
    for s in ["", " ", " a  b\tc\n", "one"] {
        let want: Vec<String> = s.split_whitespace().map(String::from).collect();
        assert_eq!(text::split_whitespace(s), want);
    }
    for s in ["", "a", "a\n", "a\r\nb\n\nc", "\n", "a\r", "x\ry\r\n"] {
        let want: Vec<String> = s.lines().map(String::from).collect();
        assert_eq!(text::lines(s), want);
    }
}

#[test]
fn finds_as_std_does() {
    for (hay, needle) in [("", ""), ("abc", ""), ("abc", "bc"), ("abc", "cb"), ("aab", "ab"), ("é!", "!")] {
        assert_eq!(text::contains(hay, needle), hay.contains(needle));
        assert_eq!(text::starts_with(hay, needle), hay.starts_with(needle));
        assert_eq!(text::ends_with(hay, needle), hay.ends_with(needle));
        assert_eq!(
            text::strip_prefix(hay, needle),
            hay.strip_prefix(needle).map(String::from)
        );
    }
}

#[test]
fn cuts_leading_and_trailing_as_std_does() {
    for s in ["", "/", "//a/", "./././b", "a"] {
        assert_eq!(text::trim_start_matches(s, "/"), s.trim_start_matches('/'));
        assert_eq!(text::trim_start_matches(s, "./"), s.trim_start_matches("./"));
        assert_eq!(text::trim_end_matches(s, '/'), s.trim_end_matches('/'));
    }
}

#[test]
fn numbers_are_written_as_std_does() {
    for n in [0u64, 7, 10, 65535, 1_000_000, u64::MAX] {
        assert_eq!(text::number(n), n.to_string());
    }
    for n in [0i64, -1, 42, i64::MIN, i64::MAX] {
        assert_eq!(text::signed_number(n), n.to_string());
    }
}

#[test]
fn joins_and_newlines() {
    let l = vec!["a".to_string(), "".to_string(), "b".to_string()];
    assert_eq!(text::join(&l, "--"), "a----b");
    assert_eq!(text::join(&vec![], "x"), "");
    assert_eq!(text::unix_newlines("a\r\nb\rc\n"), "a\nb\rc\n");
    assert_eq!(text::pop_char("né"), "n");
    assert_eq!(text::pop_char(""), "");
    assert_eq!(text::take_chars("αβγ", 2), "αβ");
    assert_eq!(text::drop_return("x\r\r"), "x\r");
}

#[test]
fn sorted_texts_are_in_order() {
    let l: Vec<String> = ["b", "", "é", "a", "ab", "B"].iter().map(|s| s.to_string()).collect();
    let mut want = l.clone();
    want.sort();
    assert_eq!(text::sort_texts(&l), want);
}
