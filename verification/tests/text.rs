use stream_bus::text::{
    chars_of, decimal_of, has, join_from, longer_than, matches_at, parse_u32, remove_all, rfind,
    same, split_on, split_words, string_of, trim, trim_start, whitespace, width_of,
};

fn chars(text: &str) -> Vec<char> {
    text.chars().collect()
}

#[test]
fn chars_and_back() {
    assert_eq!(chars_of("héllo"), vec!['h', 'é', 'l', 'l', 'o']);
    assert_eq!(string_of(&vec!['a', 'ß', 'c']), "aßc");
    assert_eq!(string_of(&chars_of("")), "");
}

#[test]
fn white_space_is_what_the_standard_says() {
    for c in [' ', '\t', '\n', '\r', '\u{0B}', '\u{0C}', '\u{85}', '\u{A0}', '\u{1680}', '\u{2003}', '\u{2028}', '\u{2029}', '\u{202F}', '\u{205F}', '\u{3000}'] {
        assert!(whitespace(c), "{:?}", c);
    }
    for c in ['a', '0', '_', '\u{200B}', '\u{FEFF}', '\u{1F}', '\u{180E}'] {
        assert!(!whitespace(c), "{:?}", c);
    }
    for code in 0..0x3100u32 {
        if let Some(c) = char::from_u32(code) {
            assert_eq!(whitespace(c), c.is_whitespace(), "{:#x}", code);
        }
    }
}

#[test]
fn widths_in_utf8() {
    assert_eq!(width_of('a'), 1);
    assert_eq!(width_of('é'), 2);
    assert_eq!(width_of('€'), 3);
    assert_eq!(width_of('😀'), 4);
    for c in ['\u{7F}', '\u{80}', '\u{7FF}', '\u{800}', '\u{FFFF}', '\u{10000}'] {
        assert_eq!(width_of(c), c.len_utf8());
    }
    assert!(longer_than(&chars("éé"), 3));
    assert!(!longer_than(&chars("éé"), 4));
    assert!(!longer_than(&chars(""), 0));
}

#[test]
fn split_on_a_space_keeps_empty_pieces() {
    assert_eq!(split_on("a b  c", ' '), vec!["a", "b", "", "c"]);
    assert_eq!(split_on("", ' '), vec![""]);
    assert_eq!(split_on(" x ", ' '), vec!["", "x", ""]);
    assert_eq!(split_on("one", ' '), vec!["one"]);
}

#[test]
fn words_are_stretches_without_white_space() {
    assert_eq!(split_words("  a\tbc \n d  "), vec!["a", "bc", "d"]);
    assert_eq!(split_words(""), Vec::<String>::new());
    assert_eq!(split_words(" \t "), Vec::<String>::new());
    assert_eq!(split_words("one"), vec!["one"]);
    let text = "x\u{A0}y\u{3000}z";
    let expected: Vec<String> = text.split_whitespace().map(String::from).collect();
    assert_eq!(split_words(text), expected);
}

#[test]
fn join_puts_the_separator_between() {
    let pieces = vec!["!cmd".to_string(), "a".to_string(), "".to_string(), "b".to_string()];
    assert_eq!(join_from(&pieces, 1, " "), "a  b");
    assert_eq!(join_from(&pieces, 0, "-"), "!cmd-a--b");
    assert_eq!(join_from(&pieces, 3, " "), "b");
    assert_eq!(join_from(&pieces, 4, " "), "");
    assert_eq!(join_from(&pieces, 9, " "), "");
}

#[test]
fn search_in_text() {
    assert!(has(&chars("see https://x"), &chars("http")));
    assert!(!has(&chars("htt p"), &chars("http")));
    assert!(has(&chars("abc"), &chars("")));
    assert!(!has(&chars("ab"), &chars("abc")));
    assert!(matches_at(&chars("abcabc"), &chars("bc"), 4));
    assert!(!matches_at(&chars("abcabc"), &chars("bc"), 5));
    assert!(!matches_at(&chars("abc"), &chars("abc"), 1));
    assert!(same("a", "a"));
    assert!(!same("a", "A"));
    assert_eq!(rfind(&chars("a.b.c"), '.'), Some(3));
    assert_eq!(rfind(&chars("abc"), '.'), None);
    assert_eq!(rfind(&chars(".abc"), '.'), Some(0));
}

#[test]
fn removal_of_every_occurrence() {
    assert_eq!(remove_all("!voice bob hello", "!voice bob"), " hello");
    assert_eq!(remove_all("aXbXc", "X"), "abc");
    assert_eq!(remove_all("aaa", "aa"), "a");
    assert_eq!(remove_all("abc", ""), "abc");
    assert_eq!(remove_all("abc", "abcd"), "abc");
    assert_eq!(remove_all("!random", "!random"), "");
    for (text, pattern) in [("ababab", "ab"), ("xxabxx", "xab"), ("aXbXc", "Xb"), ("", "a")] {
        assert_eq!(remove_all(text, pattern), text.replace(pattern, ""));
    }
}

#[test]
fn decimal_form() {
    assert_eq!(decimal_of(0), "0");
    assert_eq!(decimal_of(7), "7");
    assert_eq!(decimal_of(1700000000), "1700000000");
    assert_eq!(decimal_of(-45), "-45");
    assert_eq!(decimal_of(i64::MAX), "9223372036854775807");
    assert_eq!(decimal_of(i64::MIN), "-9223372036854775808");
}

#[test]
fn trimming() {
    assert_eq!(trim(&chars("  a b \n")), chars("a b"));
    assert_eq!(trim(&chars("   ")), chars(""));
    assert_eq!(trim(&chars("ab")), chars("ab"));
    assert_eq!(trim_start("  a b "), "a b ");
    assert_eq!(trim_start(""), "");
}

#[test]
fn numbers_are_parsed_as_the_standard_library_does() {
    assert_eq!(parse_u32(&chars("3000")), Some(3000));
    assert_eq!(parse_u32(&chars("+12")), Some(12));
    assert_eq!(parse_u32(&chars("007")), Some(7));
    assert_eq!(parse_u32(&chars("4294967295")), Some(u32::MAX));
    assert_eq!(parse_u32(&chars("4294967296")), None);
    assert_eq!(parse_u32(&chars("99999999999999999999999")), None);
    assert_eq!(parse_u32(&chars("")), None);
    assert_eq!(parse_u32(&chars("+")), None);
    assert_eq!(parse_u32(&chars("-1")), None);
    assert_eq!(parse_u32(&chars("12a")), None);
    assert_eq!(parse_u32(&chars("1 2")), None);
    for text in ["0", "+0", "++1", "42", "4294967295", "4294967296", "1e3", "٣"] {
        assert_eq!(parse_u32(&chars(text)), text.parse::<u32>().ok(), "{}", text);
    }
}
