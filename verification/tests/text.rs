use texlab::document::DocumentLanguage;
use texlab::text::{
    byte_len, chars_of, join, len_utf16, len_utf8, lines, parse_i32, parse_u32, replace_all,
    slice_is, slice_matches, split, str_eq, string_of, trim, trim_bounds, trim_end_bound,
};

#[test]
fn trim_takes_unicode_white_space_from_both_ends() {
    assert_eq!(trim("  a b \t\n"), "a b");
    assert_eq!(trim("\u{a0}\u{2003}x\u{3000}"), "x");
    assert_eq!(trim(" \r\n "), "");
    assert_eq!(trim(""), "");
    assert_eq!(trim("x"), "x");
    let chars = chars_of(" ab  ");
    assert_eq!(trim_bounds(&chars), (1, 3));
    assert_eq!(trim_end_bound(&chars), 3);
}

#[test]
fn replace_all_goes_from_the_left_without_overlap() {
    assert_eq!(replace_all("a..b....c", "..", "."), "a.b..c");
    assert_eq!(replace_all("aaa", "aa", "b"), "ba");
    assert_eq!(replace_all("abc", "x", "y"), "abc");
    for (text, from, to) in [
        ("abc", "", "-"),
        ("", "", "-"),
        ("", "", ""),
        ("a\u{e9}b", "", "xy"),
        ("abc", "", ""),
        ("", "a", "b"),
        ("aXbXc", "X", ""),
        ("aaaa", "aa", "aaa"),
    ] {
        assert_eq!(replace_all(text, from, to), text.replace(from, to), "{:?} {:?} {:?}", text, from, to);
    }
    assert_eq!(replace_all("abc", "", "-"), "-a-b-c-");
    assert_eq!(replace_all("", "", "-"), "-");
    assert_eq!(replace_all("", "x", "y"), "");
    assert_eq!(replace_all("xyz", "xyz", ""), "");
    assert_eq!(replace_all("ab", "abc", "x"), "ab");
}

#[test]
fn lines_end_at_line_feeds() {
    assert_eq!(lines("a\nb"), vec!["a", "b"]);
    assert_eq!(lines("a\r\nb\n"), vec!["a", "b"]);
    assert_eq!(lines("a\n\nb"), vec!["a", "", "b"]);
    assert_eq!(lines(""), Vec::<String>::new());
    assert_eq!(lines("\n"), vec![""]);
    assert_eq!(lines("a\rb"), vec!["a\rb"]);
    assert_eq!(lines("a\r"), vec!["a\r"]);
    let text = "TY  - JOUR\r\nER  - \r\n\r\nlast";
    let expected: Vec<String> = text.lines().map(str::to_string).collect();
    assert_eq!(lines(text), expected);
}

#[test]
fn split_and_join_are_inverse() {
    assert_eq!(split("2020/1/2", '/'), vec!["2020", "1", "2"]);
    assert_eq!(split("", '/'), vec![""]);
    assert_eq!(split("/", '/'), vec!["", ""]);
    assert_eq!(split("a//b", '/'), vec!["a", "", "b"]);
    assert_eq!(join(&vec!["a".to_string(), "b".to_string(), "c".to_string()], ", "), "a, b, c");
    assert_eq!(join(&vec!["a".to_string()], ", "), "a");
    assert_eq!(join(&vec![], ", "), "");
    assert_eq!(join(&split("x/y/z", '/'), "/"), "x/y/z");
}

#[test]
fn numbers_are_read_as_the_standard_library_reads_them() {
    for text in [
        "0", "7", "007", "+5", "-5", "-0", "+", "-", "", " 1", "1 ", "1_0", "4294967295",
        "4294967296", "99999999999999999999999", "2147483647", "2147483648", "-2147483648",
        "-2147483649", "+-1", "1a", "\u{661}",
    ] {
        assert_eq!(parse_u32(text), text.parse::<u32>().ok(), "u32 of {:?}", text);
        assert_eq!(parse_i32(text), text.parse::<i32>().ok(), "i32 of {:?}", text);
    }
    assert_eq!(parse_u32("4294967295"), Some(u32::MAX));
    assert_eq!(parse_i32("-2147483648"), Some(i32::MIN));
}

#[test]
fn texts_are_compared_and_cut_by_characters() {
    assert!(str_eq("a\u{e9}", "a\u{e9}"));
    assert!(!str_eq("a", "b"));
    let chars = chars_of("h\u{e9}llo");
    assert_eq!(chars.len(), 5);
    assert_eq!(string_of(&chars, 1, 3), "\u{e9}l");
    assert!(slice_is(&chars, 2, 5, "llo"));
    assert!(!slice_is(&chars, 2, 5, "ll"));
    assert!(slice_matches(&chars, 3, &chars_of("lo")));
    assert!(!slice_matches(&chars, 0, &chars_of("he")));
}

#[test]
fn lengths_count_bytes_and_units() {
    assert_eq!(len_utf8('a'), 1);
    assert_eq!(len_utf8('\u{e9}'), 2);
    assert_eq!(len_utf8('\u{20ac}'), 3);
    assert_eq!(len_utf8('\u{1f600}'), 4);
    assert_eq!(len_utf16('\u{20ac}'), 1);
    assert_eq!(len_utf16('\u{1f600}'), 2);
    let text = "a\u{e9}\u{20ac}\u{1f600}";
    assert_eq!(byte_len(text), Some(text.len() as u32));
    assert_eq!(byte_len(""), Some(0));
}

#[test]
fn languages_go_by_extension_in_any_case() {
    assert_eq!(DocumentLanguage::by_extension("tex"), Some(DocumentLanguage::Latex));
    assert_eq!(DocumentLanguage::by_extension("TeX"), Some(DocumentLanguage::Latex));
    assert_eq!(DocumentLanguage::by_extension("sty"), Some(DocumentLanguage::Latex));
    assert_eq!(DocumentLanguage::by_extension("aux"), Some(DocumentLanguage::Latex));
    assert_eq!(DocumentLanguage::by_extension("bib"), Some(DocumentLanguage::Bibtex));
    assert_eq!(DocumentLanguage::by_extension("BIBTEX"), Some(DocumentLanguage::Bibtex));
    assert_eq!(DocumentLanguage::by_extension("log"), Some(DocumentLanguage::BuildLog));
    assert_eq!(DocumentLanguage::by_extension("txt"), None);
    assert_eq!(DocumentLanguage::by_extension(""), None);
    assert_eq!(DocumentLanguage::by_language_id("latex"), Some(DocumentLanguage::Latex));
    assert_eq!(DocumentLanguage::by_language_id("tex"), Some(DocumentLanguage::Latex));
    assert_eq!(DocumentLanguage::by_language_id("bibtex"), Some(DocumentLanguage::Bibtex));
    assert_eq!(DocumentLanguage::by_language_id("LaTeX"), None);
}

#[test]
fn white_space_is_what_the_standard_library_takes_for_it() {
    for code in 0..=0x10ffff_u32 {
        if let Some(c) = char::from_u32(code) {
            assert_eq!(texlab::text::char_is_whitespace(c), c.is_whitespace(), "{:x}", code);
        }
    }
}
