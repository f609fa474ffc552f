use d365_odata::number::{decimal_of, parse_u64};
use d365_odata::text::{
    chars_of, find, head_before, includes, is_space_char, joined, same_text, slice, split_on,
    string_of, tail_after, trimmed, without,
};

fn c(s: &str) -> Vec<char> {
    s.chars().collect()
}

#[test]
fn conversions_round_trip() {
    assert_eq!(chars_of("a\u{e9}\u{1f600}"), vec!['a', '\u{e9}', '\u{1f600}']);
    assert_eq!(string_of(&c("a\u{e9}\u{1f600}")), "a\u{e9}\u{1f600}");
    assert_eq!(string_of(&chars_of("")), "");
}

#[test]
fn search_finds_the_first_occurrence() {
    assert_eq!(find(&c("abcabc"), &c("bc")), Some(1));
    assert_eq!(find(&c("abcabc"), &c("abcabc")), Some(0));
    assert_eq!(find(&c("abcabc"), &c("abcabcd")), None);
    assert_eq!(find(&c("abcabc"), &c("")), Some(0));
    assert_eq!(find(&c(""), &c("")), Some(0));
    assert_eq!(find(&c(""), &c("a")), None);
    assert_eq!(find(&c("aab"), &c("ab")), Some(1));
    assert!(includes(&c("xxEntitySetxx"), &c("EntitySet")));
    assert!(!includes(&c("xxEntitySexx"), &c("EntitySet")));
    assert!(same_text(&c("abc"), &c("abc")));
    assert!(!same_text(&c("abc"), &c("abd")));
    assert!(!same_text(&c("abc"), &c("ab")));
    assert_eq!(slice(&c("hello"), 1, 3), c("el"));
}

#[test]
fn white_space_is_the_unicode_set() {
    for ch in [' ', '\t', '\n', '\u{b}', '\u{c}', '\r', '\u{85}', '\u{a0}', '\u{1680}', '\u{2000}', '\u{200a}', '\u{2028}', '\u{2029}', '\u{202f}', '\u{205f}', '\u{3000}'] {
        assert!(is_space_char(ch), "{:?}", ch);
    }
    for ch in ['a', '0', '\u{8}', '\u{e}', '\u{1f}', '\u{200b}', '\u{feff}', '\u{180e}', '\u{0}'] {
        assert!(!is_space_char(ch), "{:?}", ch);
    }
    let mut code: u32 = 0;
    while code <= 0x3100 {
        if let Some(ch) = char::from_u32(code) {
            assert_eq!(is_space_char(ch), ch.is_whitespace(), "{:#x}", code);
        }
        code += 1;
    }
}

#[test]
fn trimming_matches_the_standard_library() {
    for s in ["", " ", "  a  ", "a", "\t\r\n a b \u{3000}", "\u{a0}x", "x\u{85}", "  \u{200b} "] {
        assert_eq!(string_of(&trimmed(&c(s))), s.trim(), "{:?}", s);
    }
}

#[test]
fn splitting_and_joining_are_inverse() {
    for s in ["", "a", ",", "a,b", "a,,b", ",a,", "one,two,three"] {
        let pieces = split_on(&c(s), ',');
        let expected: Vec<Vec<char>> = s.split(',').map(c).collect();
        assert_eq!(pieces, expected, "{:?}", s);
        assert_eq!(string_of(&joined(&pieces, ',')), s);
    }
    assert_eq!(joined(&Vec::new(), '&'), c(""));
    assert_eq!(joined(&vec![c("a"), c(""), c("b")], '&'), c("a&&b"));
}

#[test]
fn removal_takes_every_occurrence_from_the_left() {
    for (s, pat) in [("Edm.String", "Edm."), ("Collection(Edm.Int32)", "Edm."), ("aaa", "aa"), ("ababab", "ab"), ("abc", "x"), ("", "x"), ("xEdmEdm..", "Edm."), ("))(", ")"), ("abc", "")] {
        assert_eq!(string_of(&without(&c(s), &c(pat))), s.replace(pat, ""), "{:?} {:?}", s, pat);
    }
}

#[test]
fn last_and_leading_segments() {
    for s in ["a.b.c", "abc", "", ".", "a.", ".a", "Microsoft.Dynamics.CRM.account"] {
        assert_eq!(string_of(&tail_after(&c(s), '.')), s.split('.').last().unwrap(), "{:?}", s);
    }
    for s in ["a/b/c/d", "a/b/c", "a/b", "", "/", "//", "///", "////", "https://h/p/q"] {
        for n in 0..5usize {
            let expected = s.split('/').take(n).collect::<Vec<_>>().join("/");
            assert_eq!(string_of(&head_before(&c(s), '/', n)), expected, "{:?} {}", s, n);
        }
    }
}

#[test]
fn decimal_text_both_ways() {
    for n in [0u64, 1, 9, 10, 11, 99, 100, 1000, 12345, 4294967295, 4294967296, u64::MAX] {
        assert_eq!(string_of(&decimal_of(n)), n.to_string());
        assert_eq!(parse_u64(&c(&n.to_string())), Some(n));
    }
    for s in ["", "+", "-", "-0", "+0", "0", "00012", "1 ", " 1", "1_000", "0x10", "18446744073709551615", "18446744073709551616", "99999999999999999999", "١٢٣", "1.5", "++1"] {
        assert_eq!(parse_u64(&c(s)), s.parse::<u64>().ok(), "{:?}", s);
    }
}
