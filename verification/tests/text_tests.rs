use runner::text::{
    chars_of, decimal_text, find, has_prefix_ignore_ascii_case, matches_at, push_decimal,
    string_of, trim_bounds, white_space,
};

fn chars(s: &str) -> Vec<char> {
    s.chars().collect()
}

#[test]
fn chars_of_keeps_every_character_in_order() {
    assert_eq!(chars_of("héllo"), vec!['h', 'é', 'l', 'l', 'o']);
    assert_eq!(chars_of(""), Vec::<char>::new());
}

#[test]
fn string_of_takes_the_characters_between_the_bounds() {
    let v = chars("héllo wörld");
    assert_eq!(string_of(&v, 0, 5), "héllo");
    assert_eq!(string_of(&v, 6, 11), "wörld");
    assert_eq!(string_of(&v, 3, 3), "");
}

#[test]
fn matches_at_compares_in_place() {
    let hay = chars("abcabc");
    assert!(matches_at(&hay, &chars("abc"), 0));
    assert!(matches_at(&hay, &chars("abc"), 3));
    assert!(!matches_at(&hay, &chars("abc"), 1));
    assert!(!matches_at(&hay, &chars("abc"), 4));
    assert!(!matches_at(&hay, &chars("abc"), 100));
    assert!(matches_at(&hay, &chars(""), 6));
    assert!(!matches_at(&hay, &chars(""), 7));
    assert!(!matches_at(&chars("ab"), &chars("abc"), 0));
}

#[test]
fn find_gives_the_leftmost_occurrence() {
    assert_eq!(find(&chars("xxModule:aModule:b"), &chars("Module:")), Some(2));
    assert_eq!(find(&chars("abc"), &chars("c")), Some(2));
    assert_eq!(find(&chars("abc"), &chars("d")), None);
    assert_eq!(find(&chars("abc"), &chars("")), Some(0));
    assert_eq!(find(&chars(""), &chars("")), Some(0));
    assert_eq!(find(&chars(""), &chars("a")), None);
    assert_eq!(find(&chars("aab"), &chars("ab")), Some(1));
}

#[test]
fn white_space_agrees_with_the_standard_library() {
    let mut code: u32 = 0;
    while code < 0x11000 {
        if let Some(c) = char::from_u32(code) {
            assert_eq!(white_space(c), c.is_whitespace(), "U+{:04X}", code);
        }
        code += 1;
    }
}

#[test]
fn trim_bounds_agree_with_the_standard_library() {
    for s in [
        "",
        " ",
        "abc",
        "  abc",
        "abc  ",
        "\t a b \n",
        "\u{3000}x\u{a0}",
        " \u{2003}\r\n",
        "a",
        " a",
    ] {
        let v = chars(s);
        let (from, to) = trim_bounds(&v);
        assert!(from <= to && to <= v.len());
        assert_eq!(string_of(&v, from, to), s.trim(), "{:?}", s);
    }
}

#[test]
fn prefix_test_ignores_the_case_of_ascii_letters_only() {
    let pat = chars("module:");
    assert!(has_prefix_ignore_ascii_case(&chars("module:x"), &pat));
    assert!(has_prefix_ignore_ascii_case(&chars("MODULE:x"), &pat));
    assert!(has_prefix_ignore_ascii_case(&chars("MoDuLe:"), &pat));
    assert!(!has_prefix_ignore_ascii_case(&chars("modul:e"), &pat));
    assert!(!has_prefix_ignore_ascii_case(&chars("module"), &pat));
    assert!(!has_prefix_ignore_ascii_case(&chars("módule:x"), &pat));
    assert!(!has_prefix_ignore_ascii_case(&chars("aaaaaaé"), &pat));
    assert!(!has_prefix_ignore_ascii_case(&chars("module\u{1a}x"), &pat));
    assert!(has_prefix_ignore_ascii_case(&chars("anything"), &chars("")));
}

#[test]
fn decimal_text_agrees_with_the_standard_library() {
    for i in [
        0i64,
        1,
        -1,
        9,
        10,
        -10,
        42,
        123,
        1000,
        -987654321,
        i64::MAX,
        i64::MIN,
        i64::MIN + 1,
    ] {
        assert_eq!(decimal_text(i), i.to_string());
    }
    assert_eq!(decimal_text(i64::MIN), "-9223372036854775808");
    assert_eq!(decimal_text(i64::MAX), "9223372036854775807");
}

#[test]
fn push_decimal_appends_to_what_is_there() {
    let mut s = String::from("n=");
    push_decimal(&mut s, 0);
    assert_eq!(s, "n=0");
    push_decimal(&mut s, u64::MAX);
    assert_eq!(s, "n=018446744073709551615");
}
