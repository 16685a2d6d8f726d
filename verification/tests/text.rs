use legacy_template::audio::number_audio;
use legacy_template::text::{
    chars_eq, chars_of, contains, push_chars, push_decimal, replace_all, replace_first, trim,
};
use legacy_template::{parse_style, sep2, sep_even_odd, LegacySpec, Style, TemplateError};

fn cs(s: &str) -> Vec<char> {
    s.chars().collect()
}

fn st(v: &[char]) -> String {
    v.iter().collect()
}

#[test]
fn chars_of_keeps_unicode() {
    assert_eq!(chars_of("a文b"), vec!['a', '文', 'b']);
}

#[test]
fn push_chars_appends() {
    let mut s = "ab".to_string();
    push_chars(&mut s, &cs("cd"));
    assert_eq!(s, "abcd");
}

#[test]
fn replace_all_is_leftmost_non_overlapping() {
    assert_eq!(st(&replace_all(&cs("aaaa"), &cs("aa"), &cs("b"))), "bb");
    assert_eq!(st(&replace_all(&cs("aaa"), &cs("aa"), &cs("b"))), "ba");
    assert_eq!(st(&replace_all(&cs("xyz"), &cs("q"), &cs("b"))), "xyz");
    assert_eq!(st(&replace_all(&cs(""), &cs("q"), &cs("b"))), "");
}

#[test]
fn replace_first_only_first() {
    assert_eq!(st(&replace_first(&cs("a-b-c"), &cs("-"), &cs("+"))), "a+b-c");
    assert_eq!(st(&replace_first(&cs("abc"), &cs("x"), &cs("+"))), "abc");
    assert_eq!(st(&replace_first(&cs("abc"), &cs(""), &cs("+"))), "+abc");
}

#[test]
fn contains_finds_substrings() {
    assert!(contains(&cs("hello"), &cs("ll")));
    assert!(contains(&cs("hello"), &cs("")));
    assert!(!contains(&cs("hello"), &cs("lo!")));
    assert!(contains(&cs(""), &cs("")));
}

#[test]
fn trim_matches_std() {
    for s in ["  a b  ", "\u{85}x\u{205f}", "", "   ", "no", "\u{200b}z\u{200b}"] {
        assert_eq!(st(&trim(&cs(s))), s.trim());
    }
}

#[test]
fn decimal_matches_display() {
    for n in [0usize, 7, 10, 99, 100, 12345, usize::MAX] {
        let mut out = Vec::new();
        push_decimal(&mut out, n);
        assert_eq!(st(&out), n.to_string());
    }
}

#[test]
fn chars_eq_compares() {
    assert!(chars_eq(&cs("ab"), &cs("ab")));
    assert!(!chars_eq(&cs("ab"), &cs("abc")));
    assert!(!chars_eq(&cs("ab"), &cs("ac")));
}

#[test]
fn audio_numbering() {
    let (m, n) = number_audio(&cs("<a{idx}> and <a{idx}>"), &cs("<a{idx}>"), 9);
    assert_eq!(st(&m), "<a9> and <a10>");
    assert_eq!(n, 11);
    let (m, n) = number_audio(&cs("<a>"), &cs("<a>"), 1);
    assert_eq!(st(&m), "<a>");
    assert_eq!(n, 1);
    let (m, n) = number_audio(&cs("abc"), &cs(""), 4);
    assert_eq!(st(&m), "abc");
    assert_eq!(n, 4);
}

#[test]
fn style_names() {
    assert_eq!(parse_style("CHATML"), Some(Style::ChatMl));
    assert_eq!(parse_style("DeepSeekVL2"), Some(Style::DeepSeekVl2));
    assert_eq!(parse_style("DEEPSEEKVL2"), None);
    assert_eq!(parse_style(""), None);
}

#[test]
fn separators() {
    let spec = LegacySpec { sep: "S".to_string(), sep2: Some("T".to_string()), ..Default::default() };
    assert_eq!(sep_even_odd(&spec, "T", 0), "S");
    assert_eq!(sep_even_odd(&spec, "T", 3), "T");
    assert_eq!(sep2(&spec, "X"), Ok("T"));
    let bare = LegacySpec::default();
    assert_eq!(sep2(&bare, "X"), Err(TemplateError::MissingSep2 { style: "X".to_string() }));
}

#[test]
fn default_spec_tokens() {
    let spec = LegacySpec::default();
    assert_eq!(spec.image_token, "<image>");
    assert_eq!(spec.audio_token, "<audio>");
    assert!(spec.sep2.is_none() && spec.stop_str.is_none());
    assert_eq!(spec.style, "");
}
