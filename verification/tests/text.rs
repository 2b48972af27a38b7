use zotero_rs::text::{
    char_is_whitespace, chars_of, parse_u64, split_chars, str_eq, trim_matching_char,
    trim_start_matching, trim_whitespace, u64_to_string,
};
use zotero_rs::time::Duration;

fn v(s: &str) -> Vec<char> {
    s.chars().collect()
}

#[test]
fn decimal_text_round_trips() {
    for n in [0u64, 1, 9, 10, 42, 1_000_000, u64::MAX] {
        let text = u64_to_string(n);
        assert_eq!(text, n.to_string());
        assert_eq!(parse_u64(&text), Some(n));
    }
}

#[test]
fn chars_and_equality() {
    assert_eq!(chars_of("aé"), vec!['a', 'é']);
    assert!(str_eq("abc", "abc"));
    assert!(!str_eq("abc", "abd"));
    assert!(!str_eq("ab", "abc"));
}

#[test]
fn trims_like_str() {
    assert_eq!(trim_whitespace(&v("\t a b \u{3000}\n")), v("a b"));
    assert_eq!(trim_whitespace(&v("   ")), v(""));
    assert_eq!(trim_matching_char(&v("\"\"x\"y\"\""), '"'), v("x\"y"));
    assert_eq!(trim_start_matching(&v("rel=rel=next"), &v("rel=")), v("next"));
    assert_eq!(trim_start_matching(&v("next"), &v("")), v("next"));
    assert!(char_is_whitespace('\u{85}'));
    assert!(!char_is_whitespace('x'));
}

#[test]
fn splits_like_str() {
    assert_eq!(split_chars(&v("a,b,,c"), ','), vec![v("a"), v("b"), v(""), v("c")]);
    assert_eq!(split_chars(&v(""), ','), vec![v("")]);
    assert_eq!(split_chars(&v(","), ','), vec![v(""), v("")]);
}

#[test]
fn durations() {
    let d = Duration::from_millis(1500);
    assert_eq!(d.as_secs(), 1);
    assert_eq!(d.subsec_nanos(), 500_000_000);
    assert_eq!(d.as_nanos(), 1_500_000_000);
    assert_eq!(Duration::from_secs(2).saturating_mul(3), Duration::from_secs(6));
    assert_eq!(Duration::max_value().saturating_mul(2), Duration::max_value());
    assert_eq!(Duration::from_secs(5).min(Duration::from_millis(300)), Duration::from_millis(300));
    assert_eq!(Duration::from_nanos_u128(2_000_000_001).subsec_nanos(), 1);
}
