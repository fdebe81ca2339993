use auralogs::text::{
    chars_of, has_https_scheme, is_blank_str, is_whitespace, string_of_prefix, to_ascii_lower,
    trim_trailing_slashes_str, IntoText,
};
use auralogs::time::TimeSpan;

#[test]
fn whitespace_matches_std() {
    for code in 0u32..0x3100 {
        if let Some(c) = char::from_u32(code) {
            assert_eq!(is_whitespace(c), c.is_whitespace(), "{:?}", c);
        }
    }
}

#[test]
fn blank_matches_trim() {
    for s in ["", " ", "\t\n", "a", " a ", "\u{2028}", "\u{200b}"] {
        assert_eq!(is_blank_str(s), s.trim().is_empty(), "{:?}", s);
    }
}

#[test]
fn trailing_slashes_are_trimmed() {
    for s in ["", "/", "///", "https://x.test/", "https://x.test//", "https://x.test/a", "a/ "] {
        assert_eq!(trim_trailing_slashes_str(s), s.trim_end_matches('/'), "{:?}", s);
    }
}

#[test]
fn https_scheme_matches_split_once() {
    for s in [
        "https://a",
        "HTTPS://a",
        " \thttps://a",
        "http://a",
        "https:/a",
        "https",
        "ftp://https://a",
        "httpsx://a",
        "",
        "https:///",
    ] {
        let expected = s
            .trim_start()
            .split_once("://")
            .map(|(scheme, _)| scheme.eq_ignore_ascii_case("https"))
            .unwrap_or(false);
        assert_eq!(has_https_scheme(s), expected, "{:?}", s);
    }
}

#[test]
fn characters_and_prefixes() {
    let v = chars_of("héllo");
    assert_eq!(v, vec!['h', 'é', 'l', 'l', 'o']);
    assert_eq!(string_of_prefix(&v, 2), "hé");
    assert_eq!(to_ascii_lower('Q'), 'q');
    assert_eq!(to_ascii_lower('é'), 'é');
    assert_eq!("abc".into_text(), "abc");
    assert_eq!(String::from("x").into_text(), "x");
    assert_eq!((&String::from("y")).into_text(), "y");
    assert_eq!('z'.into_text(), "z");
    assert_eq!(Box::<str>::from("boxed").into_text(), "boxed");
    assert_eq!(std::borrow::Cow::Borrowed("cow").into_text(), "cow");
    assert_eq!(std::borrow::Cow::<str>::Owned(String::from("owned")).into_text(), "owned");
}

#[test]
fn spans_convert_and_compare() {
    let span = TimeSpan::new(3, 1_500_000_000);
    assert_eq!(span.as_secs(), 4);
    assert_eq!(span.subsec_nanos(), 500_000_000);
    assert_eq!(span.as_nanos(), 4_500_000_000);
    assert_eq!(TimeSpan::from_millis(1500).as_nanos(), 1_500_000_000);
    assert!(TimeSpan::zero().is_zero());
    assert!(!TimeSpan::from_nanos(1).is_zero());
    assert!(TimeSpan::from_secs(1).is_shorter_than(&TimeSpan::from_secs(2)));
    assert!(!TimeSpan::from_secs(2).is_shorter_than(&TimeSpan::from_secs(2)));
    let max = TimeSpan::new(u64::MAX, 999_999_999);
    assert_eq!(max.doubled_up_to(&max), max);
    assert_eq!(
        TimeSpan::from_secs(3).doubled_up_to(&TimeSpan::from_secs(5)),
        TimeSpan::from_secs(5)
    );
}
