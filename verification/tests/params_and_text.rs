use albion_market::params::{effective_lang, page_limit, page_offset, MAX_PAGE_SIZE};
use albion_market::text::{chars_of, contains_str};

#[test]
fn page_limit_defaults_to_one_hundred() {
    assert_eq!(page_limit(None), 100);
    assert_eq!(MAX_PAGE_SIZE, 100);
}

#[test]
fn page_limit_caps_large_values() {
    assert_eq!(page_limit(Some(101)), 100);
    assert_eq!(page_limit(Some(i64::MAX)), 100);
}

#[test]
fn page_limit_keeps_values_within_cap() {
    assert_eq!(page_limit(Some(100)), 100);
    assert_eq!(page_limit(Some(25)), 25);
    assert_eq!(page_limit(Some(0)), 0);
    assert_eq!(page_limit(Some(-5)), -5);
}

#[test]
fn page_offset_defaults_to_zero() {
    assert_eq!(page_offset(None), 0);
    assert_eq!(page_offset(Some(40)), 40);
    assert_eq!(page_offset(Some(-1)), -1);
}

#[test]
fn lang_defaults_to_en_us() {
    assert_eq!(effective_lang(None), "EN-US");
    assert_eq!(effective_lang(Some("DE-DE".to_string())), "DE-DE");
    assert_eq!(effective_lang(Some(String::new())), "");
}

#[test]
fn chars_of_keeps_unicode_characters() {
    assert_eq!(chars_of("día"), vec!['d', 'í', 'a']);
    assert_eq!(chars_of(""), Vec::<char>::new());
}

#[test]
fn contains_str_matches_std() {
    let cases = [
        ("hourly", "hour"),
        ("ho", "hour"),
        ("", ""),
        ("abc", ""),
        ("", "a"),
        ("day_location", "location"),
        ("locatio", "location"),
        ("weekweek", "kwe"),
        ("día", "ía"),
        ("HOUR", "hour"),
        ("mmonth", "month"),
    ];
    for (h, n) in cases {
        assert_eq!(contains_str(h, n), h.contains(n), "{:?} in {:?}", n, h);
    }
}
