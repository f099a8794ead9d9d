use albion_market::config::{parse_i32, Config};

#[test]
fn parse_i32_matches_std() {
    let cases = [
        "8080", "+5", "-0", "0", "-2147483648", "2147483647", "2147483648", "-2147483649",
        "", "-", "+", "12a", " 1", "1 ", "00012", "-00012", "99999999999999999999", "+-1",
        "--1", "٣", "1_000",
    ];
    for s in cases {
        assert_eq!(parse_i32(s), s.parse::<i32>().ok(), "{:?}", s);
    }
}

#[test]
fn parse_i32_exact_values() {
    assert_eq!(parse_i32("3000"), Some(3000));
    assert_eq!(parse_i32("-2147483648"), Some(i32::MIN));
    assert_eq!(parse_i32("2147483648"), None);
}

#[test]
fn config_from_settings() {
    let c = Config::from_settings(Some("3000".to_string()), Some("postgres://db".to_string()));
    assert_eq!(c, Some(Config { port: 3000, database_url: "postgres://db".to_string() }));
    assert_eq!(Config::from_settings(None, Some("postgres://db".to_string())), None);
    assert_eq!(Config::from_settings(Some("3000".to_string()), None), None);
    assert_eq!(
        Config::from_settings(Some("port".to_string()), Some("postgres://db".to_string())),
        None
    );
}
