use z2p::text::{eq_ignore_ascii_case, parse_u16, str_eq, u16_string};

#[test]
fn parse_u16_accepts_digit_strings_in_range() {
    assert_eq!(parse_u16("0"), Some(0));
    assert_eq!(parse_u16("5432"), Some(5432));
    assert_eq!(parse_u16("08000"), Some(8000));
    assert_eq!(parse_u16("65535"), Some(65535));
}

#[test]
fn parse_u16_rejects_everything_else() {
    assert_eq!(parse_u16(""), None);
    assert_eq!(parse_u16("65536"), None);
    assert_eq!(parse_u16("99999999"), None);
    assert_eq!(parse_u16("12a"), None);
    assert_eq!(parse_u16("-1"), None);
    assert_eq!(parse_u16("+1"), None);
    assert_eq!(parse_u16(" 1"), None);
}

#[test]
fn u16_string_renders_decimal() {
    assert_eq!(u16_string(0), "0");
    assert_eq!(u16_string(7), "7");
    assert_eq!(u16_string(5432), "5432");
    assert_eq!(u16_string(65535), "65535");
}

#[test]
fn rendering_then_parsing_comes_back() {
    for n in [0u16, 1, 9, 10, 80, 443, 5432, 8000, 65535] {
        assert_eq!(parse_u16(&u16_string(n)), Some(n));
    }
}

#[test]
fn string_comparisons() {
    assert!(str_eq("database.port", "database.port"));
    assert!(!str_eq("database.port", "database.Port"));
    assert!(!str_eq("abc", "abcd"));
    assert!(eq_ignore_ascii_case("APP__DATABASE__PORT", "app__database__port"));
    assert!(eq_ignore_ascii_case("", ""));
    assert!(!eq_ignore_ascii_case("app_env", "app-env"));
}
