use suzent::text::{parse_u16, trimmed, str_eq, find_sub};

#[test]
fn parse_u16_plain() {
    assert_eq!(parse_u16("54321"), Some(54321));
    assert_eq!(parse_u16("0"), Some(0));
    assert_eq!(parse_u16("00042"), Some(42));
}

#[test]
fn parse_u16_sign_and_limits() {
    assert_eq!(parse_u16("+123"), Some(123));
    assert_eq!(parse_u16("65535"), Some(65535));
    assert_eq!(parse_u16("65536"), None);
    assert_eq!(parse_u16("99999"), None);
}

#[test]
fn parse_u16_rejects_junk() {
    assert_eq!(parse_u16(""), None);
    assert_eq!(parse_u16("+"), None);
    assert_eq!(parse_u16("12a"), None);
    assert_eq!(parse_u16("-1"), None);
    assert_eq!(parse_u16(" 1"), None);
}

#[test]
fn parse_u16_matches_std() {
    for s in ["54321", "+7", "0", "65535", "65536", "081", "9x", ""] {
        assert_eq!(parse_u16(s), s.parse::<u16>().ok(), "input {:?}", s);
    }
}

#[test]
fn trimmed_strips_whitespace() {
    assert_eq!(trimmed(" 1.2.3\n"), "1.2.3");
    assert_eq!(trimmed("1.2.3"), "1.2.3");
    assert_eq!(trimmed("  \t \n"), "");
    assert_eq!(trimmed(""), "");
}

#[test]
fn str_eq_works() {
    assert!(str_eq("abc", "abc"));
    assert!(!str_eq("abc", "abd"));
    assert!(!str_eq("abc", "ab"));
}

#[test]
fn find_sub_first_occurrence() {
    assert_eq!(find_sub("xxabcxxabc", "abc"), Some(2));
    assert_eq!(find_sub("abc", "abcd"), None);
    assert_eq!(find_sub("hello", "zz"), None);
}
