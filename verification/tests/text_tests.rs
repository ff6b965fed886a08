use systemair_save_tools::text::{
    chars_of, contains_chars, decimal_chars, parse_u16, split_once, str_eq, string_of_chars,
    string_of_str,
};

fn chars(s: &str) -> Vec<char> {
    s.chars().collect()
}

#[test]
fn parse_u16_follows_from_str() {
    assert_eq!(parse_u16(&chars("1001")), Some(1001));
    assert_eq!(parse_u16(&chars("+7")), Some(7));
    assert_eq!(parse_u16(&chars("0065535")), Some(65535));
    assert_eq!(parse_u16(&chars("65536")), None);
    assert_eq!(parse_u16(&chars("")), None);
    assert_eq!(parse_u16(&chars("+")), None);
    assert_eq!(parse_u16(&chars("-1")), None);
    assert_eq!(parse_u16(&chars("12a")), None);
    for s in ["0", "1", "99", "65535", "+3", "x", "", "70000"] {
        assert_eq!(parse_u16(&chars(s)), s.parse::<u16>().ok(), "{s}");
    }
}

#[test]
fn split_once_splits_at_the_first_separator() {
    let sep = chars("..");
    let (l, r) = split_once(&chars("1..2..3"), &sep).unwrap();
    assert_eq!(l, chars("1"));
    assert_eq!(r, chars("2..3"));
    let (l, r) = split_once(&chars(".."), &sep).unwrap();
    assert!(l.is_empty() && r.is_empty());
    assert!(split_once(&chars("1.2"), &sep).is_none());
}

#[test]
fn searching_and_comparing() {
    assert!(contains_chars(&chars("DEMC_RH_HIGHEST"), &chars("RH_H")));
    assert!(contains_chars(&chars("abc"), &chars("")));
    assert!(!contains_chars(&chars("abc"), &chars("abcd")));
    assert!(str_eq("abc", "abc"));
    assert!(!str_eq("abc", "abd"));
    assert_eq!(chars_of("héllo"), chars("héllo"));
}

#[test]
fn building_text() {
    assert_eq!(decimal_chars(0), chars("0"));
    assert_eq!(decimal_chars(30106), chars("30106"));
    assert_eq!(string_of_chars(&chars("abc")), "abc");
    assert_eq!(string_of_chars(&chars("")), "");
    assert_eq!(string_of_str("héllo"), "héllo");
}
