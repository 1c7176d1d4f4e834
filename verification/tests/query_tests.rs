use auth_service::percent::{chars_of, is_percent_decodable};
use auth_service::query::{extract_query_param, find_query_param, split_string};

#[test]
fn split_keeps_empty_pieces() {
    assert_eq!(split_string("a&&b&", '&'), vec!["a", "", "b", ""]);
    assert_eq!(split_string("", '&'), vec![""]);
    assert_eq!(split_string("abc", '&'), vec!["abc"]);
}

#[test]
fn extract_finds_named_param() {
    assert_eq!(extract_query_param("state=abc&code=xyz", "state"), "abc");
    assert_eq!(extract_query_param("state=abc&code=xyz", "code"), "xyz");
}

#[test]
fn extract_defaults_to_root() {
    assert_eq!(extract_query_param("state=abc", "code"), "/");
    assert_eq!(extract_query_param("", "code"), "/");
}

#[test]
fn extract_takes_first_occurrence() {
    assert_eq!(extract_query_param("rd=one&rd=two", "rd"), "one");
}

#[test]
fn extract_skips_piece_without_equals() {
    assert_eq!(extract_query_param("rd&rd=two", "rd"), "two");
    assert_eq!(find_query_param("rd", "rd"), None);
}

#[test]
fn extract_value_stops_at_second_equals() {
    assert_eq!(extract_query_param("rd=a=b", "rd"), "a");
}

#[test]
fn extract_empty_value() {
    assert_eq!(find_query_param("code=&x=1", "code"), Some(String::new()));
}

#[test]
fn extract_needs_exact_name() {
    assert_eq!(find_query_param("xstate=1&stat=2", "state"), None);
}

#[test]
fn decodable_strings() {
    assert!(is_percent_decodable("https%3A%2F%2Fgithub.com"));
    assert!(is_percent_decodable("plain/path"));
    assert!(is_percent_decodable("%+5"));
    assert!(!is_percent_decodable("%2"));
    assert!(!is_percent_decodable("%zz"));
    assert!(!is_percent_decodable("%-5"));
    assert!(!is_percent_decodable("caf\u{e9}"));
}

#[test]
fn chars_of_unicode() {
    assert_eq!(chars_of("a\u{e9}b"), vec!['a', '\u{e9}', 'b']);
}
