use livesplit_components::percent::percent_encode;
use livesplit_components::text::{eq_ignore_ascii_case, join, push_decimal, str_equal};
use livesplit_components::world_record::{ParseResponseError, invalid, push_parameter};

#[test]
fn unreserved_bytes_stay_and_others_become_hex() {
    assert_eq!(percent_encode("Game & Watch"), "Game%20%26%20Watch");
    assert_eq!(percent_encode("AZaz09-._~"), "AZaz09-._~");
    assert_eq!(percent_encode("100%/x?"), "100%25%2Fx%3F");
    assert_eq!(percent_encode(""), "");
}

#[test]
fn multibyte_characters_encode_every_byte() {
    assert_eq!(percent_encode("é"), "%C3%A9");
    assert_eq!(percent_encode("ポケモン"), "%E3%83%9D%E3%82%B1%E3%83%A2%E3%83%B3");
}

#[test]
fn parameters_encode_name_and_value() {
    let mut url = String::from("x?top=1");
    push_parameter(&mut url, "var-a b", "c&d");
    assert_eq!(url, "x?top=1&var-a%20b=c%26d");
}

#[test]
fn ascii_case_is_ignored_but_nothing_else() {
    assert!(eq_ignore_ascii_case("Any%", "aNY%"));
    assert!(!eq_ignore_ascii_case("Any%", "Any"));
    assert!(eq_ignore_ascii_case("Épée", "Épée"));
    assert!(!eq_ignore_ascii_case("épée", "ÉPÉE"));
    assert!(str_equal("abc", "abc"));
    assert!(!str_equal("abc", "abC"));
}

#[test]
fn joining_and_decimals() {
    assert_eq!(join(&vec!["a".to_string(), "b".to_string(), "c".to_string()], " & "), "a & b & c");
    assert_eq!(join(&Vec::new(), " & "), "");
    let mut text = String::from("n=");
    push_decimal(&mut text, 0);
    push_decimal(&mut text, 1207);
    assert_eq!(text, "n=01207");
}

#[test]
fn error_texts() {
    let json = ParseResponseError::Json { message: "expected value".into() };
    assert_eq!(json.to_string(), "The speedrun.com response is not valid JSON: expected value");
    assert_eq!(invalid("oops".into()).to_string(), "oops");
}
