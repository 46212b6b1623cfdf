use benchmarks::encode::percent_encode_str;
use benchmarks::error::{Error, Kind};
use benchmarks::http::{ClientError, HttpResponse};
use benchmarks::text::{contains_str, join_strings, render_u64};

#[test]
fn decimal_rendering_is_exact() {
    assert_eq!(render_u64(0), "0");
    assert_eq!(render_u64(7), "7");
    assert_eq!(render_u64(42), "42");
    assert_eq!(render_u64(10050), "10050");
    assert_eq!(render_u64(u64::MAX), "18446744073709551615");
}

#[test]
fn join_strings_places_separators_between_parts() {
    let parts = vec![String::from("a"), String::from("b"), String::from("c")];
    assert_eq!(join_strings(&parts, ","), "a,b,c");
    assert_eq!(join_strings(&vec![String::from("only")], "\n"), "only");
    assert_eq!(join_strings(&Vec::new(), ","), "");
}

#[test]
fn substring_search_matches_characters() {
    assert!(contains_str("index,ping", "ping"));
    assert!(contains_str("abc", ""));
    assert!(!contains_str("", "a"));
    assert!(!contains_str("abd", "abc"));
    assert!(contains_str("aab", "ab"));
}

#[test]
fn percent_encoding_escapes_with_uppercase_hex() {
    assert_eq!(percent_encode_str("plain"), "plain");
    assert_eq!(percent_encode_str("a b"), "a%20b");
    assert_eq!(percent_encode_str("%"), "%25");
    assert_eq!(percent_encode_str("\u{e9}"), "%C3%A9");
    assert_eq!(percent_encode_str(""), "");
}

#[test]
fn status_errors_succeed_only_in_the_success_range() {
    assert!(HttpResponse::new(200).error_for_status_code().is_ok());
    assert!(HttpResponse::new(204).error_for_status_code().is_ok());
    let err = HttpResponse::new(503).error_for_status_code().unwrap_err();
    assert_eq!(err.message(), "status code 503");
    assert_eq!(HttpResponse::new(503).status_code(), 503);
}

#[test]
fn a_transport_error_becomes_a_response_error() {
    let cause = ClientError::new(String::from("connection reset"));
    let err = Error::from(cause);
    assert!(matches!(err.kind, Kind::Response(_)));
    assert_eq!(err.message(), "connection reset");
}

#[test]
fn run_errors_join_their_messages_line_by_line() {
    let err = Error::run(vec![
        String::from("run 0: status code 500"),
        String::from("run 2: connection refused"),
    ]);
    assert_eq!(
        err.message(),
        "run 0: status code 500\nrun 2: connection refused"
    );
}

#[test]
fn config_errors_carry_their_message() {
    let err = Error::config(String::from("BUILD_ID environment variable not found"));
    assert!(matches!(err.kind(), Kind::Config(_)));
    assert_eq!(err.message(), "BUILD_ID environment variable not found");
}
