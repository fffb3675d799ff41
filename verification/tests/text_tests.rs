use agixt_sdk::http::strip_bearer;
use agixt_sdk::models::default_model;
use agixt_sdk::reply::check_status;
use agixt_sdk::reply::is_success_status;
use agixt_sdk::reply::read_document;
use agixt_sdk::reply::read_map;
use agixt_sdk::reply::read_maps;
use agixt_sdk::reply::read_text;
use agixt_sdk::reply::read_texts;
use agixt_sdk::reply::shape_error;
use agixt_sdk::text::before_first_of;
use agixt_sdk::text::decimal_of;
use agixt_sdk::text::find;
use agixt_sdk::text::matches_at;
use agixt_sdk::text::second_piece_of;
use agixt_sdk::text::signed_decimal_of;
use agixt_sdk::text::trim_end_matches;
use agixt_sdk::Error;

#[test]
fn trim_end_matches_drops_the_whole_run() {
    assert_eq!(trim_end_matches("abc///", '/'), "abc");
    assert_eq!(trim_end_matches("abc", '/'), "abc");
    assert_eq!(trim_end_matches("a/b/", '/'), "a/b");
    assert_eq!(trim_end_matches("///", '/'), "");
    assert_eq!(trim_end_matches("", '/'), "");
    assert_eq!(trim_end_matches("/abc", '/'), "/abc");
    assert_eq!(trim_end_matches("\u{e9}xx", 'x'), "\u{e9}");
}

#[test]
fn find_gives_first_position_in_characters() {
    assert_eq!(find("hello world", "o", 0), Some(4));
    assert_eq!(find("hello world", "o", 5), Some(7));
    assert_eq!(find("hello world", "o", 8), None);
    assert_eq!(find("hello", "hello", 0), Some(0));
    assert_eq!(find("hello", "hello!", 0), None);
    assert_eq!(find("hello", "", 0), Some(0));
    assert_eq!(find("hello", "", 5), Some(5));
    assert_eq!(find("hello", "", 6), None);
    assert_eq!(find("", "", 0), Some(0));
    assert_eq!(find("", "a", 0), None);
    assert_eq!(find("aab", "ab", 0), Some(1));
    assert_eq!(find("\u{e9}\u{e9}ab", "ab", 0), Some(2));
    assert_eq!(find("abc", "c", 100), None);
}

#[test]
fn matches_at_compares_in_place() {
    assert!(matches_at("hello", "ell", 1));
    assert!(!matches_at("hello", "ell", 0));
    assert!(matches_at("hello", "", 5));
    assert!(matches_at("hello", "hello", 0));
    assert!(!matches_at("hello", "lo", 4));
    assert!(!matches_at("hello", "", 6));
    assert!(!matches_at("", "a", 0));
}

#[test]
fn second_piece_stands_between_first_two_markers() {
    assert_eq!(second_piece_of("a=1&b=2", "="), Some("1&b".to_string()));
    assert_eq!(second_piece_of("x?token=abc", "token="), Some("abc".to_string()));
    assert_eq!(second_piece_of("token=", "token="), Some(String::new()));
    assert_eq!(second_piece_of("token=atoken=b", "token="), Some("a".to_string()));
    assert_eq!(second_piece_of("no marker", "token="), None);
    assert_eq!(second_piece_of("", "token="), None);
}

#[test]
fn before_first_cuts_at_the_marker() {
    assert_eq!(before_first_of("abc&def&g", "&"), "abc");
    assert_eq!(before_first_of("abc", "&"), "abc");
    assert_eq!(before_first_of("&abc", "&"), "");
    assert_eq!(before_first_of("", "&"), "");
}

#[test]
fn decimal_numerals() {
    assert_eq!(decimal_of(0), "0");
    assert_eq!(decimal_of(7), "7");
    assert_eq!(decimal_of(10), "10");
    assert_eq!(decimal_of(404), "404");
    assert_eq!(decimal_of(65535), "65535");
    assert_eq!(decimal_of(1234567890), "1234567890");
    assert_eq!(decimal_of(u64::MAX), "18446744073709551615");
    assert_eq!(signed_decimal_of(0), "0");
    assert_eq!(signed_decimal_of(-1), "-1");
    assert_eq!(signed_decimal_of(100), "100");
    assert_eq!(signed_decimal_of(i64::MIN), "-9223372036854775808");
    assert_eq!(signed_decimal_of(i64::MAX), "9223372036854775807");
}

#[test]
fn strip_bearer_takes_one_prefix_off() {
    assert_eq!(strip_bearer("Bearer token"), "token");
    assert_eq!(strip_bearer("bearer token"), "token");
    assert_eq!(strip_bearer("BeArEr token"), "token");
    assert_eq!(strip_bearer("Bearer bearer token"), "bearer token");
    assert_eq!(strip_bearer("Bearer  token"), " token");
    assert_eq!(strip_bearer("Bearer\ttoken"), "Bearer\ttoken");
    assert_eq!(strip_bearer("token Bearer "), "token Bearer ");
    assert_eq!(strip_bearer("Bearer "), "");
    assert_eq!(strip_bearer("Bearer"), "Bearer");
    assert_eq!(strip_bearer(""), "");
}

#[test]
fn success_statuses() {
    assert!(is_success_status(200));
    assert!(is_success_status(201));
    assert!(is_success_status(299));
    assert!(!is_success_status(199));
    assert!(!is_success_status(300));
    assert!(!is_success_status(404));
    assert!(!is_success_status(0));
    assert!(!is_success_status(u16::MAX));
}

#[test]
fn check_status_keeps_status_and_body() {
    assert_eq!(check_status(200, "anything"), Ok(()));
    assert_eq!(
        check_status(404, "{\"detail\":\"not found\"}"),
        Err(Error::ApiError { status: 404, message: "{\"detail\":\"not found\"}".to_string() })
    );
    assert_eq!(
        check_status(500, ""),
        Err(Error::ApiError { status: 500, message: String::new() })
    );
}

#[test]
fn readers_tell_the_three_outcomes_apart() {
    assert!(read_document(200, "[1]").is_ok());
    assert!(matches!(read_document(200, "[1"), Err(Error::JsonError(_))));
    assert!(matches!(read_document(418, "[1]"), Err(Error::ApiError { status: 418, .. })));
    assert_eq!(read_text(200, r#"{"k":"v"}"#, "k").unwrap(), "v");
    assert!(matches!(read_text(200, r#"{"k":"v"}"#, "other"), Err(Error::JsonError(_))));
    assert_eq!(read_texts(200, r#"{"k":["v","w"]}"#, "k").unwrap(), vec!["v", "w"]);
    assert!(matches!(read_texts(200, r#"{"k":"v"}"#, "k"), Err(Error::JsonError(_))));
    assert!(read_map(200, r#"{"k":{}}"#, "k").is_ok());
    assert!(matches!(read_map(200, r#"{"k":[]}"#, "k"), Err(Error::JsonError(_))));
    assert_eq!(read_maps(200, r#"{"k":[{},{}]}"#, "k").unwrap().len(), 2);
    assert!(matches!(read_maps(200, r#"{"k":[{},1]}"#, "k"), Err(Error::JsonError(_))));
    assert!(matches!(read_maps(500, r#"{"k":[]}"#, "k"), Err(Error::ApiError { .. })));
}

#[test]
fn shape_error_names_the_member() {
    match shape_error("message") {
        Error::JsonError(text) => assert!(text.ends_with("message")),
        other => panic!("expected a JSON error, got {:?}", other),
    }
}

#[test]
fn errors_describe_themselves() {
    assert_eq!(
        Error::ApiError { status: 404, message: "not found".to_string() }.describe(),
        "API error (404): not found"
    );
    assert_eq!(
        Error::ApiError { status: 0, message: String::new() }.describe(),
        "API error (0): "
    );
    assert_eq!(
        Error::ApiError { status: 65535, message: "x".to_string() }.describe(),
        "API error (65535): x"
    );
    assert_eq!(
        Error::RequestError("connection refused".to_string()).describe(),
        "Request error: connection refused"
    );
    assert_eq!(Error::JsonError("eof".to_string()).describe(), "JSON error: eof");
    assert_eq!(
        Error::AuthError("denied".to_string()).describe(),
        "Authentication error: denied"
    );
    assert_eq!(Error::InvalidInput("bad".to_string()).describe(), "Invalid input: bad");
    assert_eq!(Error::NotFound("agent".to_string()).describe(), "Not found: agent");
    assert_eq!(Error::Other("boom".to_string()).describe(), "Error: boom");
}

#[test]
fn default_model_name() {
    assert_eq!(default_model(), "gpt4free");
}

#[test]
fn cutting_agrees_with_the_standard_library() {
    let texts = [
        "",
        "a",
        "token=",
        "?token=abc",
        "x?token=abc&y=1",
        "token=atoken=btoken=c",
        "tokentoken==",
        "secret=JBSWY3DP&issuer=AGiXT",
        "otpauth://totp/x?secret=S1&secret=S2",
        "aaa",
        "aaaa",
        "abababab",
        "\u{e9}token=\u{e9}\u{e9}&z",
        "&&",
        "a&",
        "&a",
    ];
    let needles = ["token=", "?token=", "secret=", "&", "a", "aa", "ab", "ba", "\u{e9}"];
    for text in texts {
        for needle in needles {
            assert_eq!(
                second_piece_of(text, needle),
                text.split(needle).nth(1).map(|piece| piece.to_string()),
                "second piece of {:?} by {:?}",
                text,
                needle
            );
            assert_eq!(
                before_first_of(text, needle),
                text.split(needle).next().unwrap(),
                "first piece of {:?} by {:?}",
                text,
                needle
            );
            assert_eq!(
                find(text, needle, 0).is_some(),
                text.contains(needle),
                "{:?} in {:?}",
                needle,
                text
            );
            assert_eq!(
                find(text, needle, 0),
                text.find(needle).map(|at| text[..at].chars().count())
            );
        }
    }
}

#[test]
fn trimming_and_numerals_agree_with_the_standard_library() {
    for text in ["", "/", "//", "a/", "a//", "/a", "a/b/", "http://x.test:80/", "\u{e9}/"] {
        assert_eq!(trim_end_matches(text, '/'), text.trim_end_matches('/'));
    }
    for n in [0u64, 1, 9, 10, 11, 99, 100, 101, 999, 1000, 65535, u64::MAX] {
        assert_eq!(decimal_of(n), n.to_string());
    }
    for i in [0i64, -1, 1, -10, 10, i64::MIN, i64::MAX, 404, -404] {
        assert_eq!(signed_decimal_of(i), i.to_string());
    }
}
