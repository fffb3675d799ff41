use agixt_sdk::client::Registration;
use agixt_sdk::http::Method;
use agixt_sdk::json::Json;
use agixt_sdk::AGiXTSDK;
use agixt_sdk::Error;

fn pair(name: &str, value: &str) -> (String, String) {
    (name.to_string(), value.to_string())
}

fn text_member(name: &str, value: &str) -> (String, Json) {
    (name.to_string(), Json::String(value.to_string()))
}

#[test]
fn test_new_client() {
    let client = AGiXTSDK::new(None, None, false);
    assert_eq!(client.base_uri(), "http://localhost:7437");
    assert!(!client.verbose());
}

#[test]
fn test_new_client_with_options() {
    let client = AGiXTSDK::new(
        Some("https://api.example.com/".to_string()),
        Some("test-key".to_string()),
        true,
    );
    assert_eq!(client.base_uri(), "https://api.example.com");
    assert!(client.verbose());
}

#[test]
fn new_client_keeps_key_as_authorization() {
    let client = AGiXTSDK::new(None, Some("test-key".to_string()), false);
    assert_eq!(client.authorization(), Some("test-key"));
    assert_eq!(
        client.headers(),
        vec![pair("content-type", "application/json"), pair("authorization", "test-key")]
    );
}

#[test]
fn new_client_without_key_has_no_authorization() {
    let client = AGiXTSDK::new(None, None, false);
    assert_eq!(client.authorization(), None);
    assert_eq!(client.headers(), vec![pair("content-type", "application/json")]);
}

#[test]
fn base_uri_never_ends_in_slash() {
    let cases = vec![
        ("https://x.test/", "https://x.test"),
        ("https://x.test", "https://x.test"),
        ("https://x.test///", "https://x.test"),
        ("https://x.test/api/", "https://x.test/api"),
        ("/", ""),
        ("", ""),
    ];
    for (given, kept) in cases {
        let client = AGiXTSDK::new(Some(given.to_string()), None, false);
        assert_eq!(client.base_uri(), kept);
        assert!(!client.base_uri().ends_with('/'));
    }
}

#[test]
fn bearer_prefix_is_stripped_once_in_any_case() {
    let cases = vec![
        ("Bearer abc", "abc"),
        ("bearer abc", "abc"),
        ("BEARER abc", "abc"),
        ("bEaReR abc", "abc"),
        ("Bearer Bearer abc", "Bearer abc"),
        ("Bearer ", ""),
        ("abc", "abc"),
        ("Bearerabc", "Bearerabc"),
        ("xBearer abc", "xBearer abc"),
        ("Bearer", "Bearer"),
    ];
    for (given, kept) in cases {
        let client = AGiXTSDK::new(None, Some(given.to_string()), false);
        assert_eq!(client.authorization(), Some(kept));
    }
}

#[test]
fn key_that_cannot_be_a_header_is_not_kept() {
    let client = AGiXTSDK::new(None, Some("Bearer a\nb".to_string()), false);
    assert_eq!(client.authorization(), None);
    let client = AGiXTSDK::new(None, Some("a\u{7f}b".to_string()), false);
    assert_eq!(client.authorization(), None);
    let client = AGiXTSDK::new(None, Some("a\u{1}".to_string()), false);
    assert_eq!(client.authorization(), None);
}

#[test]
fn key_with_tab_or_letters_past_ascii_is_kept() {
    let client = AGiXTSDK::new(None, Some("a\tb".to_string()), false);
    assert_eq!(client.authorization(), Some("a\tb"));
    let client = AGiXTSDK::new(None, Some("cl\u{e9}".to_string()), false);
    assert_eq!(client.authorization(), Some("cl\u{e9}"));
}

#[test]
fn set_credential_replaces_or_leaves() {
    let mut client = AGiXTSDK::new(None, Some("first".to_string()), false);
    assert!(client.set_credential("second"));
    assert_eq!(client.authorization(), Some("second"));
    assert!(!client.set_credential("bad\r\nvalue"));
    assert_eq!(client.authorization(), Some("second"));
}

#[test]
fn login_request_is_post_with_headers() {
    let client = AGiXTSDK::new(Some("https://x.test/".to_string()), Some("k".to_string()), false);
    let request = client.login("user@example.com", "123456");
    assert_eq!(request.method, Method::Post);
    assert_eq!(request.url, "https://x.test/v1/login");
    assert_eq!(
        request.headers,
        vec![pair("content-type", "application/json"), pair("authorization", "k")]
    );
    assert!(request.query.is_empty());
    assert_eq!(
        request.body,
        Some(Json::Object(vec![
            text_member("email", "user@example.com"),
            text_member("token", "123456"),
        ]))
    );
}

#[test]
fn login_with_magic_link_stores_token() {
    let mut client = AGiXTSDK::new(None, None, false);
    let body = r#"{"detail":"Log in at https://x.test/verify?token=abc123"}"#;
    let token = client.login_response(200, body).unwrap();
    assert_eq!(token, Some("abc123".to_string()));
    assert_eq!(client.authorization(), Some("abc123"));
    let request = client.get_agents();
    assert_eq!(
        request.headers,
        vec![pair("content-type", "application/json"), pair("authorization", "abc123")]
    );
    let request = client.get_providers();
    assert!(request.headers.contains(&pair("authorization", "abc123")));
}

#[test]
fn login_replaces_earlier_credential() {
    let mut client = AGiXTSDK::new(None, Some("old".to_string()), false);
    let body = r#"{"detail":"https://x.test/?token=new"}"#;
    assert_eq!(client.login_response(200, body).unwrap(), Some("new".to_string()));
    assert_eq!(client.authorization(), Some("new"));
}

#[test]
fn login_token_ends_at_next_marker() {
    let mut client = AGiXTSDK::new(None, None, false);
    let body = r#"{"detail":"https://x.test/?token=abc&other_token=def"}"#;
    let token = client.login_response(200, body).unwrap();
    assert_eq!(token, Some("abc&other_".to_string()));
    assert_eq!(client.authorization(), Some("abc&other_"));
}

#[test]
fn login_token_that_cannot_be_a_header_is_returned_but_not_stored() {
    let mut client = AGiXTSDK::new(None, Some("old".to_string()), false);
    let body = "{\"detail\":\"https://x.test/?token=a\\nb\"}";
    let token = client.login_response(200, body).unwrap();
    assert_eq!(token, Some("a\nb".to_string()));
    assert_eq!(client.authorization(), Some("old"));
}

#[test]
fn login_without_magic_link_yields_nothing() {
    let mut client = AGiXTSDK::new(None, Some("old".to_string()), false);
    assert_eq!(client.login_response(200, r#"{"detail":"welcome"}"#).unwrap(), None);
    assert_eq!(client.login_response(200, r#"{"detail":"token=abc"}"#).unwrap(), None);
    assert_eq!(client.login_response(200, r#"{"detail":42}"#).unwrap(), None);
    assert_eq!(client.login_response(200, r#"{"other":"?token=abc"}"#).unwrap(), None);
    assert_eq!(client.login_response(200, r#"["?token=abc"]"#).unwrap(), None);
    assert_eq!(client.authorization(), Some("old"));
}

#[test]
fn login_failure_leaves_credential() {
    let mut client = AGiXTSDK::new(None, Some("old".to_string()), false);
    let body = r#"{"detail":"https://x.test/?token=new"}"#;
    let error = client.login_response(401, body).unwrap_err();
    assert_eq!(error, Error::ApiError { status: 401, message: body.to_string() });
    assert_eq!(client.authorization(), Some("old"));
    assert!(matches!(client.login_response(200, "not json"), Err(Error::JsonError(_))));
    assert_eq!(client.authorization(), Some("old"));
}

#[test]
fn process_login_response_reads_document() {
    let mut client = AGiXTSDK::new(None, None, false);
    let doc = Json::Object(vec![text_member("detail", "go to /?token=t1")]);
    assert_eq!(client.process_login_response(&doc).unwrap(), Some("t1".to_string()));
    assert_eq!(client.authorization(), Some("t1"));
    let doc = Json::Object(vec![text_member("detail", "?token=")]);
    assert_eq!(client.process_login_response(&doc).unwrap(), Some(String::new()));
    assert_eq!(client.authorization(), Some(""));
}

#[test]
fn register_user_request() {
    let client = AGiXTSDK::new(None, Some("k".to_string()), false);
    let request = client.register_user("user@example.com", "John", "Doe");
    assert_eq!(request.method, Method::Post);
    assert_eq!(request.url, "http://localhost:7437/v1/user");
    assert_eq!(request.headers, client.headers());
    assert_eq!(
        request.body,
        Some(Json::Object(vec![
            text_member("email", "user@example.com"),
            text_member("first_name", "John"),
            text_member("last_name", "Doe"),
        ]))
    );
}

#[test]
fn registration_with_enrolment_goes_on_to_login() {
    let mut client = AGiXTSDK::new(None, None, false);
    let uri = "otpauth://totp/AGiXT:user@example.com?secret=JBSWY3DP&issuer=AGiXT";
    let body = format!("{{\"otp_uri\":\"{}\"}}", uri);
    let step = client.register_user_response("user@example.com", 200, &body).unwrap();
    let expected_login = client.login("user@example.com", "JBSWY3DP");
    assert_eq!(
        step,
        Registration::Login { otp_uri: uri.to_string(), request: expected_login }
    );
    let done = client
        .finish_registration(uri.to_string(), 200, r#"{"detail":"/?token=tok"}"#)
        .unwrap();
    assert_eq!(done, uri);
    assert_eq!(client.authorization(), Some("tok"));
}

#[test]
fn registration_secret_without_ampersand_runs_to_the_end() {
    let client = AGiXTSDK::new(None, None, false);
    let body = r#"{"otp_uri":"otpauth://totp/x?secret=ABC"}"#;
    match client.register_user_response("e", 200, body).unwrap() {
        Registration::Login { request, .. } => assert_eq!(
            request.body,
            Some(Json::Object(vec![text_member("email", "e"), text_member("token", "ABC")]))
        ),
        Registration::Done(_) => panic!("expected a login"),
    }
}

#[test]
fn registration_without_secret_is_an_error() {
    let client = AGiXTSDK::new(None, None, false);
    let body = r#"{"otp_uri":"otpauth://totp/x?issuer=AGiXT"}"#;
    let error = client.register_user_response("e", 200, body).unwrap_err();
    assert_eq!(error, Error::Other("Invalid OTP URI format".to_string()));
}

#[test]
fn registration_without_enrolment_hands_body_back() {
    let client = AGiXTSDK::new(None, None, false);
    let body = r#"{"status":"created"}"#;
    let step = client.register_user_response("e", 200, body).unwrap();
    assert_eq!(step, Registration::Done(body.to_string()));
}

#[test]
fn registration_failures() {
    let client = AGiXTSDK::new(None, None, false);
    assert_eq!(
        client.register_user_response("e", 409, "exists").unwrap_err(),
        Error::ApiError { status: 409, message: "exists".to_string() }
    );
    assert!(matches!(
        client.register_user_response("e", 200, "exists"),
        Err(Error::JsonError(_))
    ));
}

#[test]
fn finish_registration_passes_login_error_on() {
    let mut client = AGiXTSDK::new(None, None, false);
    let error = client.finish_registration("uri".to_string(), 500, "down").unwrap_err();
    assert_eq!(error, Error::ApiError { status: 500, message: "down".to_string() });
    assert_eq!(client.authorization(), None);
}

#[test]
fn user_exists_request_and_replies() {
    let client = AGiXTSDK::new(None, Some("k".to_string()), false);
    let request = client.user_exists("user@example.com");
    assert_eq!(request.method, Method::Get);
    assert_eq!(request.url, "http://localhost:7437/v1/user/exists");
    assert_eq!(request.query, vec![pair("email", "user@example.com")]);
    assert_eq!(
        request.headers,
        vec![pair("content-type", "application/json"), pair("authorization", "k")]
    );
    assert_eq!(request.body, None);
    assert_eq!(client.user_exists_response(200, "true").unwrap(), true);
    assert_eq!(client.user_exists_response(200, "false").unwrap(), false);
    assert!(matches!(
        client.user_exists_response(200, r#"{"exists": true}"#),
        Err(Error::JsonError(_))
    ));
    assert!(matches!(client.user_exists_response(200, "1"), Err(Error::JsonError(_))));
    assert!(matches!(client.user_exists_response(200, "null"), Err(Error::JsonError(_))));
    assert!(matches!(client.user_exists_response(200, "\"true\""), Err(Error::JsonError(_))));
    assert!(matches!(client.user_exists_response(200, ""), Err(Error::JsonError(_))));
    assert_eq!(
        client.user_exists_response(404, "true").unwrap_err(),
        Error::ApiError { status: 404, message: "true".to_string() }
    );
}

#[test]
fn update_and_get_user() {
    let client = AGiXTSDK::new(None, Some("k".to_string()), false);
    let updates = Json::Object(vec![text_member("first_name", "Jane")]);
    let request = client.update_user(updates.clone());
    assert_eq!(request.method, Method::Put);
    assert_eq!(request.url, "http://localhost:7437/v1/user");
    assert_eq!(request.headers, client.headers());
    assert_eq!(request.body, Some(updates));
    let request = client.get_user();
    assert_eq!(request.method, Method::Get);
    assert_eq!(request.url, "http://localhost:7437/v1/user");
    assert_eq!(request.body, None);
    let user = client.get_user_response(200, r#"{"email":"a@b.c"}"#).unwrap();
    assert_eq!(user, Json::Object(vec![text_member("email", "a@b.c")]));
    let user = client.update_user_response(200, r#"{"email":"a@b.c"}"#).unwrap();
    assert_eq!(user.get("email").and_then(|m| m.as_str()), Some("a@b.c"));
}

#[test]
fn any_failure_status_yields_api_error_with_body() {
    let client = AGiXTSDK::new(None, None, false);
    let body = r#"{"detail":"not found"}"#;
    match client.get_agents_response(404, body) {
        Err(Error::ApiError { status, message }) => {
            assert_eq!(status, 404);
            assert_eq!(message, body);
        }
        other => panic!("expected an API error, got {:?}", other),
    }
    for status in [400u16, 401, 403, 404, 422, 500, 503, 599, 999] {
        let expected = Error::ApiError { status, message: body.to_string() };
        assert_eq!(client.parse_response(status, body).unwrap_err(), expected);
        assert_eq!(client.get_user_response(status, body).unwrap_err(), expected);
        assert_eq!(client.delete_agent_response(status, body).unwrap_err(), expected);
        assert_eq!(client.get_providers_response(status, body).unwrap_err(), expected);
        assert_eq!(client.get_conversation_response(status, body).unwrap_err(), expected);
        assert_eq!(
            client.get_agent_id_by_name_response("a", status, body).unwrap_err(),
            expected
        );
    }
}

#[test]
fn status_classes() {
    let client = AGiXTSDK::new(None, None, false);
    assert_eq!(client.parse_response(200, "ok"), Ok(()));
    assert_eq!(client.parse_response(204, ""), Ok(()));
    assert_eq!(client.parse_response(299, "ok"), Ok(()));
    for status in [0u16, 100, 199, 300, 304, 399] {
        assert_eq!(
            client.parse_response(status, "b"),
            Err(Error::ApiError { status, message: "b".to_string() })
        );
    }
}

#[test]
fn example_scenario() {
    let client = AGiXTSDK::new(Some("https://x.test/".to_string()), None, false);
    assert_eq!(client.base_uri(), "https://x.test");
    let request = client.add_agent("bot", None, None, None);
    assert_eq!(request.url, "https://x.test/api/agent");
    let created = client.add_agent_response(200, r#"{"id":"42","name":"bot"}"#).unwrap();
    assert_eq!(created.get("id").and_then(|m| m.as_str()), Some("42"));
    let found = client
        .get_agent_id_by_name_response("missing", 200, r#"{"agents": []}"#)
        .unwrap();
    assert_eq!(found, None);
    let body = r#"{"detail":"not found"}"#;
    match client.get_agent_config_response(404, body) {
        Err(Error::ApiError { status, message }) => {
            assert_eq!(status, 404);
            assert_eq!(message, body);
        }
        other => panic!("expected an API error, got {:?}", other),
    }
}

#[test]
fn every_request_carries_the_credential_after_login() {
    let mut client = AGiXTSDK::new(None, None, false);
    client.login_response(200, r#"{"detail":"/?token=tok"}"#).unwrap();
    let expected = vec![pair("content-type", "application/json"), pair("authorization", "tok")];
    assert_eq!(client.login("e", "o").headers, expected);
    assert_eq!(client.register_user("e", "f", "l").headers, expected);
    assert_eq!(client.user_exists("e").headers, expected);
    assert_eq!(client.get_user().headers, expected);
    assert_eq!(client.get_agents().headers, expected);
    assert_eq!(client.get_conversations(None).headers, expected);
    assert_eq!(client.get_embedders().headers, expected);
    assert_eq!(client.new_conversation_message("r", "m", "c").headers, expected);
}
