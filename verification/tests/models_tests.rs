use agixt_sdk::json::Json;
use agixt_sdk::models::read_i32_member;
use agixt_sdk::models::read_i64_member;
use agixt_sdk::models::ChatResponse;
use agixt_sdk::models::Choice;
use agixt_sdk::models::ContentPart;
use agixt_sdk::models::FileUrl;
use agixt_sdk::models::ImageUrl;
use agixt_sdk::models::Message;
use agixt_sdk::models::MessageContent;
use agixt_sdk::models::Tool;
use agixt_sdk::models::Usage;
use agixt_sdk::text::parse_integer;
use agixt_sdk::text::signed_decimal_of;

fn doc(text: &str) -> Json {
    Json::parse(text).unwrap()
}

#[test]
fn parse_integer_reads_decimal_numerals() {
    assert_eq!(parse_integer("0"), Some(0));
    assert_eq!(parse_integer("7"), Some(7));
    assert_eq!(parse_integer("-7"), Some(-7));
    assert_eq!(parse_integer("4096"), Some(4096));
    assert_eq!(parse_integer("007"), Some(7));
    assert_eq!(parse_integer("-0"), Some(0));
    assert_eq!(parse_integer("9223372036854775807"), Some(i64::MAX));
    assert_eq!(parse_integer("-9223372036854775808"), Some(i64::MIN));
}

#[test]
fn parse_integer_refuses_the_rest() {
    for bad in [
        "",
        "-",
        "+1",
        "1.0",
        "1e3",
        " 1",
        "1 ",
        "--1",
        "1-",
        "a",
        "9223372036854775808",
        "-9223372036854775809",
        "99999999999999999999999",
        "\u{661}",
    ] {
        assert_eq!(parse_integer(bad), None, "read {:?}", bad);
    }
}

#[test]
fn integers_survive_writing_and_reading() {
    for i in [0i64, 1, -1, 9, 10, 99, 100, -100, 4096, i64::MAX, i64::MIN, i64::MIN + 1] {
        assert_eq!(parse_integer(&signed_decimal_of(i)), Some(i));
    }
}

#[test]
fn integer_members() {
    let d = doc(r#"{"a":5,"b":-3,"c":1.5,"d":"7","e":3000000000,"f":null}"#);
    assert_eq!(read_i64_member(&d, "a"), Some(5));
    assert_eq!(read_i64_member(&d, "b"), Some(-3));
    assert_eq!(read_i64_member(&d, "c"), None);
    assert_eq!(read_i64_member(&d, "d"), None);
    assert_eq!(read_i64_member(&d, "e"), Some(3000000000));
    assert_eq!(read_i64_member(&d, "f"), None);
    assert_eq!(read_i64_member(&d, "g"), None);
    assert_eq!(read_i32_member(&d, "a"), Some(5));
    assert_eq!(read_i32_member(&d, "e"), None);
    let edge = doc(r#"{"max":2147483647,"min":-2147483648,"over":2147483648,"under":-2147483649}"#);
    assert_eq!(read_i32_member(&edge, "max"), Some(i32::MAX));
    assert_eq!(read_i32_member(&edge, "min"), Some(i32::MIN));
    assert_eq!(read_i32_member(&edge, "over"), None);
    assert_eq!(read_i32_member(&edge, "under"), None);
}

#[test]
fn content_is_told_apart_by_shape() {
    assert_eq!(
        MessageContent::from_json(&doc(r#""hello""#)),
        Some(MessageContent::Text("hello".to_string()))
    );
    assert_eq!(
        MessageContent::from_json(&doc(r#"[{"text":"hi"},{"image_url":{"url":"http://i"}}]"#)),
        Some(MessageContent::Structured(vec![
            ContentPart { text: Some("hi".to_string()), image_url: None, file_url: None },
            ContentPart {
                text: None,
                image_url: Some(ImageUrl { url: "http://i".to_string() }),
                file_url: None,
            },
        ]))
    );
    assert_eq!(MessageContent::from_json(&doc("[]")), Some(MessageContent::Structured(vec![])));
    assert_eq!(MessageContent::from_json(&doc("5")), None);
    assert_eq!(MessageContent::from_json(&doc("null")), None);
    assert_eq!(MessageContent::from_json(&doc("{}")), None);
    assert_eq!(MessageContent::from_json(&doc(r#"["hi"]"#)), None);
    assert_eq!(MessageContent::from_json(&doc(r#"[{"text":5}]"#)), None);
}

#[test]
fn parts_read_their_optional_members() {
    assert_eq!(
        ContentPart::from_json(&doc("{}")),
        Some(ContentPart { text: None, image_url: None, file_url: None })
    );
    assert_eq!(
        ContentPart::from_json(&doc(r#"{"text":null,"image_url":null,"file_url":null}"#)),
        Some(ContentPart { text: None, image_url: None, file_url: None })
    );
    assert_eq!(
        ContentPart::from_json(&doc(r#"{"file_url":{"url":"f"},"other":1}"#)),
        Some(ContentPart {
            text: None,
            image_url: None,
            file_url: Some(FileUrl { url: "f".to_string() }),
        })
    );
    assert_eq!(ContentPart::from_json(&doc(r#"{"image_url":"http://i"}"#)), None);
    assert_eq!(ContentPart::from_json(&doc(r#"{"image_url":{}}"#)), None);
    assert_eq!(ContentPart::from_json(&doc(r#"{"file_url":{"url":1}}"#)), None);
    assert_eq!(ContentPart::from_json(&doc("[]")), None);
    assert_eq!(ContentPart::from_json(&doc("1")), None);
}

#[test]
fn addresses_read_and_write() {
    assert_eq!(
        ImageUrl::from_json(&doc(r#"{"url":"u"}"#)),
        Some(ImageUrl { url: "u".to_string() })
    );
    assert_eq!(ImageUrl::from_json(&doc(r#"{"uri":"u"}"#)), None);
    assert_eq!(FileUrl::from_json(&doc(r#"{"url":"u"}"#)), Some(FileUrl { url: "u".to_string() }));
    assert_eq!(FileUrl::from_json(&doc(r#""u""#)), None);
    assert_eq!(ImageUrl { url: "u".to_string() }.to_json(), doc(r#"{"url":"u"}"#));
    assert_eq!(FileUrl { url: "u".to_string() }.to_json(), doc(r#"{"url":"u"}"#));
}

#[test]
fn messages_read_and_write() {
    let text = Message {
        role: "user".to_string(),
        content: MessageContent::Text("hi".to_string()),
    };
    assert_eq!(
        text.to_json(),
        Json::Object(vec![
            ("role".to_string(), Json::String("user".to_string())),
            ("content".to_string(), Json::String("hi".to_string())),
        ])
    );
    assert_eq!(Message::from_json(&text.to_json()), Some(text));
    let parts = Message {
        role: "user".to_string(),
        content: MessageContent::Structured(vec![ContentPart {
            text: Some("look".to_string()),
            image_url: Some(ImageUrl { url: "http://i".to_string() }),
            file_url: Some(FileUrl { url: "http://f".to_string() }),
        }]),
    };
    assert_eq!(
        parts.to_json(),
        Json::Object(vec![
            ("role".to_string(), Json::String("user".to_string())),
            (
                "content".to_string(),
                Json::Array(vec![Json::Object(vec![
                    ("text".to_string(), Json::String("look".to_string())),
                    (
                        "image_url".to_string(),
                        Json::Object(vec![(
                            "url".to_string(),
                            Json::String("http://i".to_string())
                        )])
                    ),
                    (
                        "file_url".to_string(),
                        Json::Object(vec![(
                            "url".to_string(),
                            Json::String("http://f".to_string())
                        )])
                    ),
                ])])
            ),
        ])
    );
    assert_eq!(Message::from_json(&parts.to_json()), Some(parts));
    assert_eq!(Message::from_json(&doc(r#"{"role":"user"}"#)), None);
    assert_eq!(Message::from_json(&doc(r#"{"content":"hi"}"#)), None);
    assert_eq!(Message::from_json(&doc(r#"{"role":1,"content":"hi"}"#)), None);
    assert_eq!(Message::from_json(&doc(r#"{"role":"user","content":1}"#)), None);
}

#[test]
fn usage_reads_and_writes() {
    let usage = Usage { prompt_tokens: 12, completion_tokens: 30, total_tokens: 42 };
    assert_eq!(
        usage.to_json(),
        Json::Object(vec![
            ("prompt_tokens".to_string(), Json::Number("12".to_string())),
            ("completion_tokens".to_string(), Json::Number("30".to_string())),
            ("total_tokens".to_string(), Json::Number("42".to_string())),
        ])
    );
    assert_eq!(Usage::from_json(&usage.to_json()), Some(usage));
    assert_eq!(
        Usage::from_json(&doc(r#"{"prompt_tokens":1,"completion_tokens":2,"total_tokens":3}"#)),
        Some(Usage { prompt_tokens: 1, completion_tokens: 2, total_tokens: 3 })
    );
    assert_eq!(Usage::from_json(&doc(r#"{"prompt_tokens":1,"completion_tokens":2}"#)), None);
    assert_eq!(
        Usage::from_json(&doc(r#"{"prompt_tokens":1.5,"completion_tokens":2,"total_tokens":3}"#)),
        None
    );
    assert_eq!(
        Usage::from_json(&doc(
            r#"{"prompt_tokens":1,"completion_tokens":2,"total_tokens":4294967296}"#
        )),
        None
    );
}

#[test]
fn tools_read_and_write() {
    let tool = Tool {
        name: "search".to_string(),
        description: "finds things".to_string(),
        parameters: doc(r#"{"type":"object"}"#),
    };
    let written = tool.to_json();
    assert_eq!(written.get("name"), Some(&Json::String("search".to_string())));
    assert_eq!(written.get("parameters"), Some(&doc(r#"{"type":"object"}"#)));
    assert_eq!(Tool::from_json(&written), Some(tool));
    assert_eq!(Tool::from_json(&doc(r#"{"name":"n","description":"d"}"#)), None);
    assert_eq!(
        Tool::from_json(&doc(r#"{"name":"n","description":"d","parameters":null}"#)),
        Some(Tool {
            name: "n".to_string(),
            description: "d".to_string(),
            parameters: Json::Null
        })
    );
}

#[test]
fn chat_response_reads_and_writes() {
    let body = r#"{
        "id": "chat-1",
        "object": "chat.completion",
        "created": 1700000000,
        "model": "gpt4free",
        "choices": [
            {"index": 0, "message": {"role": "assistant", "content": "hello"}, "finish_reason": "stop"},
            {"index": 1, "message": {"role": "assistant", "content": []}, "finish_reason": "length", "logprobs": {"x": 1}},
            {"index": 2, "message": {"role": "assistant", "content": "x"}, "finish_reason": "stop", "logprobs": null}
        ],
        "usage": {"prompt_tokens": 5, "completion_tokens": 7, "total_tokens": 12}
    }"#;
    let reply = ChatResponse::from_json(&doc(body)).unwrap();
    assert_eq!(reply.id, "chat-1");
    assert_eq!(reply.object, "chat.completion");
    assert_eq!(reply.created, 1700000000);
    assert_eq!(reply.model, "gpt4free");
    assert_eq!(reply.usage, Usage { prompt_tokens: 5, completion_tokens: 7, total_tokens: 12 });
    assert_eq!(
        reply.choices,
        vec![
            Choice {
                index: 0,
                message: Message {
                    role: "assistant".to_string(),
                    content: MessageContent::Text("hello".to_string()),
                },
                finish_reason: "stop".to_string(),
                logprobs: None,
            },
            Choice {
                index: 1,
                message: Message {
                    role: "assistant".to_string(),
                    content: MessageContent::Structured(vec![]),
                },
                finish_reason: "length".to_string(),
                logprobs: Some(doc(r#"{"x":1}"#)),
            },
            Choice {
                index: 2,
                message: Message {
                    role: "assistant".to_string(),
                    content: MessageContent::Text("x".to_string()),
                },
                finish_reason: "stop".to_string(),
                logprobs: None,
            },
        ]
    );
    assert_eq!(ChatResponse::from_json(&reply.to_json()), Some(reply));
}

#[test]
fn chat_response_needs_every_member() {
    let whole = r#"{"id":"i","object":"o","created":1,"model":"m","choices":[],"usage":{"prompt_tokens":1,"completion_tokens":2,"total_tokens":3}}"#;
    assert!(ChatResponse::from_json(&doc(whole)).is_some());
    for broken in [
        r#"{"object":"o","created":1,"model":"m","choices":[],"usage":{"prompt_tokens":1,"completion_tokens":2,"total_tokens":3}}"#,
        r#"{"id":"i","created":1,"model":"m","choices":[],"usage":{"prompt_tokens":1,"completion_tokens":2,"total_tokens":3}}"#,
        r#"{"id":"i","object":"o","model":"m","choices":[],"usage":{"prompt_tokens":1,"completion_tokens":2,"total_tokens":3}}"#,
        r#"{"id":"i","object":"o","created":1,"choices":[],"usage":{"prompt_tokens":1,"completion_tokens":2,"total_tokens":3}}"#,
        r#"{"id":"i","object":"o","created":1,"model":"m","usage":{"prompt_tokens":1,"completion_tokens":2,"total_tokens":3}}"#,
        r#"{"id":"i","object":"o","created":1,"model":"m","choices":[]}"#,
        r#"{"id":"i","object":"o","created":1.5,"model":"m","choices":[],"usage":{"prompt_tokens":1,"completion_tokens":2,"total_tokens":3}}"#,
        r#"{"id":"i","object":"o","created":1,"model":"m","choices":[{}],"usage":{"prompt_tokens":1,"completion_tokens":2,"total_tokens":3}}"#,
        r#"{"id":"i","object":"o","created":1,"model":"m","choices":{},"usage":{"prompt_tokens":1,"completion_tokens":2,"total_tokens":3}}"#,
        r#"{"id":"i","object":"o","created":1,"model":"m","choices":[],"usage":{}}"#,
    ] {
        assert_eq!(ChatResponse::from_json(&doc(broken)), None, "read {}", broken);
    }
}

#[test]
fn choice_needs_its_members() {
    assert_eq!(
        Choice::from_json(&doc(r#"{"message":{"role":"a","content":"c"},"finish_reason":"stop"}"#)),
        None
    );
    assert_eq!(Choice::from_json(&doc(r#"{"index":0,"finish_reason":"stop"}"#)), None);
    assert_eq!(
        Choice::from_json(&doc(r#"{"index":0,"message":{"role":"a","content":"c"}}"#)),
        None
    );
    assert_eq!(
        Choice::from_json(&doc(
            r#"{"index":"0","message":{"role":"a","content":"c"},"finish_reason":"stop"}"#
        )),
        None
    );
}
