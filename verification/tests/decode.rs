use rgi::completion::{Chunk, Delta, FinishReason, Object, ResponseObject, Role, StreamChoice,
    Usage};
use rgi::decode::DecodeError;
use rgi::json::{JsonValue, Member};

fn member(key: &str, value: JsonValue) -> Member {
    Member { key: String::from(key), value }
}

fn usage_tree(completion_tokens: i64) -> JsonValue {
    JsonValue::Obj(vec![
        member("completion_tokens", JsonValue::Int(completion_tokens)),
        member("prompt_tokens", JsonValue::Int(2)),
        member("prompt_cache_hit_tokens", JsonValue::Int(3)),
        member("prompt_cache_miss_tokens", JsonValue::Int(4)),
        member("total_tokens", JsonValue::Int(5)),
    ])
}

fn whole_body() -> String {
    String::from(
        r#"{
        "id": "cmpl-1",
        "choices": [
            {
                "finish_reason": "stop",
                "index": 0,
                "message": {
                    "content": "4",
                    "reasoning_content": "2 and 2 make 4",
                    "role": "assistant"
                }
            }
        ],
        "created": 1700000000,
        "model": "m1",
        "system_fingerprint": "fp_1",
        "object": "chat.completion",
        "usage": {
            "completion_tokens": 3,
            "prompt_tokens": 9,
            "prompt_cache_hit_tokens": 0,
            "prompt_cache_miss_tokens": 9,
            "total_tokens": 12
        }
    }"#,
    )
}

#[test]
fn whole_response_decodes_field_for_field() {
    let o = Object::decode(&whole_body()).unwrap();
    assert_eq!(o.id, "cmpl-1");
    assert_eq!(o.created, 1700000000);
    assert_eq!(o.model, "m1");
    assert_eq!(o.system_fingerprint, "fp_1");
    assert!(matches!(o.object, ResponseObject::ChatCompletion));
    assert_eq!(o.choices.len(), 1);
    let c = &o.choices[0];
    assert!(matches!(c.finish_reason, FinishReason::Stop));
    assert_eq!(c.index, 0);
    assert_eq!(c.message.content.as_deref(), Some("4"));
    assert_eq!(c.message.reasoning_content.as_deref(), Some("2 and 2 make 4"));
    assert!(matches!(c.message.role, Role::Assistant));
    assert_eq!(o.usage.completion_tokens, 3);
    assert_eq!(o.usage.prompt_tokens, 9);
    assert_eq!(o.usage.total_tokens, 12);
}

#[test]
fn unknown_finish_reason_is_an_error_not_a_default() {
    let body = whole_body().replace("\"stop\"", "\"brand_new_reason\"");
    assert!(matches!(Object::decode(&body), Err(DecodeError::UnknownTag)));
}

#[test]
fn every_finish_reason_tag_is_recognized() {
    for (tag, want) in [
        ("stop", FinishReason::Stop),
        ("length", FinishReason::Length),
        ("content_filter", FinishReason::ContentFilter),
        ("tool_calls", FinishReason::ToolCalls),
        ("insufficient_system_resource", FinishReason::InsufficientSystemResource),
    ] {
        let got = FinishReason::from_tag(&String::from(tag)).unwrap();
        assert_eq!(got, want);
    }
    assert!(matches!(
        FinishReason::from_tag(&String::from("STOP")),
        Err(DecodeError::UnknownTag)
    ));
}

#[test]
fn unknown_role_is_an_error() {
    let body = whole_body().replace("\"assistant\"", "\"narrator\"");
    assert!(matches!(Object::decode(&body), Err(DecodeError::UnknownTag)));
}

#[test]
fn missing_field_is_reported() {
    let body = whole_body().replace("\"model\": \"m1\",", "");
    assert!(matches!(Object::decode(&body), Err(DecodeError::MissingField)));
}

#[test]
fn wrong_field_type_is_reported() {
    let body = whole_body().replace("\"created\": 1700000000", "\"created\": \"yesterday\"");
    assert!(matches!(Object::decode(&body), Err(DecodeError::WrongType)));
}

#[test]
fn malformed_body_is_a_syntax_error() {
    assert!(matches!(Object::decode("{not json"), Err(DecodeError::Syntax)));
}

#[test]
fn non_object_body_is_refused() {
    assert!(matches!(Object::decode("[1,2,3]"), Err(DecodeError::NotObject)));
}

#[test]
fn null_and_missing_content_both_read_as_absent() {
    let body = whole_body().replace("\"content\": \"4\",", "\"content\": null,");
    let o = Object::decode(&body).unwrap();
    assert!(o.choices[0].message.content.is_none());

    let body = whole_body().replace("\"content\": \"4\",", "");
    let o = Object::decode(&body).unwrap();
    assert!(o.choices[0].message.content.is_none());
}

#[test]
fn chunk_decodes_with_its_own_object_tag() {
    let body = whole_body().replace("\"chat.completion\"", "\"chat.completion.chunk\"");
    let c = Chunk::decode(&body).unwrap();
    assert!(matches!(c.object, ResponseObject::ChatCompletionChunk));
    assert_eq!(c.id, "cmpl-1");
}

#[test]
fn unknown_object_tag_is_an_error() {
    let body = whole_body().replace("\"chat.completion\"", "\"embedding\"");
    assert!(matches!(Object::decode(&body), Err(DecodeError::UnknownTag)));
}

#[test]
fn usage_decodes_alone() {
    let u = Usage::from_json(&usage_tree(1)).unwrap();
    assert_eq!(u.completion_tokens, 1);
    assert_eq!(u.prompt_cache_hit_tokens, 3);
    assert_eq!(u.prompt_cache_miss_tokens, 4);
    assert_eq!(u.total_tokens, 5);
}

#[test]
fn negative_count_is_the_wrong_type() {
    assert!(matches!(Usage::from_json(&usage_tree(-1)), Err(DecodeError::WrongType)));
}

#[test]
fn stream_choice_reads_an_optional_finish_reason() {
    let v = JsonValue::Obj(vec![
        member("finish_reason", JsonValue::Null),
        member("index", JsonValue::Int(2)),
    ]);
    let c = StreamChoice::from_json(&v).unwrap();
    assert!(c.finish_reason.is_none());
    assert_eq!(c.index, 2);

    let v = JsonValue::Obj(vec![member("index", JsonValue::Int(0))]);
    assert!(StreamChoice::from_json(&v).unwrap().finish_reason.is_none());

    let v = JsonValue::Obj(vec![
        member("finish_reason", JsonValue::Str(String::from("length"))),
        member("index", JsonValue::Int(0)),
    ]);
    assert!(matches!(StreamChoice::from_json(&v).unwrap().finish_reason, Some(FinishReason::Length)));

    let v = JsonValue::Obj(vec![
        member("finish_reason", JsonValue::Str(String::from("later"))),
        member("index", JsonValue::Int(0)),
    ]);
    assert!(matches!(StreamChoice::from_json(&v), Err(DecodeError::UnknownTag)));
}

#[test]
fn delta_reads_all_three_optionals() {
    let v = JsonValue::Obj(vec![
        member("content", JsonValue::Str(String::from("he"))),
        member("reasoning_content", JsonValue::Null),
        member("role", JsonValue::Str(String::from("assistant"))),
    ]);
    let d = Delta::from_json(&v).unwrap();
    assert_eq!(d.content.as_deref(), Some("he"));
    assert!(d.reasoning_content.is_none());
    assert!(matches!(d.role, Some(Role::Assistant)));

    let v = JsonValue::Obj(Vec::new());
    let d = Delta::from_json(&v).unwrap();
    assert!(d.content.is_none() && d.reasoning_content.is_none() && d.role.is_none());
}

#[test]
fn extra_fields_are_ignored() {
    let body = whole_body().replace("\"id\": \"cmpl-1\",", "\"id\": \"cmpl-1\", \"novel\": [1],");
    let o = Object::decode(&body).unwrap();
    assert_eq!(o.id, "cmpl-1");
}

#[test]
fn non_integer_count_is_the_wrong_type() {
    let body = whole_body().replace("\"created\": 1700000000", "\"created\": 1.5");
    assert!(matches!(Object::decode(&body), Err(DecodeError::WrongType)));

    let body = whole_body()
        .replace("\"created\": 1700000000", "\"created\": 99999999999999999999999999");
    assert!(matches!(Object::decode(&body), Err(DecodeError::WrongType)));
}
