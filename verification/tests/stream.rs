use rgi::decode::DecodeError;
use rgi::provider::{Content, Model, ModelRequest, ProviderKind, TokenUsage};
use rgi::request::AssemblyError;
use rgi::stream::{FeedStatus, StreamDecoder};

fn chunk_json(id: &str) -> String {
    format!(
        r#"{{"id":"{}","choices":[{{"finish_reason":"stop","index":0,"message":{{"content":"hi","role":"assistant"}}}}],"created":7,"model":"m","system_fingerprint":"fp","object":"chat.completion.chunk","usage":{{"completion_tokens":1,"prompt_tokens":2,"prompt_cache_hit_tokens":0,"prompt_cache_miss_tokens":2,"total_tokens":3}}}}"#,
        id
    )
}

#[test]
fn one_chunk_then_done() {
    let mut d = StreamDecoder::new();
    let body = format!("data: {}\n\ndata: [DONE]\n\n", chunk_json("c1"));
    let (chunks, status) = d.feed(body.as_bytes());
    assert_eq!(chunks.len(), 1);
    assert_eq!(chunks[0].id, "c1");
    assert_eq!(chunks[0].choices[0].message.content.as_deref(), Some("hi"));
    assert_eq!(status, FeedStatus::Done);
    assert!(d.is_terminated());
    assert!(d.error().is_none());
}

#[test]
fn nothing_after_done_is_read() {
    let mut d = StreamDecoder::new();
    let body = format!("data: [DONE]\n\ndata: {}\n\n", chunk_json("late"));
    let (chunks, status) = d.feed(body.as_bytes());
    assert_eq!(chunks.len(), 0);
    assert_eq!(status, FeedStatus::Done);
    let (chunks, status) = d.feed(format!("data: {}\n\n", chunk_json("later")).as_bytes());
    assert_eq!(chunks.len(), 0);
    assert_eq!(status, FeedStatus::Done);
}

#[test]
fn delimiter_split_across_fragments_still_frames_one_event() {
    let mut d = StreamDecoder::new();
    let first = format!("data: {}\n", chunk_json("c1"));
    let (chunks, status) = d.feed(first.as_bytes());
    assert_eq!(chunks.len(), 0);
    assert_eq!(status, FeedStatus::Active);
    let (chunks, status) = d.feed(b"\n");
    assert_eq!(chunks.len(), 1);
    assert_eq!(chunks[0].id, "c1");
    assert_eq!(status, FeedStatus::Active);
}

#[test]
fn malformed_payload_stops_the_stream_for_good() {
    let mut d = StreamDecoder::new();
    let body = format!(
        "data: {}\n\ndata: {{malformed json}}\n\ndata: {}\n\n",
        chunk_json("ok1"),
        chunk_json("ok2")
    );
    let (chunks, status) = d.feed(body.as_bytes());
    assert_eq!(chunks.len(), 1);
    assert_eq!(chunks[0].id, "ok1");
    assert_eq!(status, FeedStatus::Failed(DecodeError::Syntax));
    assert_eq!(d.error(), Some(DecodeError::Syntax));
    let (chunks, status) = d.feed(format!("data: {}\n\n", chunk_json("ok3")).as_bytes());
    assert_eq!(chunks.len(), 0);
    assert_eq!(status, FeedStatus::Failed(DecodeError::Syntax));
}

#[test]
fn incomplete_chunk_shape_is_a_decode_failure() {
    let mut d = StreamDecoder::new();
    let (chunks, status) = d.feed(b"data: {}\n\n");
    assert_eq!(chunks.len(), 0);
    assert_eq!(status, FeedStatus::Failed(DecodeError::MissingField));
}

#[test]
fn trailing_partial_event_is_held_back() {
    let mut d = StreamDecoder::new();
    let body = format!("data: {}", chunk_json("c1"));
    let (chunks, status) = d.feed(body.as_bytes());
    assert_eq!(chunks.len(), 0);
    assert_eq!(status, FeedStatus::Active);
    assert!(!d.is_terminated());
}

#[test]
fn lines_without_the_data_prefix_are_ignored() {
    let mut d = StreamDecoder::new();
    let body = format!(": keep-alive\nevent: message\ndata: {}\n\n", chunk_json("c1"));
    let (chunks, status) = d.feed(body.as_bytes());
    assert_eq!(chunks.len(), 1);
    assert_eq!(chunks[0].id, "c1");
    assert_eq!(status, FeedStatus::Active);
}

#[test]
fn two_data_lines_in_one_event_are_two_payloads() {
    let mut d = StreamDecoder::new();
    let body = format!("data: {}\ndata: {}\n\n", chunk_json("a"), chunk_json("b"));
    let (chunks, status) = d.feed(body.as_bytes());
    assert_eq!(chunks.len(), 2);
    assert_eq!(chunks[0].id, "a");
    assert_eq!(chunks[1].id, "b");
    assert_eq!(status, FeedStatus::Active);
}

#[test]
fn sentinel_tolerates_surrounding_whitespace() {
    let mut d = StreamDecoder::new();
    let (chunks, status) = d.feed(b"data:   [DONE] \r\n\n");
    assert_eq!(chunks.len(), 0);
    assert_eq!(status, FeedStatus::Done);
}

#[test]
fn invalid_utf8_in_a_payload_is_replaced_not_fatal() {
    let mut d = StreamDecoder::new();
    // Splice a lone 0xFF byte into the id string: an invalid UTF-8 sequence
    // that lossy decoding must turn into the replacement character.
    let raw = chunk_json("cXd");
    let pos = raw.find("cXd").unwrap() + 1;
    let mut bytes: Vec<u8> = Vec::new();
    bytes.extend_from_slice(b"data: ");
    bytes.extend_from_slice(&raw.as_bytes()[..pos]);
    bytes.push(0xFF);
    bytes.extend_from_slice(&raw.as_bytes()[pos + 1..]);
    bytes.extend_from_slice(b"\n\n");
    let (chunks, status) = d.feed(&bytes);
    assert_eq!(status, FeedStatus::Active);
    assert_eq!(chunks.len(), 1);
    assert_eq!(chunks[0].id, format!("c{}d", '\u{fffd}'));
}

#[test]
fn empty_fragment_changes_nothing() {
    let mut d = StreamDecoder::new();
    let (chunks, status) = d.feed(b"");
    assert_eq!(chunks.len(), 0);
    assert_eq!(status, FeedStatus::Active);
}

#[test]
fn provider_builder_requires_messages() {
    let model = Model::anthropic(String::from("a1"), 1024);
    let r = model.request().build();
    assert!(matches!(r, Err(AssemblyError::EmptyMessages)));

    let model = Model::deepseek(String::from("ds"), -256).system_prompt(String::from("be kind"));
    assert_eq!(model.provider, ProviderKind::DeepSeek);
    let req = model
        .request()
        .temperature(70)
        .message(String::from("user"), String::from("hello"));
    let done: ModelRequest = req.build().unwrap();
    assert_eq!(done.messages.len(), 1);
    assert_eq!(done.temperature, Some(70));

    let v: serde_json::Value = serde_json::from_slice(&done.to_json().to_bytes()).unwrap();
    assert_eq!(v["model"], "ds");
    assert_eq!(v["max_tokens"], -256);
    assert_eq!(v["temperature"].as_f64().unwrap(), 0.7);
    assert_eq!(v["system"], "be kind");
    assert_eq!(v["messages"][0]["role"], "user");
}

#[test]
fn get_text_reads_the_first_content_block() {
    let r = rgi::provider::AnthropicResponse {
        content: vec![Content { text: String::from("first") }, Content { text: String::from("second") }],
        usage: TokenUsage { input_tokens: 1, output_tokens: 2 },
    };
    assert_eq!(r.get_text(), Some("first"));
    let empty = rgi::provider::DeepSeekResponse {
        content: Vec::new(),
        usage: TokenUsage { input_tokens: 0, output_tokens: 0 },
    };
    assert_eq!(empty.get_text(), None);
}
