use rgi::bounded::{FrequencyPenalty, MaxTokens, Stop, Temperature, TopLogProbs, TopP};
use rgi::message::{FunctionParameters, Message, Parameter, ResponseFormat, StreamOptions, Tool,
    ToolChoice};
use rgi::request::{AssemblyError, Chat, ChatOptions, Messages, Model, Turn, completion_request,
    message_vec};

fn parse(bytes: Vec<u8>) -> serde_json::Value {
    serde_json::from_slice(&bytes).expect("the serializer must emit valid JSON")
}

fn keys_of(v: &serde_json::Value) -> Vec<String> {
    v.as_object().unwrap().keys().cloned().collect()
}

#[test]
fn named_tool_choice_takes_the_nested_function_shape() {
    let v = parse(ToolChoice::Function(String::from("foo")).to_json().to_bytes());
    let expected: serde_json::Value =
        serde_json::from_str(r#"{"type":"function","function":{"name":"foo"}}"#).unwrap();
    assert_eq!(v, expected);
}

#[test]
fn bare_tool_choices_are_bare_strings() {
    assert_eq!(parse(ToolChoice::NoTools.to_json().to_bytes()), serde_json::Value::String(String::from("none")));
    assert_eq!(parse(ToolChoice::Auto.to_json().to_bytes()), serde_json::Value::String(String::from("auto")));
    assert_eq!(parse(ToolChoice::Required.to_json().to_bytes()), serde_json::Value::String(String::from("required")));
}

#[test]
fn message_roles_and_optional_name() {
    let m = Message::System { content: String::from("be brief"), name: None };
    let v = parse(m.to_json().to_bytes());
    assert_eq!(keys_of(&v), vec!["content", "role"]);
    assert_eq!(v["role"], "system");
    assert_eq!(v["content"], "be brief");

    let m = Message::User { content: String::from("hi"), name: Some(String::from("ada")) };
    let v = parse(m.to_json().to_bytes());
    assert_eq!(keys_of(&v), vec!["content", "name", "role"]);
    assert_eq!(v["name"], "ada");

    let m = Message::Assistant { content: String::from("hello"), name: None };
    let v = parse(m.to_json().to_bytes());
    assert_eq!(v["role"], "assistant");

    let m = Message::Tool { content: String::from("42"), tool_call_id: String::from("call_7") };
    let v = parse(m.to_json().to_bytes());
    assert_eq!(keys_of(&v), vec!["content", "role", "tool_call_id"]);
    assert_eq!(v["role"], "tool");
    assert_eq!(v["tool_call_id"], "call_7");
}

#[test]
fn unset_options_leave_no_keys_behind() {
    let chat = Chat::assemble(
        String::from("m"),
        vec![Message::User { content: String::from("q"), name: None }],
        ChatOptions::default(),
    )
    .unwrap();
    let v = parse(chat.to_bytes());
    assert_eq!(keys_of(&v), vec!["messages", "model"]);
}

#[test]
fn default_chat_sets_stream_false_and_stock_model() {
    let chat = Chat::default();
    let v = parse(chat.to_bytes());
    assert_eq!(keys_of(&v), vec!["messages", "model", "stream"]);
    assert_eq!(v["model"], "deepseek/deepseek-r1-distill-llama-70b");
    assert_eq!(v["stream"], false);
    assert_eq!(v["messages"].as_array().unwrap().len(), 0);
}

#[test]
fn two_turn_request_has_exactly_messages_and_model() {
    let chat = Chat::assemble(
        String::from("x"),
        vec![
            Message::System { content: String::from("You are a helpful assistant."), name: None },
            Message::User { content: String::from("2+2?"), name: None },
        ],
        ChatOptions::default(),
    )
    .unwrap();
    let v = parse(chat.to_bytes());
    assert_eq!(keys_of(&v), vec!["messages", "model"]);
    assert_eq!(v["model"], "x");
    let msgs = v["messages"].as_array().unwrap();
    assert_eq!(msgs.len(), 2);
    assert_eq!(msgs[0]["role"], "system");
    assert_eq!(msgs[0]["content"], "You are a helpful assistant.");
    assert_eq!(msgs[1]["role"], "user");
    assert_eq!(msgs[1]["content"], "2+2?");
}

#[test]
fn empty_conversation_is_refused() {
    let r = Chat::assemble(String::from("m"), Vec::new(), ChatOptions::default());
    assert!(matches!(r, Err(AssemblyError::EmptyMessages)));
    let r = Chat::assemble(
        String::from("m"),
        vec![Message::User { content: String::from("q"), name: None }],
        ChatOptions::default(),
    );
    assert!(r.is_ok());
}

#[test]
fn set_options_appear_with_their_values() {
    let options = ChatOptions {
        frequency_penalty: Some(FrequencyPenalty::new(-50).unwrap()),
        max_tokens: Some(MaxTokens::new(4000).unwrap()),
        presence_penalty: Some(rgi::bounded::PresencePenalty::new(25).unwrap()),
        response_format: Some(ResponseFormat::JsonObject),
        stop: Some(Stop::new(vec![String::from("</think>")]).unwrap()),
        stream: Some(true),
        stream_options: Some(StreamOptions { include_usage: Some(true) }),
        temperature: Some(Temperature::new(130).unwrap()),
        top_p: Some(TopP::new(95).unwrap()),
        tools: None,
        tool_choice: Some(ToolChoice::Auto),
        logprobs: Some(true),
        top_logprobs: Some(TopLogProbs::new(0).unwrap()),
    };
    let chat = Chat::assemble(
        String::from("m"),
        vec![Message::User { content: String::from("q"), name: None }],
        options,
    )
    .unwrap();
    let v = parse(chat.to_bytes());
    assert_eq!(v["frequency_penalty"].as_f64().unwrap(), -0.5);
    assert_eq!(v["max_tokens"], 4000);
    assert_eq!(v["presence_penalty"].as_f64().unwrap(), 0.25);
    assert_eq!(v["response_format"], "json_object");
    assert_eq!(v["stop"].as_array().unwrap().len(), 1);
    assert_eq!(v["stop"][0], "</think>");
    assert_eq!(v["stream"], true);
    assert_eq!(v["stream_options"]["include_usage"], true);
    assert_eq!(v["temperature"].as_f64().unwrap(), 1.3);
    assert_eq!(v["top_p"].as_f64().unwrap(), 0.95);
    assert_eq!(v["tool_choice"], "auto");
    assert_eq!(v["logprobs"], true);
    assert_eq!(v["top_logprobs"], 0);
}

#[test]
fn empty_stop_list_is_omitted() {
    let options = ChatOptions { stop: Some(Stop::new(Vec::new()).unwrap()), ..ChatOptions::default() };
    let chat = Chat::assemble(
        String::from("m"),
        vec![Message::User { content: String::from("q"), name: None }],
        options,
    )
    .unwrap();
    let v = parse(chat.to_bytes());
    assert_eq!(keys_of(&v), vec!["messages", "model"]);
}

#[test]
fn string_content_is_escaped_and_round_trips() {
    let tricky = String::from("a \"quote\" and a \\ backslash,\na newline,\ta tab, \u{1} a control, caf\u{e9} \u{1f600}");
    let chat = Chat::assemble(
        String::from("m\u{fc}"),
        vec![Message::User { content: tricky.clone(), name: None }],
        ChatOptions::default(),
    )
    .unwrap();
    let v = parse(chat.to_bytes());
    assert_eq!(v["messages"][0]["content"], serde_json::Value::String(tricky));
    assert_eq!(v["model"], "m\u{fc}");
}

#[test]
fn tool_declaration_takes_the_adjacent_tag_shape() {
    let tool = Tool::Function {
        description: String::from("Get the current weather in a location"),
        name: String::from("weather_get"),
        parameters: FunctionParameters::Object {
            properties: vec![
                (
                    String::from("location"),
                    Parameter {
                        type_: String::from("string"),
                        description: String::from("The city and state"),
                    },
                ),
            ],
            required: vec![String::from("location")],
        },
    };
    let options = ChatOptions {
        tools: Some(vec![tool]),
        tool_choice: Some(ToolChoice::Function(String::from("weather_get"))),
        ..ChatOptions::default()
    };
    let chat = Chat::assemble(
        String::from("m"),
        vec![Message::User { content: String::from("weather?"), name: None }],
        options,
    )
    .unwrap();
    let v = parse(chat.to_bytes());
    let t = &v["tools"][0];
    assert_eq!(t["type"], "function");
    assert_eq!(t["function"]["name"], "weather_get");
    assert_eq!(t["function"]["description"], "Get the current weather in a location");
    assert_eq!(t["function"]["parameters"]["type"], "object");
    assert_eq!(t["function"]["parameters"]["properties"]["location"]["type"], "string");
    assert_eq!(t["function"]["parameters"]["required"][0], "location");
    assert_eq!(v["tool_choice"]["function"]["name"], "weather_get");
}

#[test]
fn message_vec_orders_system_before_turns() {
    let ms = Messages {
        system: Some(String::from("sys")),
        turns: vec![Turn::User(String::from("a")), Turn::Assistant(String::from("b"))],
    };
    let flat = message_vec(&ms);
    assert_eq!(flat.len(), 3);
    assert!(matches!(&flat[0], Message::System { content, .. } if content == "sys"));
    assert!(matches!(&flat[1], Message::User { content, .. } if content == "a"));
    assert!(matches!(&flat[2], Message::Assistant { content, .. } if content == "b"));

    let no_sys = Messages { system: None, turns: vec![Turn::User(String::from("a"))] };
    assert_eq!(message_vec(&no_sys).len(), 1);
}

#[test]
fn completion_request_streams_off_with_no_tuning() {
    let model = Model {
        base_url: String::from("http://host"),
        model: String::from("m1"),
        key: String::from("SECRET-REDACTED"),
    };
    let ms = Messages { system: None, turns: vec![Turn::User(String::from("q"))] };
    let chat = completion_request(&model, &ms);
    let v = parse(chat.to_bytes());
    assert_eq!(keys_of(&v), vec!["messages", "model", "stream"]);
    assert_eq!(v["model"], "m1");
    assert_eq!(v["stream"], false);
}

#[test]
fn small_and_extreme_hundredth_values_render_exactly() {
    let options = ChatOptions {
        temperature: Some(Temperature::new(5).unwrap()),
        frequency_penalty: Some(FrequencyPenalty::new(-200).unwrap()),
        top_p: Some(TopP::new(0).unwrap()),
        ..ChatOptions::default()
    };
    let chat = Chat::assemble(
        String::from("m"),
        vec![Message::User { content: String::from("q"), name: None }],
        options,
    )
    .unwrap();
    let v = parse(chat.to_bytes());
    assert_eq!(v["temperature"].as_f64().unwrap(), 0.05);
    assert_eq!(v["frequency_penalty"].as_f64().unwrap(), -2.0);
    assert_eq!(v["top_p"].as_f64().unwrap(), 0.0);
}
