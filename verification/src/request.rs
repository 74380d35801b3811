//! The chat request: its aggregate type, the assembler that refuses an
//! empty conversation, and the exact wire serialization in which every
//! unset optional field is omitted.

use vstd::prelude::*;
use crate::bounded::{FrequencyPenalty, MaxTokens, PresencePenalty, Stop, Temperature, TopLogProbs,
    TopP};
use crate::json::{spec_member_seq, spec_value_seq, obj_push, arr_push, spec_json_bytes, JsonValue,
    Member, SpecJson};
use crate::message::{spec_message_json, spec_response_format_json, spec_stream_options_json,
    spec_tool_choice_json, spec_tool_json, Message, ResponseFormat, StreamOptions, Tool,
    ToolChoice};

verus! {

/// Why a request could not be assembled.
#[derive(Debug, Clone, Copy, PartialEq, Eq, Structural)]
pub enum AssemblyError {
    EmptyMessages,
}

/// A wire-ready chat request: the conversation, the model identifier, and
/// the optional tuning fields, each omitted from the wire form when unset.
#[derive(Debug, Clone)]
pub struct Chat {
    pub messages: Vec<Message>,
    pub model: String,
    pub frequency_penalty: Option<FrequencyPenalty>,
    pub max_tokens: Option<MaxTokens>,
    pub presence_penalty: Option<PresencePenalty>,
    pub response_format: Option<ResponseFormat>,
    pub stop: Option<Stop>,
    pub stream: Option<bool>,
    pub stream_options: Option<StreamOptions>,
    pub temperature: Option<Temperature>,
    pub top_p: Option<TopP>,
    pub tools: Option<Vec<Tool>>,
    pub tool_choice: Option<ToolChoice>,
    pub logprobs: Option<bool>,
    pub top_logprobs: Option<TopLogProbs>,
}

/// The optional tuning fields of a request, each unset by default.
#[derive(Debug, Clone)]
pub struct ChatOptions {
    pub frequency_penalty: Option<FrequencyPenalty>,
    pub max_tokens: Option<MaxTokens>,
    pub presence_penalty: Option<PresencePenalty>,
    pub response_format: Option<ResponseFormat>,
    pub stop: Option<Stop>,
    pub stream: Option<bool>,
    pub stream_options: Option<StreamOptions>,
    pub temperature: Option<Temperature>,
    pub top_p: Option<TopP>,
    pub tools: Option<Vec<Tool>>,
    pub tool_choice: Option<ToolChoice>,
    pub logprobs: Option<bool>,
    pub top_logprobs: Option<TopLogProbs>,
}

impl ChatOptions {
    /// Every optional field unset.
    pub open spec fn spec_unset(self) -> bool {
        &&& self.frequency_penalty is None
        &&& self.max_tokens is None
        &&& self.presence_penalty is None
        &&& self.response_format is None
        &&& self.stop is None
        &&& self.stream is None
        &&& self.stream_options is None
        &&& self.temperature is None
        &&& self.top_p is None
        &&& self.tools is None
        &&& self.tool_choice is None
        &&& self.logprobs is None
        &&& self.top_logprobs is None
    }
}

impl Default for ChatOptions {
    fn default() -> (r: Self)
        ensures
            r.spec_unset(),
    {
        ChatOptions {
            frequency_penalty: None,
            max_tokens: None,
            presence_penalty: None,
            response_format: None,
            stop: None,
            stream: None,
            stream_options: None,
            temperature: None,
            top_p: None,
            tools: None,
            tool_choice: None,
            logprobs: None,
            top_logprobs: None,
        }
    }
}

/// The members of the wire object, in wire order: the conversation and the
/// model first, then each optional field that is set. An unset field
/// contributes no member at all, and a stop list is also omitted when it
/// is empty.
pub open spec fn spec_chat_members_front(c: Chat) -> Seq<(Seq<char>, SpecJson)> {
    let m = seq![
        (
            "messages"@,
            SpecJson::Arr(c.messages@.map_values(|x: Message| spec_message_json(x))),
        ),
        ("model"@, SpecJson::Str(c.model@)),
    ];
    let m = if c.frequency_penalty is Some {
        m.push(("frequency_penalty"@, SpecJson::Centi(c.frequency_penalty->0.spec_get())))
    } else {
        m
    };
    let m = if c.max_tokens is Some {
        m.push(("max_tokens"@, SpecJson::Int(c.max_tokens->0.spec_get())))
    } else {
        m
    };
    let m = if c.presence_penalty is Some {
        m.push(("presence_penalty"@, SpecJson::Centi(c.presence_penalty->0.spec_get())))
    } else {
        m
    };
    let m = if c.response_format is Some {
        m.push(("response_format"@, spec_response_format_json(c.response_format->0)))
    } else {
        m
    };
    let m = if c.stop is Some && c.stop->0.spec_items().len() > 0 {
        m.push(
            ("stop"@, SpecJson::Arr(c.stop->0.spec_items().map_values(|s: Seq<char>| SpecJson::Str(s)))),
        )
    } else {
        m
    };
    let m = if c.stream is Some {
        m.push(("stream"@, SpecJson::Bool(c.stream->0)))
    } else {
        m
    };
    let m = if c.stream_options is Some {
        m.push(("stream_options"@, spec_stream_options_json(c.stream_options->0)))
    } else {
        m
    };
    m
}

/// The remaining members of the wire object, pushed after the front.
pub open spec fn spec_chat_members(c: Chat) -> Seq<(Seq<char>, SpecJson)> {
    let m = spec_chat_members_front(c);
    let m = if c.temperature is Some {
        m.push(("temperature"@, SpecJson::Centi(c.temperature->0.spec_get())))
    } else {
        m
    };
    let m = if c.top_p is Some {
        m.push(("top_p"@, SpecJson::Centi(c.top_p->0.spec_get())))
    } else {
        m
    };
    let m = if c.tools is Some {
        m.push(("tools"@, SpecJson::Arr(c.tools->0@.map_values(|t: Tool| spec_tool_json(t)))))
    } else {
        m
    };
    let m = if c.tool_choice is Some {
        m.push(("tool_choice"@, spec_tool_choice_json(c.tool_choice->0)))
    } else {
        m
    };
    let m = if c.logprobs is Some {
        m.push(("logprobs"@, SpecJson::Bool(c.logprobs->0)))
    } else {
        m
    };
    let m = if c.top_logprobs is Some {
        m.push(("top_logprobs"@, SpecJson::Int(c.top_logprobs->0.spec_get())))
    } else {
        m
    };
    m
}

/// Wire form of a chat request.
pub open spec fn spec_chat_json(c: Chat) -> SpecJson {
    SpecJson::Obj(spec_chat_members(c))
}

/// With every optional field unset, the wire object holds exactly the
/// `messages` and `model` keys, in that order: an unset field is omitted,
/// not sent as null.
pub proof fn lemma_unset_options_omitted(c: Chat)
    requires
        c.frequency_penalty is None,
        c.max_tokens is None,
        c.presence_penalty is None,
        c.response_format is None,
        c.stop is None,
        c.stream is None,
        c.stream_options is None,
        c.temperature is None,
        c.top_p is None,
        c.tools is None,
        c.tool_choice is None,
        c.logprobs is None,
        c.top_logprobs is None,
    ensures
        spec_chat_json(c) == SpecJson::Obj(
            seq![
                (
                    "messages"@,
                    SpecJson::Arr(c.messages@.map_values(|x: Message| spec_message_json(x))),
                ),
                ("model"@, SpecJson::Str(c.model@)),
            ],
        ),
{
}

/// The wire array of a conversation.
fn messages_to_json(msgs: &Vec<Message>) -> (r: JsonValue)
    ensures
        r@ == SpecJson::Arr(msgs@.map_values(|x: Message| spec_message_json(x))),
{
    let mut out: Vec<JsonValue> = Vec::new();
    let mut i: usize = 0;
    while i < msgs.len()
        invariant
            i <= msgs.len(),
            spec_value_seq(out@) == msgs@.take(i as int).map_values(
                |x: Message| spec_message_json(x),
            ),
        decreases msgs.len() - i,
    {
        arr_push(&mut out, msgs[i].to_json());
        i = i + 1;
        proof {
            assert(msgs@.take(i as int) =~= msgs@.take(i as int - 1).push(msgs@[i as int - 1]));
            assert(spec_value_seq(out@) =~= msgs@.take(i as int).map_values(
                |x: Message| spec_message_json(x),
            ));
        }
    }
    proof {
        assert(msgs@.take(msgs@.len() as int) =~= msgs@);
    }
    JsonValue::Arr(out)
}

/// The wire array of a tool list.
fn tools_to_json(ts: &Vec<Tool>) -> (r: JsonValue)
    ensures
        r@ == SpecJson::Arr(ts@.map_values(|t: Tool| spec_tool_json(t))),
{
    let mut out: Vec<JsonValue> = Vec::new();
    let mut i: usize = 0;
    while i < ts.len()
        invariant
            i <= ts.len(),
            spec_value_seq(out@) == ts@.take(i as int).map_values(|t: Tool| spec_tool_json(t)),
        decreases ts.len() - i,
    {
        arr_push(&mut out, ts[i].to_json());
        i = i + 1;
        proof {
            assert(ts@.take(i as int) =~= ts@.take(i as int - 1).push(ts@[i as int - 1]));
            assert(spec_value_seq(out@) =~= ts@.take(i as int).map_values(
                |t: Tool| spec_tool_json(t),
            ));
        }
    }
    proof {
        assert(ts@.take(ts@.len() as int) =~= ts@);
    }
    JsonValue::Arr(out)
}

/// The wire array of a stop-sequence list.
fn stops_to_json(st: &Stop) -> (r: JsonValue)
    ensures
        r@ == SpecJson::Arr(st.spec_items().map_values(|s: Seq<char>| SpecJson::Str(s))),
{
    let items = st.get();
    let mut out: Vec<JsonValue> = Vec::new();
    let mut i: usize = 0;
    while i < items.len()
        invariant
            i <= items@.len(),
            items@.map_values(|s: String| s@) == st.spec_items(),
            spec_value_seq(out@) == items@.take(i as int).map_values(
                |s: String| SpecJson::Str(s@),
            ),
        decreases items@.len() - i,
    {
        arr_push(&mut out, JsonValue::Str(items[i].clone()));
        i = i + 1;
        proof {
            assert(items@.take(i as int) =~= items@.take(i as int - 1).push(items@[i as int - 1]));
            assert(spec_value_seq(out@) =~= items@.take(i as int).map_values(
                |s: String| SpecJson::Str(s@),
            ));
        }
    }
    proof {
        assert(items@.take(items@.len() as int) =~= items@);
        assert(items@.map_values(|s: String| SpecJson::Str(s@)) =~= st.spec_items().map_values(
            |s: Seq<char>| SpecJson::Str(s),
        ));
    }
    JsonValue::Arr(out)
}

impl Chat {
    /// A request with no conversation yet, the stock model identifier,
    /// streaming off, and every tuning field unset.
    pub fn default() -> (r: Self)
        ensures
            r.messages@.len() == 0,
            r.model@ == "deepseek/deepseek-r1-distill-llama-70b"@,
            r.max_tokens is None,
            r.stream == Some(false),
            r.frequency_penalty is None,
            r.presence_penalty is None,
            r.response_format is None,
            r.stop is None,
            r.stream_options is None,
            r.temperature is None,
            r.top_p is None,
            r.tools is None,
            r.tool_choice is None,
            r.logprobs is None,
            r.top_logprobs is None,
    {
        Chat {
            messages: Vec::new(),
            model: "deepseek/deepseek-r1-distill-llama-70b".to_owned(),
            frequency_penalty: None,
            max_tokens: None,
            presence_penalty: None,
            response_format: None,
            stop: None,
            stream: Some(false),
            stream_options: None,
            temperature: None,
            top_p: None,
            tools: None,
            tool_choice: None,
            logprobs: None,
            top_logprobs: None,
        }
    }

    /// Composes a request from its parts. The conversation must not be
    /// empty; every other part is taken as given, already validated at
    /// construction. The documented advice to set temperature or top-p but
    /// not both is not enforced here.
    pub fn assemble(model: String, messages: Vec<Message>, options: ChatOptions) -> (r: Result<
        Chat,
        AssemblyError,
    >)
        ensures
            match r {
                Ok(c) => {
                    &&& messages@.len() > 0
                    &&& c.messages == messages
                    &&& c.model == model
                    &&& c.frequency_penalty == options.frequency_penalty
                    &&& c.max_tokens == options.max_tokens
                    &&& c.presence_penalty == options.presence_penalty
                    &&& c.response_format == options.response_format
                    &&& c.stop == options.stop
                    &&& c.stream == options.stream
                    &&& c.stream_options == options.stream_options
                    &&& c.temperature == options.temperature
                    &&& c.top_p == options.top_p
                    &&& c.tools == options.tools
                    &&& c.tool_choice == options.tool_choice
                    &&& c.logprobs == options.logprobs
                    &&& c.top_logprobs == options.top_logprobs
                },
                Err(e) => e == AssemblyError::EmptyMessages && messages@.len() == 0,
            },
    {
        if messages.len() == 0 {
            return Err(AssemblyError::EmptyMessages);
        }
        Ok(
            Chat {
                messages,
                model,
                frequency_penalty: options.frequency_penalty,
                max_tokens: options.max_tokens,
                presence_penalty: options.presence_penalty,
                response_format: options.response_format,
                stop: options.stop,
                stream: options.stream,
                stream_options: options.stream_options,
                temperature: options.temperature,
                top_p: options.top_p,
                tools: options.tools,
                tool_choice: options.tool_choice,
                logprobs: options.logprobs,
                top_logprobs: options.top_logprobs,
            },
        )
    }

    /// Builds the front of the wire object: the conversation, the model,
    /// and the optional fields up to the stream options.
    #[verifier::rlimit(100)]
    fn push_front_members(&self, ms: &mut Vec<Member>)
        requires
            old(ms)@.len() == 0,
        ensures
            spec_member_seq(final(ms)@) == spec_chat_members_front(*self),
    {
        let c = self;
        obj_push(ms, "messages", messages_to_json(&c.messages));
        obj_push(ms, "model", JsonValue::Str(c.model.clone()));
        let ghost m0 = seq![
            (
                "messages"@,
                SpecJson::Arr(c.messages@.map_values(|x: Message| spec_message_json(x))),
            ),
            ("model"@, SpecJson::Str(c.model@)),
        ];
        proof {
            assert(spec_member_seq(ms@) =~= m0);
        }
        if let Some(fp) = &c.frequency_penalty {
            obj_push(ms, "frequency_penalty", JsonValue::Centi(fp.get() as i64));
        }
        let ghost m1 = if c.frequency_penalty is Some {
            m0.push(("frequency_penalty"@, SpecJson::Centi(c.frequency_penalty->0.spec_get())))
        } else {
            m0
        };
        assert(spec_member_seq(ms@) == m1);
        if let Some(mt) = &c.max_tokens {
            obj_push(ms, "max_tokens", JsonValue::Int(mt.get() as i64));
        }
        let ghost m2 = if c.max_tokens is Some {
            m1.push(("max_tokens"@, SpecJson::Int(c.max_tokens->0.spec_get())))
        } else {
            m1
        };
        assert(spec_member_seq(ms@) == m2);
        if let Some(pp) = &c.presence_penalty {
            obj_push(ms, "presence_penalty", JsonValue::Centi(pp.get() as i64));
        }
        let ghost m3 = if c.presence_penalty is Some {
            m2.push(("presence_penalty"@, SpecJson::Centi(c.presence_penalty->0.spec_get())))
        } else {
            m2
        };
        assert(spec_member_seq(ms@) == m3);
        if let Some(rf) = &c.response_format {
            obj_push(ms, "response_format", rf.to_json());
        }
        let ghost m4 = if c.response_format is Some {
            m3.push(("response_format"@, spec_response_format_json(c.response_format->0)))
        } else {
            m3
        };
        assert(spec_member_seq(ms@) == m4);
        if let Some(st) = &c.stop {
            if st.len() > 0 {
                obj_push(ms, "stop", stops_to_json(st));
            }
        }
        let ghost m5 = if c.stop is Some && c.stop->0.spec_items().len() > 0 {
            m4.push(
                (
                    "stop"@,
                    SpecJson::Arr(
                        c.stop->0.spec_items().map_values(|s: Seq<char>| SpecJson::Str(s)),
                    ),
                ),
            )
        } else {
            m4
        };
        assert(spec_member_seq(ms@) == m5);
        if let Some(b) = c.stream {
            obj_push(ms, "stream", JsonValue::Bool(b));
        }
        let ghost m6 = if c.stream is Some {
            m5.push(("stream"@, SpecJson::Bool(c.stream->0)))
        } else {
            m5
        };
        assert(spec_member_seq(ms@) == m6);
        if let Some(so) = &c.stream_options {
            obj_push(ms, "stream_options", so.to_json());
        }
        let ghost m7 = if c.stream_options is Some {
            m6.push(("stream_options"@, spec_stream_options_json(c.stream_options->0)))
        } else {
            m6
        };
        assert(spec_member_seq(ms@) == m7);
        proof {
            assert(m7 == spec_chat_members_front(*self));
        }
    }

    /// The wire document of this request.
    #[verifier::rlimit(100)]
    pub fn to_json(&self) -> (r: JsonValue)
        ensures
            r@ == spec_chat_json(*self),
    {
        let c = self;
        let mut ms: Vec<Member> = Vec::new();
        self.push_front_members(&mut ms);
        let ghost m7 = spec_chat_members_front(*self);
        if let Some(t) = &c.temperature {
            obj_push(&mut ms, "temperature", JsonValue::Centi(t.get() as i64));
        }
        let ghost m8 = if c.temperature is Some {
            m7.push(("temperature"@, SpecJson::Centi(c.temperature->0.spec_get())))
        } else {
            m7
        };
        assert(spec_member_seq(ms@) == m8);
        if let Some(tp) = &c.top_p {
            obj_push(&mut ms, "top_p", JsonValue::Centi(tp.get() as i64));
        }
        let ghost m9 = if c.top_p is Some {
            m8.push(("top_p"@, SpecJson::Centi(c.top_p->0.spec_get())))
        } else {
            m8
        };
        assert(spec_member_seq(ms@) == m9);
        if let Some(ts) = &c.tools {
            obj_push(&mut ms, "tools", tools_to_json(ts));
        }
        let ghost m10 = if c.tools is Some {
            m9.push(("tools"@, SpecJson::Arr(c.tools->0@.map_values(|t: Tool| spec_tool_json(t)))))
        } else {
            m9
        };
        assert(spec_member_seq(ms@) == m10);
        if let Some(tc) = &c.tool_choice {
            obj_push(&mut ms, "tool_choice", tc.to_json());
        }
        let ghost m11 = if c.tool_choice is Some {
            m10.push(("tool_choice"@, spec_tool_choice_json(c.tool_choice->0)))
        } else {
            m10
        };
        assert(spec_member_seq(ms@) == m11);
        if let Some(b) = c.logprobs {
            obj_push(&mut ms, "logprobs", JsonValue::Bool(b));
        }
        let ghost m12 = if c.logprobs is Some {
            m11.push(("logprobs"@, SpecJson::Bool(c.logprobs->0)))
        } else {
            m11
        };
        assert(spec_member_seq(ms@) == m12);
        if let Some(tl) = &c.top_logprobs {
            obj_push(&mut ms, "top_logprobs", JsonValue::Int(tl.get() as i64));
        }
        let ghost m13 = if c.top_logprobs is Some {
            m12.push(("top_logprobs"@, SpecJson::Int(c.top_logprobs->0.spec_get())))
        } else {
            m12
        };
        assert(spec_member_seq(ms@) == m13);
        proof {
            assert(m13 == spec_chat_members(*self));
        }
        JsonValue::Obj(ms)
    }

    /// The wire bytes of this request.
    pub fn to_bytes(&self) -> (r: Vec<u8>)
        ensures
            r@ == spec_json_bytes(spec_chat_json(*self)),
    {
        self.to_json().to_bytes()
    }
}

/// Where a completion request goes: the provider's base URL, the model
/// identifier, and the caller's API key.
#[derive(Debug, Clone)]
pub struct Model {
    pub base_url: String,
    pub model: String,
    pub key: String,
}

/// One turn of an alternating conversation.
#[derive(Debug, Clone)]
pub enum Turn {
    User(String),
    Assistant(String),
}

/// A conversation: an optional system prompt followed by the turns.
#[derive(Debug, Clone)]
pub struct Messages {
    pub system: Option<String>,
    pub turns: Vec<Turn>,
}

/// The message a turn becomes, with no name attached.
pub open spec fn spec_turn_message(t: Turn) -> Message {
    match t {
        Turn::User(content) => Message::User { content, name: None },
        Turn::Assistant(content) => Message::Assistant { content, name: None },
    }
}

/// The message list of a conversation: the system prompt first when there
/// is one, then each turn in order.
pub open spec fn spec_message_vec(m: Messages) -> Seq<Message> {
    let front: Seq<Message> = match m.system {
        Some(s) => seq![Message::System { content: s, name: None }],
        None => Seq::empty(),
    };
    front + m.turns@.map_values(|t: Turn| spec_turn_message(t))
}

/// Flattens a conversation into the wire message list.
pub fn message_vec(messages: &Messages) -> (r: Vec<Message>)
    ensures
        r@ == spec_message_vec(*messages),
{
    let mut out: Vec<Message> = Vec::new();
    if let Some(s) = &messages.system {
        out.push(Message::System { content: s.clone(), name: None });
    }
    let ghost front = out@;
    let mut i: usize = 0;
    while i < messages.turns.len()
        invariant
            i <= messages.turns.len(),
            out@ == front + messages.turns@.take(i as int).map_values(
                |t: Turn| spec_turn_message(t),
            ),
        decreases messages.turns.len() - i,
    {
        let m = match &messages.turns[i] {
            Turn::User(content) => Message::User { content: content.clone(), name: None },
            Turn::Assistant(content) => Message::Assistant {
                content: content.clone(),
                name: None,
            },
        };
        out.push(m);
        i = i + 1;
        proof {
            assert(messages.turns@.take(i as int) =~= messages.turns@.take(i as int - 1).push(
                messages.turns@[i as int - 1],
            ));
            assert(out@ =~= front + messages.turns@.take(i as int).map_values(
                |t: Turn| spec_turn_message(t),
            ));
        }
    }
    proof {
        assert(messages.turns@.take(messages.turns@.len() as int) =~= messages.turns@);
        assert(out@ =~= spec_message_vec(*messages));
    }
    out
}

/// The request one whole-completion call sends: the flattened
/// conversation, the model's identifier, streaming off, and no tuning.
pub fn completion_request(model: &Model, messages: &Messages) -> (r: Chat)
    ensures
        r.messages@ == spec_message_vec(*messages),
        r.model@ == model.model@,
        r.stream == Some(false),
        r.max_tokens is None,
        r.frequency_penalty is None,
        r.presence_penalty is None,
        r.response_format is None,
        r.stop is None,
        r.stream_options is None,
        r.temperature is None,
        r.top_p is None,
        r.tools is None,
        r.tool_choice is None,
        r.logprobs is None,
        r.top_logprobs is None,
{
    Chat {
        messages: message_vec(messages),
        model: model.model.clone(),
        frequency_penalty: None,
        max_tokens: None,
        presence_penalty: None,
        response_format: None,
        stop: None,
        stream: Some(false),
        stream_options: None,
        temperature: None,
        top_p: None,
        tools: None,
        tool_choice: None,
        logprobs: None,
        top_logprobs: None,
    }
}

} // verus!
