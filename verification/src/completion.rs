//! Typed completion responses — whole and streamed — and their decoders.
//!
//! Decoding is strict where the wire value belongs to a closed set: an
//! unrecognized finish reason, role or object tag is an error, never a
//! silent default, since it likely signals an API change the caller must
//! handle.

use vstd::prelude::*;
use crate::decode::{get_member, opt_str_field, parse_json_str, spec_get_member,
    spec_opt_str_field, spec_parse_json, spec_str_field, spec_u32_field, str_field, streq,
    u32_field, DecodeError};
use crate::json::{lemma_value_seq, spec_value_seq, JsonValue, SpecJson};

verus! {

/// Why the provider stopped generating.
#[derive(Debug, Clone, Copy, PartialEq, Eq, Structural)]
pub enum FinishReason {
    Stop,
    Length,
    ContentFilter,
    ToolCalls,
    InsufficientSystemResource,
}

/// The role a response message is attributed to.
#[derive(Debug, Clone, Copy, PartialEq, Eq, Structural)]
pub enum Role {
    Assistant,
}

/// The kind of response document.
#[derive(Debug, Clone, Copy, PartialEq, Eq, Structural)]
pub enum ResponseObject {
    ChatCompletion,
    ChatCompletionChunk,
}

/// The kind of a tool invocation.
#[derive(Debug, Clone, Copy, PartialEq, Eq, Structural)]
pub enum ToolType {
    Function,
}

/// One message of a completed choice.
#[derive(Debug, Clone)]
pub struct ResponseMessage {
    pub content: Option<String>,
    pub reasoning_content: Option<String>,
    pub role: Role,
}

/// Ghost image of a response message.
pub struct ResponseMessageV {
    pub content: Option<Seq<char>>,
    pub reasoning_content: Option<Seq<char>>,
    pub role: Role,
}

impl View for ResponseMessage {
    type V = ResponseMessageV;

    open spec fn view(&self) -> ResponseMessageV {
        ResponseMessageV {
            content: match self.content {
                Some(s) => Some(s@),
                None => None,
            },
            reasoning_content: match self.reasoning_content {
                Some(s) => Some(s@),
                None => None,
            },
            role: self.role,
        }
    }
}

/// One completed choice.
#[derive(Debug, Clone)]
pub struct Choice {
    pub finish_reason: FinishReason,
    pub index: u32,
    pub message: ResponseMessage,
}

/// Ghost image of a choice.
pub struct ChoiceV {
    pub finish_reason: FinishReason,
    pub index: u32,
    pub message: ResponseMessageV,
}

impl View for Choice {
    type V = ChoiceV;

    open spec fn view(&self) -> ChoiceV {
        ChoiceV { finish_reason: self.finish_reason, index: self.index, message: self.message@ }
    }
}

/// Token accounting for one call.
#[derive(Debug, Clone, Copy, PartialEq, Eq, Structural)]
pub struct Usage {
    pub completion_tokens: u32,
    pub prompt_tokens: u32,
    pub prompt_cache_hit_tokens: u32,
    pub prompt_cache_miss_tokens: u32,
    pub total_tokens: u32,
}

/// A whole, non-streamed completion response.
#[derive(Debug, Clone)]
pub struct Object {
    pub id: String,
    pub choices: Vec<Choice>,
    pub created: u32,
    pub model: String,
    pub system_fingerprint: String,
    pub object: ResponseObject,
    pub usage: Usage,
}

/// Ghost image of a completion response.
pub struct ObjectV {
    pub id: Seq<char>,
    pub choices: Seq<ChoiceV>,
    pub created: u32,
    pub model: Seq<char>,
    pub system_fingerprint: Seq<char>,
    pub object: ResponseObject,
    pub usage: Usage,
}

impl View for Object {
    type V = ObjectV;

    open spec fn view(&self) -> ObjectV {
        ObjectV {
            id: self.id@,
            choices: self.choices@.map_values(|c: Choice| c@),
            created: self.created,
            model: self.model@,
            system_fingerprint: self.system_fingerprint@,
            object: self.object,
            usage: self.usage,
        }
    }
}

/// One streamed completion chunk, shaped like a whole response.
#[derive(Debug, Clone)]
pub struct Chunk {
    pub id: String,
    pub choices: Vec<Choice>,
    pub created: u32,
    pub model: String,
    pub system_fingerprint: String,
    pub object: ResponseObject,
    pub usage: Usage,
}

/// Ghost image of a streamed chunk.
pub struct ChunkV {
    pub id: Seq<char>,
    pub choices: Seq<ChoiceV>,
    pub created: u32,
    pub model: Seq<char>,
    pub system_fingerprint: Seq<char>,
    pub object: ResponseObject,
    pub usage: Usage,
}

impl View for Chunk {
    type V = ChunkV;

    open spec fn view(&self) -> ChunkV {
        ChunkV {
            id: self.id@,
            choices: self.choices@.map_values(|c: Choice| c@),
            created: self.created,
            model: self.model@,
            system_fingerprint: self.system_fingerprint@,
            object: self.object,
            usage: self.usage,
        }
    }
}

/// One choice of a streamed chunk, before any content arrives.
#[derive(Debug, Clone)]
pub struct StreamChoice {
    pub finish_reason: Option<FinishReason>,
    pub index: u32,
}

/// The incremental content a chunk carries for one choice.
#[derive(Debug, Clone)]
pub struct Delta {
    pub content: Option<String>,
    pub reasoning_content: Option<String>,
    pub role: Option<Role>,
}

/// Ghost image of a delta.
pub struct DeltaV {
    pub content: Option<Seq<char>>,
    pub reasoning_content: Option<Seq<char>>,
    pub role: Option<Role>,
}

impl View for Delta {
    type V = DeltaV;

    open spec fn view(&self) -> DeltaV {
        DeltaV {
            content: match self.content {
                Some(s) => Some(s@),
                None => None,
            },
            reasoning_content: match self.reasoning_content {
                Some(s) => Some(s@),
                None => None,
            },
            role: self.role,
        }
    }
}

/// The finish reason a wire tag names.
pub open spec fn spec_finish_reason(s: Seq<char>) -> Result<FinishReason, DecodeError> {
    if s == "stop"@ {
        Ok(FinishReason::Stop)
    } else if s == "length"@ {
        Ok(FinishReason::Length)
    } else if s == "content_filter"@ {
        Ok(FinishReason::ContentFilter)
    } else if s == "tool_calls"@ {
        Ok(FinishReason::ToolCalls)
    } else if s == "insufficient_system_resource"@ {
        Ok(FinishReason::InsufficientSystemResource)
    } else {
        Err(DecodeError::UnknownTag)
    }
}

impl FinishReason {
    /// Recognizes a wire tag; any value outside the closed set is refused.
    pub fn from_tag(s: &String) -> (r: Result<Self, DecodeError>)
        ensures
            r == spec_finish_reason(s@),
    {
        if streq(s, "stop") {
            Ok(FinishReason::Stop)
        } else if streq(s, "length") {
            Ok(FinishReason::Length)
        } else if streq(s, "content_filter") {
            Ok(FinishReason::ContentFilter)
        } else if streq(s, "tool_calls") {
            Ok(FinishReason::ToolCalls)
        } else if streq(s, "insufficient_system_resource") {
            Ok(FinishReason::InsufficientSystemResource)
        } else {
            Err(DecodeError::UnknownTag)
        }
    }
}

/// The role a wire tag names.
pub open spec fn spec_role(s: Seq<char>) -> Result<Role, DecodeError> {
    if s == "assistant"@ {
        Ok(Role::Assistant)
    } else {
        Err(DecodeError::UnknownTag)
    }
}

impl Role {
    /// Recognizes a wire tag; any value outside the closed set is refused.
    pub fn from_tag(s: &String) -> (r: Result<Self, DecodeError>)
        ensures
            r == spec_role(s@),
    {
        if streq(s, "assistant") {
            Ok(Role::Assistant)
        } else {
            Err(DecodeError::UnknownTag)
        }
    }
}

/// The response kind a wire tag names.
pub open spec fn spec_response_object(s: Seq<char>) -> Result<ResponseObject, DecodeError> {
    if s == "chat.completion"@ {
        Ok(ResponseObject::ChatCompletion)
    } else if s == "chat.completion.chunk"@ {
        Ok(ResponseObject::ChatCompletionChunk)
    } else {
        Err(DecodeError::UnknownTag)
    }
}

impl ResponseObject {
    /// Recognizes a wire tag; any value outside the closed set is refused.
    pub fn from_tag(s: &String) -> (r: Result<Self, DecodeError>)
        ensures
            r == spec_response_object(s@),
    {
        if streq(s, "chat.completion") {
            Ok(ResponseObject::ChatCompletion)
        } else if streq(s, "chat.completion.chunk") {
            Ok(ResponseObject::ChatCompletionChunk)
        } else {
            Err(DecodeError::UnknownTag)
        }
    }
}

/// Decodes a response message: optional content and reasoning content,
/// and a required role.
pub open spec fn spec_response_message(v: SpecJson) -> Result<ResponseMessageV, DecodeError> {
    match v {
        SpecJson::Obj(ms) => match spec_opt_str_field(ms, "content"@) {
            Err(e) => Err(e),
            Ok(content) => match spec_opt_str_field(ms, "reasoning_content"@) {
                Err(e) => Err(e),
                Ok(reasoning_content) => match spec_str_field(ms, "role"@) {
                    Err(e) => Err(e),
                    Ok(role_tag) => match spec_role(role_tag) {
                        Err(e) => Err(e),
                        Ok(role) => Ok(ResponseMessageV { content, reasoning_content, role }),
                    },
                },
            },
        },
        _ => Err(DecodeError::NotObject),
    }
}

impl ResponseMessage {
    /// Decodes a response message out of a parsed document.
    pub fn from_json(v: &JsonValue) -> (r: Result<Self, DecodeError>)
        ensures
            match r {
                Ok(m) => spec_response_message(v@) == Ok::<_, DecodeError>(m@),
                Err(e) => spec_response_message(v@) == Err::<ResponseMessageV, _>(e),
            },
    {
        let ms = match v {
            JsonValue::Obj(ms) => ms,
            _ => {
                return Err(DecodeError::NotObject);
            },
        };
        let content = match opt_str_field(ms, "content") {
            Ok(c) => c,
            Err(e) => {
                return Err(e);
            },
        };
        let reasoning_content = match opt_str_field(ms, "reasoning_content") {
            Ok(c) => c,
            Err(e) => {
                return Err(e);
            },
        };
        let role_tag = match str_field(ms, "role") {
            Ok(s) => s,
            Err(e) => {
                return Err(e);
            },
        };
        let role = match Role::from_tag(&role_tag) {
            Ok(x) => x,
            Err(e) => {
                return Err(e);
            },
        };
        Ok(ResponseMessage { content, reasoning_content, role })
    }
}

/// Decodes one choice: a finish reason, an index, and the message.
pub open spec fn spec_choice(v: SpecJson) -> Result<ChoiceV, DecodeError> {
    match v {
        SpecJson::Obj(ms) => match spec_str_field(ms, "finish_reason"@) {
            Err(e) => Err(e),
            Ok(tag) => match spec_finish_reason(tag) {
                Err(e) => Err(e),
                Ok(finish_reason) => match spec_u32_field(ms, "index"@) {
                    Err(e) => Err(e),
                    Ok(index) => match spec_get_member(ms, "message"@) {
                        None => Err(DecodeError::MissingField),
                        Some(mv) => match spec_response_message(mv) {
                            Err(e) => Err(e),
                            Ok(message) => Ok(ChoiceV { finish_reason, index, message }),
                        },
                    },
                },
            },
        },
        _ => Err(DecodeError::NotObject),
    }
}

impl Choice {
    /// Decodes one choice out of a parsed document.
    pub fn from_json(v: &JsonValue) -> (r: Result<Self, DecodeError>)
        ensures
            match r {
                Ok(c) => spec_choice(v@) == Ok::<_, DecodeError>(c@),
                Err(e) => spec_choice(v@) == Err::<ChoiceV, _>(e),
            },
    {
        let ms = match v {
            JsonValue::Obj(ms) => ms,
            _ => {
                return Err(DecodeError::NotObject);
            },
        };
        let tag = match str_field(ms, "finish_reason") {
            Ok(s) => s,
            Err(e) => {
                return Err(e);
            },
        };
        let finish_reason = match FinishReason::from_tag(&tag) {
            Ok(x) => x,
            Err(e) => {
                return Err(e);
            },
        };
        let index = match u32_field(ms, "index") {
            Ok(n) => n,
            Err(e) => {
                return Err(e);
            },
        };
        let message = match get_member(ms, "message") {
            None => {
                return Err(DecodeError::MissingField);
            },
            Some(mv) => match ResponseMessage::from_json(mv) {
                Ok(m) => m,
                Err(e) => {
                    return Err(e);
                },
            },
        };
        Ok(Choice { finish_reason, index, message })
    }
}

/// Decodes a sequence of choices, front to back; the first failure is the
/// failure of the whole.
pub open spec fn spec_choice_seq(a: Seq<SpecJson>) -> Result<Seq<ChoiceV>, DecodeError>
    decreases a.len(),
{
    if a.len() == 0 {
        Ok(Seq::empty())
    } else {
        match spec_choice(a[0]) {
            Err(e) => Err(e),
            Ok(c) => match spec_choice_seq(a.drop_first()) {
                Err(e) => Err(e),
                Ok(rest) => Ok(seq![c] + rest),
            },
        }
    }
}

proof fn lemma_choice_seq_ok(a: Seq<SpecJson>, vs: Seq<ChoiceV>)
    requires
        vs.len() == a.len(),
        forall|j: int| 0 <= j < a.len() ==> #[trigger] spec_choice(a[j]) == Ok::<_, DecodeError>(
            vs[j],
        ),
    ensures
        spec_choice_seq(a) == Ok::<_, DecodeError>(vs),
    decreases a.len(),
{
    if a.len() == 0 {
        assert(vs =~= Seq::<ChoiceV>::empty());
    } else {
        assert(forall|j: int|
            0 <= j < a.drop_first().len() ==> #[trigger] spec_choice(a.drop_first()[j]) == Ok::<
                _,
                DecodeError,
            >(vs.drop_first()[j]));
        lemma_choice_seq_ok(a.drop_first(), vs.drop_first());
        assert(spec_choice(a[0]) == Ok::<_, DecodeError>(vs[0]));
        assert(seq![vs[0]] + vs.drop_first() =~= vs);
    }
}

proof fn lemma_choice_seq_err(a: Seq<SpecJson>, i: int, e: DecodeError)
    requires
        0 <= i < a.len(),
        forall|j: int| 0 <= j < i ==> #[trigger] spec_choice(a[j]) is Ok,
        spec_choice(a[i]) == Err::<ChoiceV, _>(e),
    ensures
        spec_choice_seq(a) == Err::<Seq<ChoiceV>, _>(e),
    decreases a.len(),
{
    if i == 0 {
        assert(spec_choice_seq(a) == Err::<Seq<ChoiceV>, _>(e));
    } else {
        assert(spec_choice(a[0]) is Ok);
        assert(forall|j: int|
            0 <= j < i - 1 ==> #[trigger] spec_choice(a.drop_first()[j]) is Ok) by {
            assert(forall|j: int|
                0 <= j < i - 1 ==> a.drop_first()[j] == a[j + 1] && #[trigger] spec_choice(
                    a[j + 1],
                ) is Ok);
        }
        assert(a.drop_first()[i - 1] == a[i]);
        lemma_choice_seq_err(a.drop_first(), i - 1, e);
    }
}

/// Decodes every element of a wire array of choices.
fn choices_from_json(a: &Vec<JsonValue>) -> (r: Result<Vec<Choice>, DecodeError>)
    ensures
        match r {
            Ok(cs) => spec_choice_seq(spec_value_seq(a@)) == Ok::<_, DecodeError>(
                cs@.map_values(|c: Choice| c@),
            ),
            Err(e) => spec_choice_seq(spec_value_seq(a@)) == Err::<Seq<ChoiceV>, _>(e),
        },
{
    let ghost av = spec_value_seq(a@);
    proof {
        lemma_value_seq(a@);
    }
    let mut out: Vec<Choice> = Vec::new();
    let mut i: usize = 0;
    while i < a.len()
        invariant
            i <= a.len(),
            av == spec_value_seq(a@),
            av.len() == a@.len(),
            forall|j: int| 0 <= j < av.len() ==> av[j] == #[trigger] a@[j]@,
            out@.len() == i,
            forall|j: int| 0 <= j < i ==> #[trigger] spec_choice(av[j]) == Ok::<_, DecodeError>(
                out@[j]@,
            ),
        decreases a.len() - i,
    {
        match Choice::from_json(&a[i]) {
            Ok(c) => {
                out.push(c);
            },
            Err(e) => {
                proof {
                    lemma_choice_seq_err(av, i as int, e);
                }
                return Err(e);
            },
        }
        i = i + 1;
    }
    proof {
        lemma_choice_seq_ok(av, out@.map_values(|c: Choice| c@));
    }
    Ok(out)
}

/// Decodes the token accounting.
pub open spec fn spec_usage(v: SpecJson) -> Result<Usage, DecodeError> {
    match v {
        SpecJson::Obj(ms) => match spec_u32_field(ms, "completion_tokens"@) {
            Err(e) => Err(e),
            Ok(completion_tokens) => match spec_u32_field(ms, "prompt_tokens"@) {
                Err(e) => Err(e),
                Ok(prompt_tokens) => match spec_u32_field(ms, "prompt_cache_hit_tokens"@) {
                    Err(e) => Err(e),
                    Ok(prompt_cache_hit_tokens) => match spec_u32_field(
                        ms,
                        "prompt_cache_miss_tokens"@,
                    ) {
                        Err(e) => Err(e),
                        Ok(prompt_cache_miss_tokens) => match spec_u32_field(ms, "total_tokens"@) {
                            Err(e) => Err(e),
                            Ok(total_tokens) => Ok(
                                Usage {
                                    completion_tokens,
                                    prompt_tokens,
                                    prompt_cache_hit_tokens,
                                    prompt_cache_miss_tokens,
                                    total_tokens,
                                },
                            ),
                        },
                    },
                },
            },
        },
        _ => Err(DecodeError::NotObject),
    }
}

impl Usage {
    /// Decodes the token accounting out of a parsed document.
    pub fn from_json(v: &JsonValue) -> (r: Result<Self, DecodeError>)
        ensures
            r == spec_usage(v@),
    {
        let ms = match v {
            JsonValue::Obj(ms) => ms,
            _ => {
                return Err(DecodeError::NotObject);
            },
        };
        let completion_tokens = match u32_field(ms, "completion_tokens") {
            Ok(n) => n,
            Err(e) => {
                return Err(e);
            },
        };
        let prompt_tokens = match u32_field(ms, "prompt_tokens") {
            Ok(n) => n,
            Err(e) => {
                return Err(e);
            },
        };
        let prompt_cache_hit_tokens = match u32_field(ms, "prompt_cache_hit_tokens") {
            Ok(n) => n,
            Err(e) => {
                return Err(e);
            },
        };
        let prompt_cache_miss_tokens = match u32_field(ms, "prompt_cache_miss_tokens") {
            Ok(n) => n,
            Err(e) => {
                return Err(e);
            },
        };
        let total_tokens = match u32_field(ms, "total_tokens") {
            Ok(n) => n,
            Err(e) => {
                return Err(e);
            },
        };
        Ok(
            Usage {
                completion_tokens,
                prompt_tokens,
                prompt_cache_hit_tokens,
                prompt_cache_miss_tokens,
                total_tokens,
            },
        )
    }
}

/// Decodes the fields shared by a whole response and a chunk; the caller
/// assembles them. Field checks run in wire-struct order, so the first
/// offending field names the error.
pub open spec fn spec_completion_fields(v: SpecJson) -> Result<ObjectV, DecodeError> {
    match v {
        SpecJson::Obj(ms) => match spec_str_field(ms, "id"@) {
            Err(e) => Err(e),
            Ok(id) => match spec_get_member(ms, "choices"@) {
                None => Err(DecodeError::MissingField),
                Some(SpecJson::Arr(a)) => match spec_choice_seq(a) {
                    Err(e) => Err(e),
                    Ok(choices) => match spec_u32_field(ms, "created"@) {
                        Err(e) => Err(e),
                        Ok(created) => match spec_str_field(ms, "model"@) {
                            Err(e) => Err(e),
                            Ok(model) => match spec_str_field(ms, "system_fingerprint"@) {
                                Err(e) => Err(e),
                                Ok(system_fingerprint) => match spec_str_field(ms, "object"@) {
                                    Err(e) => Err(e),
                                    Ok(tag) => match spec_response_object(tag) {
                                        Err(e) => Err(e),
                                        Ok(object) => match spec_get_member(ms, "usage"@) {
                                            None => Err(DecodeError::MissingField),
                                            Some(uv) => match spec_usage(uv) {
                                                Err(e) => Err(e),
                                                Ok(usage) => Ok(
                                                    ObjectV {
                                                        id,
                                                        choices,
                                                        created,
                                                        model,
                                                        system_fingerprint,
                                                        object,
                                                        usage,
                                                    },
                                                ),
                                            },
                                        },
                                    },
                                },
                            },
                        },
                    },
                },
                Some(_) => Err(DecodeError::WrongType),
            },
        },
        _ => Err(DecodeError::NotObject),
    }
}

/// Decodes a whole response.
pub open spec fn spec_object(v: SpecJson) -> Result<ObjectV, DecodeError> {
    spec_completion_fields(v)
}

/// Decodes a streamed chunk, which shares the whole response's shape.
pub open spec fn spec_chunk(v: SpecJson) -> Result<ChunkV, DecodeError> {
    match spec_completion_fields(v) {
        Err(e) => Err(e),
        Ok(o) => Ok(
            ChunkV {
                id: o.id,
                choices: o.choices,
                created: o.created,
                model: o.model,
                system_fingerprint: o.system_fingerprint,
                object: o.object,
                usage: o.usage,
            },
        ),
    }
}

/// Decodes the shared completion fields out of a parsed document.
fn completion_fields_from_json(v: &JsonValue) -> (r: Result<Object, DecodeError>)
    ensures
        match r {
            Ok(o) => spec_completion_fields(v@) == Ok::<_, DecodeError>(o@),
            Err(e) => spec_completion_fields(v@) == Err::<ObjectV, _>(e),
        },
{
    let ms = match v {
        JsonValue::Obj(ms) => ms,
        _ => {
            return Err(DecodeError::NotObject);
        },
    };
    let id = match str_field(ms, "id") {
        Ok(s) => s,
        Err(e) => {
            return Err(e);
        },
    };
    let choices = match get_member(ms, "choices") {
        None => {
            return Err(DecodeError::MissingField);
        },
        Some(JsonValue::Arr(a)) => match choices_from_json(a) {
            Ok(cs) => cs,
            Err(e) => {
                return Err(e);
            },
        },
        Some(_) => {
            return Err(DecodeError::WrongType);
        },
    };
    let created = match u32_field(ms, "created") {
        Ok(n) => n,
        Err(e) => {
            return Err(e);
        },
    };
    let model = match str_field(ms, "model") {
        Ok(s) => s,
        Err(e) => {
            return Err(e);
        },
    };
    let system_fingerprint = match str_field(ms, "system_fingerprint") {
        Ok(s) => s,
        Err(e) => {
            return Err(e);
        },
    };
    let tag = match str_field(ms, "object") {
        Ok(s) => s,
        Err(e) => {
            return Err(e);
        },
    };
    let object = match ResponseObject::from_tag(&tag) {
        Ok(x) => x,
        Err(e) => {
            return Err(e);
        },
    };
    let usage = match get_member(ms, "usage") {
        None => {
            return Err(DecodeError::MissingField);
        },
        Some(uv) => match Usage::from_json(uv) {
            Ok(u) => u,
            Err(e) => {
                return Err(e);
            },
        },
    };
    Ok(Object { id, choices, created, model, system_fingerprint, object, usage })
}

impl Object {
    /// Decodes a whole response out of a parsed document.
    pub fn from_json(v: &JsonValue) -> (r: Result<Self, DecodeError>)
        ensures
            match r {
                Ok(o) => spec_object(v@) == Ok::<_, DecodeError>(o@),
                Err(e) => spec_object(v@) == Err::<ObjectV, _>(e),
            },
    {
        completion_fields_from_json(v)
    }

    /// Decodes a whole response body: refused outright when the text is
    /// not JSON, else decoded exactly as the parsed document demands.
    pub fn decode(text: &str) -> (r: Result<Self, DecodeError>)
        ensures
            match spec_parse_json(text@) {
                None => r == Err::<Object, _>(DecodeError::Syntax),
                Some(j) => match r {
                    Ok(o) => spec_object(j) == Ok::<_, DecodeError>(o@),
                    Err(e) => spec_object(j) == Err::<ObjectV, _>(e),
                },
            },
    {
        match parse_json_str(text) {
            None => Err(DecodeError::Syntax),
            Some(v) => Object::from_json(&v),
        }
    }
}

impl Chunk {
    /// Decodes a streamed chunk out of a parsed document.
    pub fn from_json(v: &JsonValue) -> (r: Result<Self, DecodeError>)
        ensures
            match r {
                Ok(c) => spec_chunk(v@) == Ok::<_, DecodeError>(c@),
                Err(e) => spec_chunk(v@) == Err::<ChunkV, _>(e),
            },
    {
        match completion_fields_from_json(v) {
            Ok(o) => Ok(
                Chunk {
                    id: o.id,
                    choices: o.choices,
                    created: o.created,
                    model: o.model,
                    system_fingerprint: o.system_fingerprint,
                    object: o.object,
                    usage: o.usage,
                },
            ),
            Err(e) => Err(e),
        }
    }

    /// Decodes one streamed chunk body, as [`Object::decode`] does a whole
    /// response.
    pub fn decode(text: &str) -> (r: Result<Self, DecodeError>)
        ensures
            match spec_parse_json(text@) {
                None => r == Err::<Chunk, _>(DecodeError::Syntax),
                Some(j) => match r {
                    Ok(c) => spec_chunk(j) == Ok::<_, DecodeError>(c@),
                    Err(e) => spec_chunk(j) == Err::<ChunkV, _>(e),
                },
            },
    {
        match parse_json_str(text) {
            None => Err(DecodeError::Syntax),
            Some(v) => Chunk::from_json(&v),
        }
    }
}

/// Decodes one choice of a streamed chunk: an optional finish reason and
/// an index.
pub open spec fn spec_stream_choice(v: SpecJson) -> Result<StreamChoice, DecodeError> {
    match v {
        SpecJson::Obj(ms) => {
            let finish = match spec_get_member(ms, "finish_reason"@) {
                None => Ok(None),
                Some(SpecJson::Null) => Ok(None),
                Some(SpecJson::Str(s)) => match spec_finish_reason(s) {
                    Err(e) => Err(e),
                    Ok(fr) => Ok(Some(fr)),
                },
                Some(_) => Err(DecodeError::WrongType),
            };
            match finish {
                Err(e) => Err(e),
                Ok(finish_reason) => match spec_u32_field(ms, "index"@) {
                    Err(e) => Err(e),
                    Ok(index) => Ok(StreamChoice { finish_reason, index }),
                },
            }
        },
        _ => Err(DecodeError::NotObject),
    }
}

impl StreamChoice {
    /// Decodes one streamed choice out of a parsed document.
    pub fn from_json(v: &JsonValue) -> (r: Result<Self, DecodeError>)
        ensures
            match r {
                Ok(c) => spec_stream_choice(v@) == Ok::<_, DecodeError>(
                    StreamChoice { finish_reason: c.finish_reason, index: c.index },
                ),
                Err(e) => spec_stream_choice(v@) == Err::<StreamChoice, _>(e),
            },
    {
        let ms = match v {
            JsonValue::Obj(ms) => ms,
            _ => {
                return Err(DecodeError::NotObject);
            },
        };
        let finish_reason = match get_member(ms, "finish_reason") {
            None => None,
            Some(JsonValue::Null) => None,
            Some(JsonValue::Str(s)) => match FinishReason::from_tag(s) {
                Ok(fr) => Some(fr),
                Err(e) => {
                    return Err(e);
                },
            },
            Some(_) => {
                return Err(DecodeError::WrongType);
            },
        };
        let index = match u32_field(ms, "index") {
            Ok(n) => n,
            Err(e) => {
                return Err(e);
            },
        };
        Ok(StreamChoice { finish_reason, index })
    }
}

/// Decodes the incremental content of a streamed choice.
pub open spec fn spec_delta(v: SpecJson) -> Result<DeltaV, DecodeError> {
    match v {
        SpecJson::Obj(ms) => match spec_opt_str_field(ms, "content"@) {
            Err(e) => Err(e),
            Ok(content) => match spec_opt_str_field(ms, "reasoning_content"@) {
                Err(e) => Err(e),
                Ok(reasoning_content) => {
                    let role = match spec_get_member(ms, "role"@) {
                        None => Ok(None),
                        Some(SpecJson::Null) => Ok(None),
                        Some(SpecJson::Str(s)) => match spec_role(s) {
                            Err(e) => Err(e),
                            Ok(role) => Ok(Some(role)),
                        },
                        Some(_) => Err(DecodeError::WrongType),
                    };
                    match role {
                        Err(e) => Err(e),
                        Ok(role) => Ok(DeltaV { content, reasoning_content, role }),
                    }
                },
            },
        },
        _ => Err(DecodeError::NotObject),
    }
}

impl Delta {
    /// Decodes a delta out of a parsed document.
    pub fn from_json(v: &JsonValue) -> (r: Result<Self, DecodeError>)
        ensures
            match r {
                Ok(d) => spec_delta(v@) == Ok::<_, DecodeError>(d@),
                Err(e) => spec_delta(v@) == Err::<DeltaV, _>(e),
            },
    {
        let ms = match v {
            JsonValue::Obj(ms) => ms,
            _ => {
                return Err(DecodeError::NotObject);
            },
        };
        let content = match opt_str_field(ms, "content") {
            Ok(c) => c,
            Err(e) => {
                return Err(e);
            },
        };
        let reasoning_content = match opt_str_field(ms, "reasoning_content") {
            Ok(c) => c,
            Err(e) => {
                return Err(e);
            },
        };
        let role = match get_member(ms, "role") {
            None => None,
            Some(JsonValue::Null) => None,
            Some(JsonValue::Str(s)) => match Role::from_tag(s) {
                Ok(role) => Some(role),
                Err(e) => {
                    return Err(e);
                },
            },
            Some(_) => {
                return Err(DecodeError::WrongType);
            },
        };
        Ok(Delta { content, reasoning_content, role })
    }
}

} // verus!
