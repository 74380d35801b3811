//! The provider-facing request builder: one builder parameterized over
//! the provider, finalized by a runtime check that the conversation is
//! not empty, and the thin response shapes those providers return.

use vstd::prelude::*;
use crate::json::{spec_member_seq, spec_value_seq, obj_push, arr_push, JsonValue, Member,
    SpecJson};
use crate::request::AssemblyError;

verus! {

/// Marker for the Anthropic-shaped provider.
#[derive(Debug, Clone, Copy, PartialEq, Eq, Structural)]
pub struct AnthropicConfig;

/// Marker for the DeepSeek-shaped provider.
#[derive(Debug, Clone, Copy, PartialEq, Eq, Structural)]
pub struct DeepSeekConfig;

/// Which provider a request is shaped for.
#[derive(Debug, Clone, Copy, PartialEq, Eq, Structural)]
pub enum ProviderKind {
    Anthropic,
    DeepSeek,
}

/// One conversation turn in the provider-generic wire shape: a bare role
/// string beside the content.
#[derive(Debug, Clone)]
pub struct Message {
    pub role: String,
    pub content: String,
}

/// Wire form of a provider-generic turn.
pub open spec fn spec_plain_message_json(m: Message) -> SpecJson {
    SpecJson::Obj(
        seq![("role"@, SpecJson::Str(m.role@)), ("content"@, SpecJson::Str(m.content@))],
    )
}

impl Message {
    /// The wire document of this turn.
    pub fn to_json(&self) -> (r: JsonValue)
        ensures
            r@ == spec_plain_message_json(*self),
    {
        let mut ms: Vec<Member> = Vec::new();
        obj_push(&mut ms, "role", JsonValue::Str(self.role.clone()));
        obj_push(&mut ms, "content", JsonValue::Str(self.content.clone()));
        proof {
            assert(spec_member_seq(ms@) =~= spec_plain_message_json(*self)->Obj_0);
        }
        JsonValue::Obj(ms)
    }
}

/// Token accounting in the provider-generic shape.
#[derive(Debug, Clone, Copy, PartialEq, Eq, Structural)]
pub struct TokenUsage {
    pub input_tokens: i64,
    pub output_tokens: i64,
}

/// One block of response text.
#[derive(Debug, Clone)]
pub struct Content {
    pub text: String,
}

/// An Anthropic-shaped response: content blocks and token usage.
#[derive(Debug, Clone)]
pub struct AnthropicResponse {
    pub content: Vec<Content>,
    pub usage: TokenUsage,
}

impl AnthropicResponse {
    /// The first content block's text, when there is one.
    pub fn get_text(&self) -> (r: Option<&str>)
        ensures
            match r {
                Some(t) => self.content@.len() > 0 && t@ == self.content@[0].text@,
                None => self.content@.len() == 0,
            },
    {
        if self.content.len() > 0 {
            Some(self.content[0].text.as_str())
        } else {
            None
        }
    }
}

/// A DeepSeek-shaped response: content blocks and token usage.
#[derive(Debug, Clone)]
pub struct DeepSeekResponse {
    pub content: Vec<Content>,
    pub usage: TokenUsage,
}

impl DeepSeekResponse {
    /// The first content block's text, when there is one.
    pub fn get_text(&self) -> (r: Option<&str>)
        ensures
            match r {
                Some(t) => self.content@.len() > 0 && t@ == self.content@[0].text@,
                None => self.content@.len() == 0,
            },
    {
        if self.content.len() > 0 {
            Some(self.content[0].text.as_str())
        } else {
            None
        }
    }
}

/// A model bound to one provider: identifier, response budget, and an
/// optional system prompt.
#[derive(Debug, Clone)]
pub struct Model {
    pub provider: ProviderKind,
    pub model: String,
    pub max_tokens: i32,
    pub system_prompt: Option<String>,
}

impl Model {
    /// A model bound to the Anthropic-shaped provider.
    pub fn anthropic(model: String, max_tokens: i32) -> (r: Self)
        ensures
            r.provider == ProviderKind::Anthropic,
            r.model@ == model@,
            r.max_tokens == max_tokens,
            r.system_prompt is None,
    {
        Model { provider: ProviderKind::Anthropic, model, max_tokens, system_prompt: None }
    }

    /// A model bound to the DeepSeek-shaped provider.
    pub fn deepseek(model: String, max_tokens: i32) -> (r: Self)
        ensures
            r.provider == ProviderKind::DeepSeek,
            r.model@ == model@,
            r.max_tokens == max_tokens,
            r.system_prompt is None,
    {
        Model { provider: ProviderKind::DeepSeek, model, max_tokens, system_prompt: None }
    }

    /// The same model with a system prompt set.
    pub fn system_prompt(self, prompt: String) -> (r: Self)
        ensures
            r.provider == self.provider,
            r.model@ == self.model@,
            r.max_tokens == self.max_tokens,
            r.system_prompt matches Some(p) && p@ == prompt@,
    {
        Model {
            provider: self.provider,
            model: self.model,
            max_tokens: self.max_tokens,
            system_prompt: Some(prompt),
        }
    }

    /// Begins a request for this model, with no messages yet.
    pub fn request(&self) -> (r: ModelRequest)
        ensures
            r.provider == self.provider,
            r.model@ == self.model@,
            r.max_tokens == self.max_tokens,
            r.system == self.system_prompt,
            r.messages@.len() == 0,
            r.temperature is None,
    {
        ModelRequest {
            provider: self.provider,
            model: self.model.clone(),
            max_tokens: self.max_tokens,
            messages: Vec::new(),
            temperature: None,
            system: self.system_prompt.clone(),
        }
    }
}

/// A provider request under construction: messages accumulate, a
/// temperature may be set, and finalizing checks the conversation.
///
/// The temperature is held in hundredths of a unit, as the bounded
/// temperature type is; here it is carried as given, unvalidated.
#[derive(Debug, Clone)]
pub struct ModelRequest {
    pub provider: ProviderKind,
    pub model: String,
    pub max_tokens: i32,
    pub messages: Vec<Message>,
    pub temperature: Option<i32>,
    pub system: Option<String>,
}

/// Wire members of a provider request: model, budget and messages, then
/// the temperature and the system prompt only when set.
pub open spec fn spec_model_request_members(r: ModelRequest) -> Seq<(Seq<char>, SpecJson)> {
    let m = seq![
        ("model"@, SpecJson::Str(r.model@)),
        ("max_tokens"@, SpecJson::Int(r.max_tokens as int)),
        (
            "messages"@,
            SpecJson::Arr(r.messages@.map_values(|x: Message| spec_plain_message_json(x))),
        ),
    ];
    let m = if r.temperature is Some {
        m.push(("temperature"@, SpecJson::Centi(r.temperature->0 as int)))
    } else {
        m
    };
    let m = if r.system is Some {
        m.push(("system"@, SpecJson::Str(r.system->0@)))
    } else {
        m
    };
    m
}

/// Wire form of a provider request.
pub open spec fn spec_model_request_json(r: ModelRequest) -> SpecJson {
    SpecJson::Obj(spec_model_request_members(r))
}

impl ModelRequest {
    /// The same request with the sampling temperature set, in hundredths
    /// of a unit.
    pub fn temperature(self, temp: i32) -> (r: Self)
        ensures
            r == (ModelRequest { temperature: Some(temp), ..self }),
    {
        ModelRequest { temperature: Some(temp), ..self }
    }

    /// The same request with one turn appended.
    pub fn message(self, role: String, content: String) -> (r: Self)
        ensures
            r.provider == self.provider,
            r.model == self.model,
            r.max_tokens == self.max_tokens,
            r.temperature == self.temperature,
            r.system == self.system,
            r.messages@ == self.messages@.push(Message { role, content }),
    {
        let mut messages = self.messages;
        messages.push(Message { role, content });
        ModelRequest {
            provider: self.provider,
            model: self.model,
            max_tokens: self.max_tokens,
            messages,
            temperature: self.temperature,
            system: self.system,
        }
    }

    /// Finalizes the request. A conversation is required: an empty one is
    /// refused, and any other passes unchanged.
    pub fn build(self) -> (r: Result<Self, AssemblyError>)
        ensures
            match r {
                Ok(done) => self.messages@.len() > 0 && done == self,
                Err(e) => e == AssemblyError::EmptyMessages && self.messages@.len() == 0,
            },
    {
        if self.messages.len() == 0 {
            return Err(AssemblyError::EmptyMessages);
        }
        Ok(self)
    }

    /// The wire document of this request.
    pub fn to_json(&self) -> (r: JsonValue)
        ensures
            r@ == spec_model_request_json(*self),
    {
        let mut msgs: Vec<JsonValue> = Vec::new();
        let mut i: usize = 0;
        while i < self.messages.len()
            invariant
                i <= self.messages.len(),
                spec_value_seq(msgs@) == self.messages@.take(i as int).map_values(
                    |x: Message| spec_plain_message_json(x),
                ),
            decreases self.messages.len() - i,
        {
            arr_push(&mut msgs, self.messages[i].to_json());
            i = i + 1;
            proof {
                assert(self.messages@.take(i as int) =~= self.messages@.take(i as int - 1).push(
                    self.messages@[i as int - 1],
                ));
                assert(spec_value_seq(msgs@) =~= self.messages@.take(i as int).map_values(
                    |x: Message| spec_plain_message_json(x),
                ));
            }
        }
        proof {
            assert(self.messages@.take(self.messages@.len() as int) =~= self.messages@);
        }
        let mut ms: Vec<Member> = Vec::new();
        obj_push(&mut ms, "model", JsonValue::Str(self.model.clone()));
        obj_push(&mut ms, "max_tokens", JsonValue::Int(self.max_tokens as i64));
        obj_push(&mut ms, "messages", JsonValue::Arr(msgs));
        let ghost m0 = seq![
            ("model"@, SpecJson::Str(self.model@)),
            ("max_tokens"@, SpecJson::Int(self.max_tokens as int)),
            (
                "messages"@,
                SpecJson::Arr(
                    self.messages@.map_values(|x: Message| spec_plain_message_json(x)),
                ),
            ),
        ];
        proof {
            assert(spec_member_seq(ms@) =~= m0);
        }
        if let Some(t) = self.temperature {
            obj_push(&mut ms, "temperature", JsonValue::Centi(t as i64));
        }
        let ghost m1 = if self.temperature is Some {
            m0.push(("temperature"@, SpecJson::Centi(self.temperature->0 as int)))
        } else {
            m0
        };
        assert(spec_member_seq(ms@) == m1);
        if let Some(sp) = &self.system {
            obj_push(&mut ms, "system", JsonValue::Str(sp.clone()));
        }
        let ghost m2 = if self.system is Some {
            m1.push(("system"@, SpecJson::Str(self.system->0@)))
        } else {
            m1
        };
        assert(spec_member_seq(ms@) == m2);
        proof {
            assert(m2 == spec_model_request_members(*self));
        }
        JsonValue::Obj(ms)
    }
}

} // verus!
