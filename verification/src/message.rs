//! Conversation turns, callable-tool declarations and tool-choice
//! selection, with their exact wire forms.

use vstd::prelude::*;
use crate::json::{spec_member_seq, spec_value_seq, obj_push, arr_push, JsonValue, Member, SpecJson};

verus! {

/// One conversation turn. The wire form carries a `role` discriminator;
/// the optional `name` is omitted when absent; a tool turn instead carries
/// the id of the tool call it answers.
#[derive(Debug, Clone)]
pub enum Message {
    System { content: String, name: Option<String> },
    User { content: String, name: Option<String> },
    Assistant { content: String, name: Option<String> },
    Tool { content: String, tool_call_id: String },
}

/// Wire members of a turn with the given role, content and optional name.
pub open spec fn spec_role_members(role: Seq<char>, content: Seq<char>, name: Option<String>) -> Seq<
    (Seq<char>, SpecJson),
> {
    let base = seq![
        ("role"@, SpecJson::Str(role)),
        ("content"@, SpecJson::Str(content)),
    ];
    match name {
        Some(n) => base.push(("name"@, SpecJson::Str(n@))),
        None => base,
    }
}

/// Wire form of a conversation turn.
pub open spec fn spec_message_json(m: Message) -> SpecJson {
    match m {
        Message::System { content, name } => SpecJson::Obj(
            spec_role_members("system"@, content@, name),
        ),
        Message::User { content, name } => SpecJson::Obj(
            spec_role_members("user"@, content@, name),
        ),
        Message::Assistant { content, name } => SpecJson::Obj(
            spec_role_members("assistant"@, content@, name),
        ),
        Message::Tool { content, tool_call_id } => SpecJson::Obj(
            seq![
                ("role"@, SpecJson::Str("tool"@)),
                ("content"@, SpecJson::Str(content@)),
                ("tool_call_id"@, SpecJson::Str(tool_call_id@)),
            ],
        ),
    }
}

impl Message {
    /// The wire document of this turn.
    pub fn to_json(&self) -> (r: JsonValue)
        ensures
            r@ == spec_message_json(*self),
    {
        let mut ms: Vec<Member> = Vec::new();
        match self {
            Message::System { content, name } => {
                obj_push(&mut ms, "role", JsonValue::Str("system".to_owned()));
                obj_push(&mut ms, "content", JsonValue::Str(content.clone()));
                if let Some(n) = name {
                    obj_push(&mut ms, "name", JsonValue::Str(n.clone()));
                }
                proof {
                    assert(spec_member_seq(ms@) =~= spec_role_members(
                        "system"@,
                        content@,
                        *name,
                    ));
                }
            },
            Message::User { content, name } => {
                obj_push(&mut ms, "role", JsonValue::Str("user".to_owned()));
                obj_push(&mut ms, "content", JsonValue::Str(content.clone()));
                if let Some(n) = name {
                    obj_push(&mut ms, "name", JsonValue::Str(n.clone()));
                }
                proof {
                    assert(spec_member_seq(ms@) =~= spec_role_members("user"@, content@, *name));
                }
            },
            Message::Assistant { content, name } => {
                obj_push(&mut ms, "role", JsonValue::Str("assistant".to_owned()));
                obj_push(&mut ms, "content", JsonValue::Str(content.clone()));
                if let Some(n) = name {
                    obj_push(&mut ms, "name", JsonValue::Str(n.clone()));
                }
                proof {
                    assert(spec_member_seq(ms@) =~= spec_role_members(
                        "assistant"@,
                        content@,
                        *name,
                    ));
                }
            },
            Message::Tool { content, tool_call_id } => {
                obj_push(&mut ms, "role", JsonValue::Str("tool".to_owned()));
                obj_push(&mut ms, "content", JsonValue::Str(content.clone()));
                obj_push(&mut ms, "tool_call_id", JsonValue::Str(tool_call_id.clone()));
                proof {
                    assert(spec_member_seq(ms@) =~= spec_message_json(*self)->Obj_0);
                }
            },
        }
        JsonValue::Obj(ms)
    }
}

/// One property of a tool's parameter object: a type tag and a description.
#[derive(Debug, Clone)]
pub struct Parameter {
    pub type_: String,
    pub description: String,
}

/// Wire form of one parameter property.
pub open spec fn spec_parameter_json(p: Parameter) -> SpecJson {
    SpecJson::Obj(
        seq![
            ("type"@, SpecJson::Str(p.type_@)),
            ("description"@, SpecJson::Str(p.description@)),
        ],
    )
}

/// A JSON-schema-like parameter object: named properties and the names
/// that a call must supply.
///
/// A well-formed value lists each property name once; the provider also
/// expects every required name to appear among the properties, which this
/// type does not enforce.
#[derive(Debug, Clone)]
pub enum FunctionParameters {
    Object { properties: Vec<(String, Parameter)>, required: Vec<String> },
}

impl FunctionParameters {
    /// Property names are distinct.
    pub open spec fn wf(self) -> bool {
        match self {
            FunctionParameters::Object { properties, required } => forall|i: int, j: int|
                0 <= i < j < properties@.len() ==> properties@[i].0@ != properties@[j].0@,
        }
    }
}

/// Wire form of the parameter object.
pub open spec fn spec_function_parameters_json(fp: FunctionParameters) -> SpecJson {
    match fp {
        FunctionParameters::Object { properties, required } => SpecJson::Obj(
            seq![
                ("type"@, SpecJson::Str("object"@)),
                (
                    "properties"@,
                    SpecJson::Obj(
                        properties@.map_values(
                            |pr: (String, Parameter)| (pr.0@, spec_parameter_json(pr.1)),
                        ),
                    ),
                ),
                (
                    "required"@,
                    SpecJson::Arr(required@.map_values(|s: String| SpecJson::Str(s@))),
                ),
            ],
        ),
    }
}

impl FunctionParameters {
    /// The wire document of this parameter object.
    pub fn to_json(&self) -> (r: JsonValue)
        ensures
            r@ == spec_function_parameters_json(*self),
    {
        match self {
            FunctionParameters::Object { properties, required } => {
                let mut props: Vec<Member> = Vec::new();
                let mut i: usize = 0;
                while i < properties.len()
                    invariant
                        i <= properties.len(),
                        spec_member_seq(props@) == properties@.take(i as int).map_values(
                            |pr: (String, Parameter)| (pr.0@, spec_parameter_json(pr.1)),
                        ),
                    decreases properties.len() - i,
                {
                    let p = &properties[i];
                    let mut pm: Vec<Member> = Vec::new();
                    obj_push(&mut pm, "type", JsonValue::Str(p.1.type_.clone()));
                    obj_push(&mut pm, "description", JsonValue::Str(p.1.description.clone()));
                    proof {
                        assert(spec_member_seq(pm@) =~= spec_parameter_json(p.1)->Obj_0);
                    }
                    obj_push(&mut props, p.0.as_str(), JsonValue::Obj(pm));
                    i = i + 1;
                    proof {
                        assert(properties@.take(i as int) =~= properties@.take(i as int - 1).push(
                            properties@[i as int - 1],
                        ));
                        assert(spec_member_seq(props@) =~= properties@.take(i as int).map_values(
                            |pr: (String, Parameter)| (pr.0@, spec_parameter_json(pr.1)),
                        ));
                    }
                }
                proof {
                    assert(properties@.take(properties@.len() as int) =~= properties@);
                }
                let mut req: Vec<JsonValue> = Vec::new();
                let mut j: usize = 0;
                while j < required.len()
                    invariant
                        j <= required.len(),
                        spec_value_seq(req@) == required@.take(j as int).map_values(
                            |s: String| SpecJson::Str(s@),
                        ),
                    decreases required.len() - j,
                {
                    arr_push(&mut req, JsonValue::Str(required[j].clone()));
                    j = j + 1;
                    proof {
                        assert(required@.take(j as int) =~= required@.take(j as int - 1).push(
                            required@[j as int - 1],
                        ));
                        assert(spec_value_seq(req@) =~= required@.take(j as int).map_values(
                            |s: String| SpecJson::Str(s@),
                        ));
                    }
                }
                proof {
                    assert(required@.take(required@.len() as int) =~= required@);
                }
                let mut ms: Vec<Member> = Vec::new();
                obj_push(&mut ms, "type", JsonValue::Str("object".to_owned()));
                obj_push(&mut ms, "properties", JsonValue::Obj(props));
                obj_push(&mut ms, "required", JsonValue::Arr(req));
                proof {
                    assert(spec_member_seq(ms@) =~= spec_function_parameters_json(*self)->Obj_0);
                }
                JsonValue::Obj(ms)
            },
        }
    }
}

/// A callable tool the model may ask to invoke: a named, described
/// function with a parameter object.
#[derive(Debug, Clone)]
pub enum Tool {
    Function { description: String, name: String, parameters: FunctionParameters },
}

/// Wire form of a tool declaration: the `function` type tag beside the
/// function's own description.
pub open spec fn spec_tool_json(t: Tool) -> SpecJson {
    match t {
        Tool::Function { description, name, parameters } => SpecJson::Obj(
            seq![
                ("type"@, SpecJson::Str("function"@)),
                (
                    "function"@,
                    SpecJson::Obj(
                        seq![
                            ("description"@, SpecJson::Str(description@)),
                            ("name"@, SpecJson::Str(name@)),
                            ("parameters"@, spec_function_parameters_json(parameters)),
                        ],
                    ),
                ),
            ],
        ),
    }
}

impl Tool {
    /// The wire document of this tool declaration.
    pub fn to_json(&self) -> (r: JsonValue)
        ensures
            r@ == spec_tool_json(*self),
    {
        match self {
            Tool::Function { description, name, parameters } => {
                let mut inner: Vec<Member> = Vec::new();
                obj_push(&mut inner, "description", JsonValue::Str(description.clone()));
                obj_push(&mut inner, "name", JsonValue::Str(name.clone()));
                obj_push(&mut inner, "parameters", parameters.to_json());
                proof {
                    assert(spec_member_seq(inner@) =~= seq![
                        ("description"@, SpecJson::Str(description@)),
                        ("name"@, SpecJson::Str(name@)),
                        ("parameters"@, spec_function_parameters_json(*parameters)),
                    ]);
                }
                let mut ms: Vec<Member> = Vec::new();
                obj_push(&mut ms, "type", JsonValue::Str("function".to_owned()));
                obj_push(&mut ms, "function", JsonValue::Obj(inner));
                proof {
                    assert(spec_member_seq(ms@) =~= spec_tool_json(*self)->Obj_0);
                }
                JsonValue::Obj(ms)
            },
        }
    }
}

/// How the model may use the declared tools: never, at its discretion,
/// necessarily, or one named function.
#[derive(Debug, Clone)]
pub enum ToolChoice {
    NoTools,
    Auto,
    Required,
    Function(String),
}

/// Wire form of a tool choice: a bare string for the first three, and for
/// a named function the nested object the provider expects.
pub open spec fn spec_tool_choice_json(tc: ToolChoice) -> SpecJson {
    match tc {
        ToolChoice::NoTools => SpecJson::Str("none"@),
        ToolChoice::Auto => SpecJson::Str("auto"@),
        ToolChoice::Required => SpecJson::Str("required"@),
        ToolChoice::Function(name) => SpecJson::Obj(
            seq![
                ("type"@, SpecJson::Str("function"@)),
                ("function"@, SpecJson::Obj(seq![("name"@, SpecJson::Str(name@))])),
            ],
        ),
    }
}

impl ToolChoice {
    /// The wire document of this tool choice.
    pub fn to_json(&self) -> (r: JsonValue)
        ensures
            r@ == spec_tool_choice_json(*self),
    {
        match self {
            ToolChoice::NoTools => JsonValue::Str("none".to_owned()),
            ToolChoice::Auto => JsonValue::Str("auto".to_owned()),
            ToolChoice::Required => JsonValue::Str("required".to_owned()),
            ToolChoice::Function(name) => {
                let mut inner: Vec<Member> = Vec::new();
                obj_push(&mut inner, "name", JsonValue::Str(name.clone()));
                let mut ms: Vec<Member> = Vec::new();
                obj_push(&mut ms, "type", JsonValue::Str("function".to_owned()));
                obj_push(&mut ms, "function", JsonValue::Obj(inner));
                proof {
                    assert(spec_member_seq(ms@) =~= spec_tool_choice_json(*self)->Obj_0);
                }
                JsonValue::Obj(ms)
            },
        }
    }
}

/// The layout the response text must take.
#[derive(Debug, Clone)]
pub enum ResponseFormat {
    Text,
    JsonObject,
}

/// Wire form of a response format.
pub open spec fn spec_response_format_json(rf: ResponseFormat) -> SpecJson {
    match rf {
        ResponseFormat::Text => SpecJson::Str("text"@),
        ResponseFormat::JsonObject => SpecJson::Str("json_object"@),
    }
}

impl ResponseFormat {
    /// The wire document of this response format.
    pub fn to_json(&self) -> (r: JsonValue)
        ensures
            r@ == spec_response_format_json(*self),
    {
        match self {
            ResponseFormat::Text => JsonValue::Str("text".to_owned()),
            ResponseFormat::JsonObject => JsonValue::Str("json_object".to_owned()),
        }
    }
}

impl Default for ResponseFormat {
    fn default() -> (r: Self)
        ensures
            r is Text,
    {
        ResponseFormat::Text
    }
}

/// Options that apply only to streamed responses.
#[derive(Debug, Clone)]
pub struct StreamOptions {
    pub include_usage: Option<bool>,
}

/// Wire form of the stream options: `include_usage` is omitted when absent.
pub open spec fn spec_stream_options_json(so: StreamOptions) -> SpecJson {
    match so.include_usage {
        Some(b) => SpecJson::Obj(seq![("include_usage"@, SpecJson::Bool(b))]),
        None => SpecJson::Obj(Seq::empty()),
    }
}

impl StreamOptions {
    /// The wire document of these options.
    pub fn to_json(&self) -> (r: JsonValue)
        ensures
            r@ == spec_stream_options_json(*self),
    {
        let mut ms: Vec<Member> = Vec::new();
        if let Some(b) = self.include_usage {
            obj_push(&mut ms, "include_usage", JsonValue::Bool(b));
        }
        proof {
            assert(spec_member_seq(ms@) =~= spec_stream_options_json(*self)->Obj_0);
        }
        JsonValue::Obj(ms)
    }
}

} // verus!
