//! Decoding support: the error taxonomy for malformed responses, the
//! trusted JSON parser, and verified helpers for reading fields out of a
//! parsed document.

use vstd::prelude::*;
use crate::json::{spec_member_seq, JsonValue, Member, SpecJson};

verus! {

/// Why a response body or a streamed chunk could not be decoded.
#[derive(Debug, Clone, Copy, PartialEq, Eq, Structural)]
pub enum DecodeError {
    /// The bytes are not a JSON document.
    Syntax,
    /// The document is not a JSON object where one was expected.
    NotObject,
    /// A required field is absent.
    MissingField,
    /// A field holds a value of the wrong type.
    WrongType,
    /// An enumeration field holds a wire value outside the closed set.
    UnknownTag,
}

/// The document that parsing the given text yields, or nothing when the
/// text is not JSON. Parsing depends on the text alone.
pub uninterp spec fn spec_parse_json(s: Seq<char>) -> Option<SpecJson>;

/// Declares serde_json's `Value` so that the conversion below may take
/// one; the library never looks inside such a value.
#[verifier::external_type_specification]
#[verifier::external_body]
pub struct ExSerdeValue(serde_json::Value);

/// Relies on serde_json's `Value` being a faithful JSON tree: each variant
/// is carried over one for one, and a number becomes its integer value
/// when it has one, else its textual form.
#[verifier::external_body]
fn value_to_json(v: serde_json::Value) -> JsonValue {
    match v {
        serde_json::Value::Null => JsonValue::Null,
        serde_json::Value::Bool(b) => JsonValue::Bool(b),
        serde_json::Value::Number(n) => match n.as_i64() {
            Some(i) => JsonValue::Int(i),
            None => JsonValue::NumText(n.to_string()),
        },
        serde_json::Value::String(s) => JsonValue::Str(s),
        serde_json::Value::Array(a) => JsonValue::Arr(a.into_iter().map(value_to_json).collect()),
        serde_json::Value::Object(m) => JsonValue::Obj(
            m.into_iter().map(|(k, val)| Member { key: k, value: value_to_json(val) }).collect(),
        ),
    }
}

/// Relies on serde_json::from_str: the text parses to a document or is
/// refused, and the outcome is a function of the text alone.
#[verifier::external_body]
pub(crate) fn parse_json_str(s: &str) -> (r: Option<JsonValue>)
    ensures
        match r {
            Some(v) => spec_parse_json(s@) == Some(v@),
            None => spec_parse_json(s@) is None,
        },
{
    match serde_json::from_str::<serde_json::Value>(s) {
        Ok(v) => Some(value_to_json(v)),
        Err(_) => None,
    }
}

/// Whether two strings hold the same characters.
pub fn streq(a: &String, b: &str) -> (r: bool)
    ensures
        r == (a@ == b@),
{
    let other: String = b.to_owned();
    *a == other
}

/// The value under the first occurrence of a key in an object's members.
pub open spec fn spec_get_member(ms: Seq<(Seq<char>, SpecJson)>, key: Seq<char>) -> Option<SpecJson>
    decreases ms.len(),
{
    if ms.len() == 0 {
        None
    } else if ms[0].0 == key {
        Some(ms[0].1)
    } else {
        spec_get_member(ms.drop_first(), key)
    }
}

proof fn lemma_get_member_step(ms: Seq<(Seq<char>, SpecJson)>, key: Seq<char>, i: int)
    requires
        0 <= i < ms.len(),
        ms[i].0 != key,
    ensures
        spec_get_member(ms.skip(i), key) == spec_get_member(ms.skip(i + 1), key),
{
    assert(ms.skip(i).len() > 0);
    assert(ms.skip(i)[0] == ms[i]);
    assert(ms.skip(i).drop_first() =~= ms.skip(i + 1));
}

/// Looks a key up among an object's members; the first occurrence wins.
pub fn get_member<'a>(ms: &'a Vec<Member>, key: &str) -> (r: Option<&'a JsonValue>)
    ensures
        match r {
            Some(v) => spec_get_member(spec_member_seq(ms@), key@) == Some(v@),
            None => spec_get_member(spec_member_seq(ms@), key@) is None,
        },
{
    let ghost all = spec_member_seq(ms@);
    proof {
        crate::json::lemma_member_seq(ms@);
        assert(all.skip(0) =~= all);
    }
    let mut i: usize = 0;
    while i < ms.len()
        invariant
            i <= ms.len(),
            all == spec_member_seq(ms@),
            all.len() == ms@.len(),
            forall|j: int|
                0 <= j < all.len() ==> all[j] == (#[trigger] ms@[j].key@, ms@[j].value@),
            spec_get_member(all, key@) == spec_get_member(all.skip(i as int), key@),
        decreases ms.len() - i,
    {
        let m = &ms[i];
        if streq(&m.key, key) {
            proof {
                assert(all.skip(i as int)[0] == all[i as int]);
                assert(spec_get_member(all.skip(i as int), key@) == Some(all[i as int].1));
            }
            return Some(&m.value);
        }
        proof {
            lemma_get_member_step(all, key@, i as int);
        }
        i = i + 1;
    }
    proof {
        assert(all.skip(i as int) =~= Seq::<(Seq<char>, SpecJson)>::empty());
    }
    None
}

/// A required string field.
pub open spec fn spec_str_field(ms: Seq<(Seq<char>, SpecJson)>, key: Seq<char>) -> Result<
    Seq<char>,
    DecodeError,
> {
    match spec_get_member(ms, key) {
        None => Err(DecodeError::MissingField),
        Some(SpecJson::Str(s)) => Ok(s),
        Some(_) => Err(DecodeError::WrongType),
    }
}

/// Reads a required string field.
pub fn str_field(ms: &Vec<Member>, key: &str) -> (r: Result<String, DecodeError>)
    ensures
        match r {
            Ok(s) => spec_str_field(spec_member_seq(ms@), key@) == Ok::<_, DecodeError>(s@),
            Err(e) => spec_str_field(spec_member_seq(ms@), key@) == Err::<Seq<char>, _>(e),
        },
{
    match get_member(ms, key) {
        None => Err(DecodeError::MissingField),
        Some(JsonValue::Str(s)) => Ok(s.clone()),
        Some(_) => Err(DecodeError::WrongType),
    }
}

/// A required integer field that must fit an unsigned 32-bit count.
pub open spec fn spec_u32_field(ms: Seq<(Seq<char>, SpecJson)>, key: Seq<char>) -> Result<
    u32,
    DecodeError,
> {
    match spec_get_member(ms, key) {
        None => Err(DecodeError::MissingField),
        Some(SpecJson::Int(i)) => if 0 <= i <= u32::MAX {
            Ok(i as u32)
        } else {
            Err(DecodeError::WrongType)
        },
        Some(_) => Err(DecodeError::WrongType),
    }
}

/// Reads a required unsigned 32-bit field.
pub fn u32_field(ms: &Vec<Member>, key: &str) -> (r: Result<u32, DecodeError>)
    ensures
        match r {
            Ok(n) => spec_u32_field(spec_member_seq(ms@), key@) == Ok::<_, DecodeError>(n),
            Err(e) => spec_u32_field(spec_member_seq(ms@), key@) == Err::<u32, _>(e),
        },
{
    match get_member(ms, key) {
        None => Err(DecodeError::MissingField),
        Some(JsonValue::Int(i)) => {
            if 0 <= *i && *i <= u32::MAX as i64 {
                Ok(*i as u32)
            } else {
                Err(DecodeError::WrongType)
            }
        },
        Some(_) => Err(DecodeError::WrongType),
    }
}

/// An optional string field: absent or null reads as nothing.
pub open spec fn spec_opt_str_field(ms: Seq<(Seq<char>, SpecJson)>, key: Seq<char>) -> Result<
    Option<Seq<char>>,
    DecodeError,
> {
    match spec_get_member(ms, key) {
        None => Ok(None),
        Some(SpecJson::Null) => Ok(None),
        Some(SpecJson::Str(s)) => Ok(Some(s)),
        Some(_) => Err(DecodeError::WrongType),
    }
}

/// Reads an optional string field.
pub fn opt_str_field(ms: &Vec<Member>, key: &str) -> (r: Result<Option<String>, DecodeError>)
    ensures
        match r {
            Ok(s) => spec_opt_str_field(spec_member_seq(ms@), key@) == Ok::<_, DecodeError>(
                match s {
                    Some(x) => Some(x@),
                    None => None,
                },
            ),
            Err(e) => spec_opt_str_field(spec_member_seq(ms@), key@) == Err::<Option<Seq<char>>, _>(
                e,
            ),
        },
{
    match get_member(ms, key) {
        None => Ok(None),
        Some(JsonValue::Null) => Ok(None),
        Some(JsonValue::Str(s)) => Ok(Some(s.clone())),
        Some(_) => Err(DecodeError::WrongType),
    }
}

} // verus!
