//! JSON values, as far as the records of the API need them.

use vstd::prelude::*;
use vstd::string::*;

verus! {

/// A JSON value.
#[derive(Debug)]
pub enum Json {
    Null,
    Bool(bool),
    /// A number: its value where it is an integer from 0 to `u64::MAX`,
    /// nothing where it is negative or has a fraction or an exponent.
    Number(Option<u64>),
    Text(String),
    Array(Vec<Json>),
    /// The members of an object, each with its key.
    Object(Vec<(String, Json)>),
}

#[verifier::external_type_specification]
#[verifier::external_body]
pub struct ExValue(serde_json::Value);

/// The JSON value that a `serde_json::Value` stands for.
pub uninterp spec fn value_json(value: serde_json::Value) -> Json;

/// What `text` is as JSON: its value, or why it is not JSON.
pub uninterp spec fn json_parse(text: Seq<char>) -> Result<Json, Seq<char>>;

/// Calls `serde_json::from_str` for a `serde_json::Value`.
///
/// Trusted: the result depends on the text alone, and an error is handed
/// back as its message.
#[verifier::external_body]
fn parse_value(text: &str) -> (parsed: Result<serde_json::Value, String>)
    ensures
        match parsed {
            Ok(value) => json_parse(text@) == Ok::<Json, Seq<char>>(value_json(value)),
            Err(cause) => json_parse(text@) == Err::<Json, Seq<char>>(cause@),
        },
{
    match serde_json::from_str::<serde_json::Value>(text) {
        Ok(value) => Ok(value),
        Err(error) => Err(error.to_string()),
    }
}

/// Takes a `serde_json::Value` apart, variant by variant, and reads a number
/// with `Number::as_u64`.
///
/// Trusted: the result is the same JSON value, held in this library's type.
#[verifier::external_body]
fn json_from_value(value: serde_json::Value) -> (json: Json)
    ensures
        json == value_json(value),
{
    match value {
        serde_json::Value::Null => Json::Null,
        serde_json::Value::Bool(flag) => Json::Bool(flag),
        serde_json::Value::Number(number) => Json::Number(number.as_u64()),
        serde_json::Value::String(text) => Json::Text(text),
        serde_json::Value::Array(items) => Json::Array(
            items.into_iter().map(json_from_value).collect(),
        ),
        serde_json::Value::Object(members) => Json::Object(
            members.into_iter().map(|(key, item)| (key, json_from_value(item))).collect(),
        ),
    }
}

/// The value of the first member with the given key.
pub open spec fn lookup(members: Seq<(String, Json)>, key: Seq<char>) -> Option<Json>
    decreases members.len(),
{
    if members.len() == 0 {
        None
    } else if members[0].0@ == key {
        Some(members[0].1)
    } else {
        lookup(members.subrange(1, members.len() as int), key)
    }
}

impl Json {
    /// Reads a JSON text.
    pub fn parse(text: &str) -> (parsed: Result<Json, String>)
        ensures
            match parsed {
                Ok(json) => json_parse(text@) == Ok::<Json, Seq<char>>(json),
                Err(cause) => json_parse(text@) == Err::<Json, Seq<char>>(cause@),
            },
    {
        match parse_value(text) {
            Ok(value) => Ok(json_from_value(value)),
            Err(cause) => Err(cause),
        }
    }

    /// Whether this is an object.
    pub fn is_object(&self) -> (yes: bool)
        ensures
            yes == (self is Object),
    {
        match self {
            Json::Object(_) => true,
            _ => false,
        }
    }

    /// The member of an object by the given key; nothing where this is no
    /// object or has no such member.
    pub open spec fn member(&self, key: Seq<char>) -> Option<Json> {
        match self {
            Json::Object(members) => lookup(members@, key),
            _ => None,
        }
    }

    /// Looks a member of an object up by its key.
    pub fn get(&self, key: &str) -> (found: Option<&Json>)
        ensures
            match found {
                Some(json) => self.member(key@) == Some(*json),
                None => self.member(key@) is None,
            },
    {
        match self {
            Json::Object(members) => {
                let wanted = key.to_owned();
                let mut at: usize = 0;
                assert(members@.subrange(0, members.len() as int) =~= members@);
                while at < members.len()
                    invariant
                        at <= members.len(),
                        wanted@ == key@,
                        self.member(key@) == lookup(members@, key@),
                        lookup(members@, key@) == lookup(
                            members@.subrange(at as int, members.len() as int),
                            key@,
                        ),
                    decreases members.len() - at,
                {
                    let ghost rest = members@.subrange(at as int, members.len() as int);
                    assert(rest[0] == members@[at as int]);
                    assert(rest.subrange(1, rest.len() as int) =~= members@.subrange(
                        at as int + 1,
                        members.len() as int,
                    ));
                    if members[at].0 == wanted {
                        return Some(&members[at].1);
                    }
                    at = at + 1;
                }
                assert(members@.subrange(at as int, members.len() as int).len() == 0);
                None
            },
            _ => None,
        }
    }
}

} // verus!
