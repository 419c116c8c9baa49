//! Reading the members of a JSON object, one field at a time.

use crate::json::Json;
use crate::text::optional_chars;
use vstd::prelude::*;
use vstd::string::*;

verus! {

/// What is reported of a value that is no JSON object.
pub open spec fn not_an_object() -> Seq<char> {
    "expected an object"@
}

/// What is reported of a value that is no JSON array.
pub open spec fn not_an_array() -> Seq<char> {
    "expected an array"@
}

/// What is reported of a field that an object must have and lacks.
pub open spec fn missing_field(key: Seq<char>) -> Seq<char> {
    "missing field `"@ + key + "`"@
}

/// What is reported of a field whose value is of the wrong kind.
pub open spec fn invalid_field(key: Seq<char>) -> Seq<char> {
    "invalid field `"@ + key + "`"@
}

/// A field that must be there: its value, whatever it is.
pub open spec fn required_member(json: Json, key: Seq<char>) -> Result<Json, Seq<char>> {
    match json.member(key) {
        Some(value) => Ok(value),
        None => Err(missing_field(key)),
    }
}

/// A field that must be there and hold a string.
pub open spec fn required_text(json: Json, key: Seq<char>) -> Result<Seq<char>, Seq<char>> {
    match json.member(key) {
        Some(Json::Text(text)) => Ok(text@),
        Some(_) => Err(invalid_field(key)),
        None => Err(missing_field(key)),
    }
}

/// A field that holds a string where it is there at all: a field that is
/// absent or `null` is not present.
pub open spec fn optional_text(json: Json, key: Seq<char>) -> Result<
    Option<Seq<char>>,
    Seq<char>,
> {
    match json.member(key) {
        Some(Json::Text(text)) => Ok(Some(text@)),
        Some(Json::Null) => Ok(None),
        Some(_) => Err(invalid_field(key)),
        None => Ok(None),
    }
}

/// A field that must be there and hold an integer from 0 to `u32::MAX`.
pub open spec fn required_u32(json: Json, key: Seq<char>) -> Result<u32, Seq<char>> {
    match json.member(key) {
        Some(Json::Number(Some(number))) => if number <= u32::MAX {
            Ok(number as u32)
        } else {
            Err(invalid_field(key))
        },
        Some(_) => Err(invalid_field(key)),
        None => Err(missing_field(key)),
    }
}

/// Whether what was read is what was to be read: the same value, or a
/// failure with the same words.
pub open spec fn mirrors<T: View>(outcome: Result<T, String>, expected: Result<T::V, Seq<char>>)
    -> bool {
    match expected {
        Ok(value) => outcome matches Ok(read) && read@ == value,
        Err(cause) => outcome matches Err(detail) && detail@ == cause,
    }
}

/// As `mirrors`, for a field that may be absent.
pub open spec fn mirrors_optional(
    outcome: Result<Option<String>, String>,
    expected: Result<Option<Seq<char>>, Seq<char>>,
) -> bool {
    match expected {
        Ok(value) => outcome matches Ok(read) && optional_chars(read) == value,
        Err(cause) => outcome matches Err(detail) && detail@ == cause,
    }
}

fn missing(key: &str) -> (detail: String)
    ensures
        detail@ == missing_field(key@),
{
    let mut detail = String::from_str("missing field `");
    detail.append(key);
    detail.append("`");
    detail
}

fn invalid(key: &str) -> (detail: String)
    ensures
        detail@ == invalid_field(key@),
{
    let mut detail = String::from_str("invalid field `");
    detail.append(key);
    detail.append("`");
    detail
}

/// Reads a field that must be there.
pub fn member<'a>(json: &'a Json, key: &str) -> (outcome: Result<&'a Json, String>)
    ensures
        match required_member(*json, key@) {
            Ok(value) => outcome matches Ok(read) && *read == value,
            Err(cause) => outcome matches Err(detail) && detail@ == cause,
        },
{
    match json.get(key) {
        Some(value) => Ok(value),
        None => Err(missing(key)),
    }
}

/// Reads a field that must hold a string.
pub fn text(json: &Json, key: &str) -> (outcome: Result<String, String>)
    ensures
        mirrors(outcome, required_text(*json, key@)),
{
    match json.get(key) {
        Some(Json::Text(text)) => Ok(text.clone()),
        Some(_) => Err(invalid(key)),
        None => Err(missing(key)),
    }
}

/// Reads a field that may hold a string.
pub fn text_or_absent(json: &Json, key: &str) -> (outcome: Result<Option<String>, String>)
    ensures
        mirrors_optional(outcome, optional_text(*json, key@)),
{
    match json.get(key) {
        Some(Json::Text(text)) => Ok(Some(text.clone())),
        Some(Json::Null) => Ok(None),
        Some(_) => Err(invalid(key)),
        None => Ok(None),
    }
}

/// Reads a field that must hold a number that fits 32 bits.
pub fn number(json: &Json, key: &str) -> (outcome: Result<u32, String>)
    ensures
        mirrors(outcome, required_u32(*json, key@)),
{
    match json.get(key) {
        Some(Json::Number(Some(number))) => {
            if *number <= 0xffff_ffff {
                Ok(*number as u32)
            } else {
                Err(invalid(key))
            }
        },
        Some(_) => Err(invalid(key)),
        None => Err(missing(key)),
    }
}

/// An optional field that is `null` or absent reads as not present, and one
/// that reads as present holds the very string of the JSON: an absent field
/// never turns into an empty string.
pub proof fn lemma_null_or_absent_is_not_present(json: Json, key: Seq<char>)
    ensures
        json.member(key) is None ==> optional_text(json, key) == Ok::<
            Option<Seq<char>>,
            Seq<char>,
        >(None),
        json.member(key) == Some(Json::Null) ==> optional_text(json, key) == Ok::<
            Option<Seq<char>>,
            Seq<char>,
        >(None),
        optional_text(json, key) matches Ok(Some(text)) ==> json.member(key) matches Some(
            Json::Text(held),
        ) && held@ == text,
{
}

/// A required field is read exactly where the object holds a string under
/// its key.
pub proof fn lemma_required_text_is_read(json: Json, key: Seq<char>)
    ensures
        required_text(json, key) is Ok <==> json.member(key) matches Some(Json::Text(_)),
{
}

} // verus!
