//! The records that the API answers with, and how each is read from JSON.

use crate::error::GyazoError;
use crate::fields::{mirrors, not_an_object, number, required_text, required_u32, text};
use crate::json::{json_parse, Json};
use crate::status::{answers, response_body};
use vstd::prelude::*;
use vstd::string::*;

verus! {

/// Whether a body was decoded as it was to be: into the record that its JSON
/// describes, or into a parse error with the reason.
pub open spec fn decodes<T: View>(
    outcome: Result<T, GyazoError>,
    expected: Result<T::V, Seq<char>>,
) -> bool {
    match expected {
        Ok(record) => outcome matches Ok(read) && read@ == record,
        Err(cause) => outcome matches Err(GyazoError::JsonParseError(detail)) && detail@ == cause,
    }
}

/// The record that a body describes: what its JSON holds, read by `shape`;
/// or why it is no JSON.
pub open spec fn body_record<V>(
    body: Seq<char>,
    shape: spec_fn(Json) -> Result<V, Seq<char>>,
) -> Result<V, Seq<char>> {
    match json_parse(body) {
        Ok(json) => shape(json),
        Err(cause) => Err(cause),
    }
}

/// What a `DeleteImageResponse` holds.
pub struct DeleteRecord {
    pub image_id: Seq<char>,
    pub image_type: Seq<char>,
}

/// Response after deleting an image.
#[derive(Debug)]
pub struct DeleteImageResponse {
    pub image_id: String,
    pub image_type: String,
}

impl View for DeleteImageResponse {
    type V = DeleteRecord;

    open spec fn view(&self) -> DeleteRecord {
        DeleteRecord { image_id: self.image_id@, image_type: self.image_type@ }
    }
}

/// The record of a deletion that a JSON value describes: an object with the
/// strings `image_id` and `type`.
pub open spec fn delete_record(json: Json) -> Result<DeleteRecord, Seq<char>> {
    if !(json is Object) {
        Err(not_an_object())
    } else if let Err(cause) = required_text(json, "image_id"@) {
        Err(cause)
    } else if let Err(cause) = required_text(json, "type"@) {
        Err(cause)
    } else {
        Ok(
            DeleteRecord {
                image_id: required_text(json, "image_id"@)->Ok_0,
                image_type: required_text(json, "type"@)->Ok_0,
            },
        )
    }
}

impl DeleteImageResponse {
    /// Reads the record from a JSON value.
    pub fn from_json(json: &Json) -> (outcome: Result<Self, String>)
        ensures
            mirrors(outcome, delete_record(*json)),
    {
        if !json.is_object() {
            return Err(String::from_str("expected an object"));
        }
        let image_id = text(json, "image_id")?;
        let image_type = text(json, "type")?;
        Ok(DeleteImageResponse { image_id, image_type })
    }

    /// Reads the record from the body of a response.
    pub fn decode(body: &str) -> (outcome: Result<Self, GyazoError>)
        ensures
            decodes(outcome, body_record(body@, |json: Json| delete_record(json))),
    {
        match Json::parse(body) {
            Ok(json) => match Self::from_json(&json) {
                Ok(record) => Ok(record),
                Err(detail) => Err(GyazoError::JsonParseError(detail)),
            },
            Err(detail) => Err(GyazoError::JsonParseError(detail)),
        }
    }

    /// The answer to a call, from the status and the body of its response.
    pub fn from_response(status: u16, body: Result<String, String>) -> (outcome: Result<
        Self,
        GyazoError,
    >)
        ensures
            answers(outcome, status, body, |json: Json| delete_record(json)),
    {
        match response_body(status, body) {
            Ok(text) => Self::decode(text.as_str()),
            Err(error) => Err(error),
        }
    }
}

/// What an `UploadImageResponse` holds.
pub struct UploadRecord {
    pub image_id: Seq<char>,
    pub permalink_url: Seq<char>,
    pub thumb_url: Seq<char>,
    pub url: Seq<char>,
    pub image_type: Seq<char>,
}

/// Response after uploading an image.
#[derive(Debug)]
pub struct UploadImageResponse {
    pub image_id: String,
    pub permalink_url: String,
    pub thumb_url: String,
    pub url: String,
    pub image_type: String,
}

impl View for UploadImageResponse {
    type V = UploadRecord;

    open spec fn view(&self) -> UploadRecord {
        UploadRecord {
            image_id: self.image_id@,
            permalink_url: self.permalink_url@,
            thumb_url: self.thumb_url@,
            url: self.url@,
            image_type: self.image_type@,
        }
    }
}

/// The record of an upload that a JSON value describes: an object with the
/// strings `image_id`, `permalink_url`, `thumb_url`, `url` and `type`.
pub open spec fn upload_record(json: Json) -> Result<UploadRecord, Seq<char>> {
    if !(json is Object) {
        Err(not_an_object())
    } else if let Err(cause) = required_text(json, "image_id"@) {
        Err(cause)
    } else if let Err(cause) = required_text(json, "permalink_url"@) {
        Err(cause)
    } else if let Err(cause) = required_text(json, "thumb_url"@) {
        Err(cause)
    } else if let Err(cause) = required_text(json, "url"@) {
        Err(cause)
    } else if let Err(cause) = required_text(json, "type"@) {
        Err(cause)
    } else {
        Ok(
            UploadRecord {
                image_id: required_text(json, "image_id"@)->Ok_0,
                permalink_url: required_text(json, "permalink_url"@)->Ok_0,
                thumb_url: required_text(json, "thumb_url"@)->Ok_0,
                url: required_text(json, "url"@)->Ok_0,
                image_type: required_text(json, "type"@)->Ok_0,
            },
        )
    }
}

impl UploadImageResponse {
    /// Reads the record from a JSON value.
    pub fn from_json(json: &Json) -> (outcome: Result<Self, String>)
        ensures
            mirrors(outcome, upload_record(*json)),
    {
        if !json.is_object() {
            return Err(String::from_str("expected an object"));
        }
        let image_id = text(json, "image_id")?;
        let permalink_url = text(json, "permalink_url")?;
        let thumb_url = text(json, "thumb_url")?;
        let url = text(json, "url")?;
        let image_type = text(json, "type")?;
        Ok(UploadImageResponse { image_id, permalink_url, thumb_url, url, image_type })
    }

    /// Reads the record from the body of a response.
    pub fn decode(body: &str) -> (outcome: Result<Self, GyazoError>)
        ensures
            decodes(outcome, body_record(body@, |json: Json| upload_record(json))),
    {
        match Json::parse(body) {
            Ok(json) => match Self::from_json(&json) {
                Ok(record) => Ok(record),
                Err(detail) => Err(GyazoError::JsonParseError(detail)),
            },
            Err(detail) => Err(GyazoError::JsonParseError(detail)),
        }
    }

    /// The answer to a call, from the status and the body of its response.
    pub fn from_response(status: u16, body: Result<String, String>) -> (outcome: Result<
        Self,
        GyazoError,
    >)
        ensures
            answers(outcome, status, body, |json: Json| upload_record(json)),
    {
        match response_body(status, body) {
            Ok(text) => Self::decode(text.as_str()),
            Err(error) => Err(error),
        }
    }
}

/// What an `OembedResponse` holds.
pub struct OembedRecord {
    pub version: Seq<char>,
    pub image_type: Seq<char>,
    pub provider_name: Seq<char>,
    pub provider_url: Seq<char>,
    pub url: Seq<char>,
    pub width: u32,
    pub height: u32,
}

/// Oembed response from the Gyazo API.
#[derive(Debug)]
pub struct OembedResponse {
    pub version: String,
    pub image_type: String,
    pub provider_name: String,
    pub provider_url: String,
    pub url: String,
    pub width: u32,
    pub height: u32,
}

impl View for OembedResponse {
    type V = OembedRecord;

    open spec fn view(&self) -> OembedRecord {
        OembedRecord {
            version: self.version@,
            image_type: self.image_type@,
            provider_name: self.provider_name@,
            provider_url: self.provider_url@,
            url: self.url@,
            width: self.width,
            height: self.height,
        }
    }
}

/// The embed metadata that a JSON value describes: an object with the
/// strings `version`, `type`, `provider_name`, `provider_url` and `url` and
/// the numbers `width` and `height`.
pub open spec fn oembed_record(json: Json) -> Result<OembedRecord, Seq<char>> {
    if !(json is Object) {
        Err(not_an_object())
    } else if let Err(cause) = required_text(json, "version"@) {
        Err(cause)
    } else if let Err(cause) = required_text(json, "type"@) {
        Err(cause)
    } else if let Err(cause) = required_text(json, "provider_name"@) {
        Err(cause)
    } else if let Err(cause) = required_text(json, "provider_url"@) {
        Err(cause)
    } else if let Err(cause) = required_text(json, "url"@) {
        Err(cause)
    } else if let Err(cause) = required_u32(json, "width"@) {
        Err(cause)
    } else if let Err(cause) = required_u32(json, "height"@) {
        Err(cause)
    } else {
        Ok(
            OembedRecord {
                version: required_text(json, "version"@)->Ok_0,
                image_type: required_text(json, "type"@)->Ok_0,
                provider_name: required_text(json, "provider_name"@)->Ok_0,
                provider_url: required_text(json, "provider_url"@)->Ok_0,
                url: required_text(json, "url"@)->Ok_0,
                width: required_u32(json, "width"@)->Ok_0,
                height: required_u32(json, "height"@)->Ok_0,
            },
        )
    }
}

impl OembedResponse {
    /// Reads the record from a JSON value.
    pub fn from_json(json: &Json) -> (outcome: Result<Self, String>)
        ensures
            mirrors(outcome, oembed_record(*json)),
    {
        if !json.is_object() {
            return Err(String::from_str("expected an object"));
        }
        let version = text(json, "version")?;
        let image_type = text(json, "type")?;
        let provider_name = text(json, "provider_name")?;
        let provider_url = text(json, "provider_url")?;
        let url = text(json, "url")?;
        let width = number(json, "width")?;
        let height = number(json, "height")?;
        Ok(
            OembedResponse {
                version,
                image_type,
                provider_name,
                provider_url,
                url,
                width,
                height,
            },
        )
    }

    /// Reads the record from the body of a response.
    pub fn decode(body: &str) -> (outcome: Result<Self, GyazoError>)
        ensures
            decodes(outcome, body_record(body@, |json: Json| oembed_record(json))),
    {
        match Json::parse(body) {
            Ok(json) => match Self::from_json(&json) {
                Ok(record) => Ok(record),
                Err(detail) => Err(GyazoError::JsonParseError(detail)),
            },
            Err(detail) => Err(GyazoError::JsonParseError(detail)),
        }
    }

    /// The answer to a call, from the status and the body of its response.
    pub fn from_response(status: u16, body: Result<String, String>) -> (outcome: Result<
        Self,
        GyazoError,
    >)
        ensures
            answers(outcome, status, body, |json: Json| oembed_record(json)),
    {
        match response_body(status, body) {
            Ok(text) => Self::decode(text.as_str()),
            Err(error) => Err(error),
        }
    }
}

} // verus!
