//! The record of a stored image, with its metadata and recognised text.

use crate::error::GyazoError;
use crate::fields::{
    member, mirrors, not_an_array, not_an_object, optional_text, required_member, required_text,
    text, text_or_absent,
};
use crate::json::Json;
use crate::records::{body_record, decodes};
use crate::status::{answers, is_readable, is_rejection, response_body};
use crate::text::optional_chars;
use vstd::prelude::*;
use vstd::string::*;

verus! {

/// What an `ImageMetadata` holds.
pub struct MetadataRecord {
    pub app: Option<Seq<char>>,
    pub title: Option<Seq<char>>,
    pub url: Option<Seq<char>>,
    pub desc: Option<Seq<char>>,
}

/// Where an image came from.
#[derive(Debug)]
pub struct ImageMetadata {
    pub app: Option<String>,
    pub title: Option<String>,
    pub url: Option<String>,
    pub desc: Option<String>,
}

impl View for ImageMetadata {
    type V = MetadataRecord;

    open spec fn view(&self) -> MetadataRecord {
        MetadataRecord {
            app: optional_chars(self.app),
            title: optional_chars(self.title),
            url: optional_chars(self.url),
            desc: optional_chars(self.desc),
        }
    }
}

/// The metadata that a JSON value describes: an object in which `app`,
/// `title`, `url` and `desc` are each a string, `null` or absent.
pub open spec fn metadata_record(json: Json) -> Result<MetadataRecord, Seq<char>> {
    if !(json is Object) {
        Err(not_an_object())
    } else if let Err(cause) = optional_text(json, "app"@) {
        Err(cause)
    } else if let Err(cause) = optional_text(json, "title"@) {
        Err(cause)
    } else if let Err(cause) = optional_text(json, "url"@) {
        Err(cause)
    } else if let Err(cause) = optional_text(json, "desc"@) {
        Err(cause)
    } else {
        Ok(
            MetadataRecord {
                app: optional_text(json, "app"@)->Ok_0,
                title: optional_text(json, "title"@)->Ok_0,
                url: optional_text(json, "url"@)->Ok_0,
                desc: optional_text(json, "desc"@)->Ok_0,
            },
        )
    }
}

impl ImageMetadata {
    /// Reads the metadata from a JSON value.
    pub fn from_json(json: &Json) -> (outcome: Result<Self, String>)
        ensures
            mirrors(outcome, metadata_record(*json)),
    {
        if !json.is_object() {
            return Err(String::from_str("expected an object"));
        }
        let app = text_or_absent(json, "app")?;
        let title = text_or_absent(json, "title")?;
        let url = text_or_absent(json, "url")?;
        let desc = text_or_absent(json, "desc")?;
        Ok(ImageMetadata { app, title, url, desc })
    }
}

/// What an `ImageOcr` holds.
pub struct OcrRecord {
    pub locale: Seq<char>,
    pub description: Seq<char>,
}

/// The text that was recognised in an image.
#[derive(Debug)]
pub struct ImageOcr {
    pub locale: String,
    pub description: String,
}

impl View for ImageOcr {
    type V = OcrRecord;

    open spec fn view(&self) -> OcrRecord {
        OcrRecord { locale: self.locale@, description: self.description@ }
    }
}

/// The recognised text that a JSON value describes: an object with the
/// strings `locale` and `description`.
pub open spec fn ocr_record(json: Json) -> Result<OcrRecord, Seq<char>> {
    if !(json is Object) {
        Err(not_an_object())
    } else if let Err(cause) = required_text(json, "locale"@) {
        Err(cause)
    } else if let Err(cause) = required_text(json, "description"@) {
        Err(cause)
    } else {
        Ok(
            OcrRecord {
                locale: required_text(json, "locale"@)->Ok_0,
                description: required_text(json, "description"@)->Ok_0,
            },
        )
    }
}

impl ImageOcr {
    /// Reads the recognised text from a JSON value.
    pub fn from_json(json: &Json) -> (outcome: Result<Self, String>)
        ensures
            mirrors(outcome, ocr_record(*json)),
    {
        if !json.is_object() {
            return Err(String::from_str("expected an object"));
        }
        let locale = text(json, "locale")?;
        let description = text(json, "description")?;
        Ok(ImageOcr { locale, description })
    }
}

/// What a `GyazoImageResponse` holds.
pub struct ImageRecord {
    pub image_id: Seq<char>,
    pub permalink_url: Option<Seq<char>>,
    pub thumb_url: Option<Seq<char>>,
    pub image_type: Seq<char>,
    pub created_at: Seq<char>,
    pub metadata: MetadataRecord,
    pub ocr: Option<OcrRecord>,
}

/// Image response from the Gyazo API.
#[derive(Debug)]
pub struct GyazoImageResponse {
    pub image_id: String,
    pub permalink_url: Option<String>,
    pub thumb_url: Option<String>,
    pub image_type: String,
    pub created_at: String,
    pub metadata: ImageMetadata,
    pub ocr: Option<ImageOcr>,
}

/// What an optional `ImageOcr` holds.
pub open spec fn optional_ocr(ocr: Option<ImageOcr>) -> Option<OcrRecord> {
    match ocr {
        Some(held) => Some(held@),
        None => None,
    }
}

impl View for GyazoImageResponse {
    type V = ImageRecord;

    open spec fn view(&self) -> ImageRecord {
        ImageRecord {
            image_id: self.image_id@,
            permalink_url: optional_chars(self.permalink_url),
            thumb_url: optional_chars(self.thumb_url),
            image_type: self.image_type@,
            created_at: self.created_at@,
            metadata: self.metadata@,
            ocr: optional_ocr(self.ocr),
        }
    }
}

/// The metadata of an image: the member `metadata`, which must be there.
pub open spec fn image_metadata(json: Json) -> Result<MetadataRecord, Seq<char>> {
    match required_member(json, "metadata"@) {
        Ok(value) => metadata_record(value),
        Err(cause) => Err(cause),
    }
}

/// The recognised text of an image: the member `ocr`, where it is there and
/// not `null`.
pub open spec fn image_ocr(json: Json) -> Result<Option<OcrRecord>, Seq<char>> {
    match json.member("ocr"@) {
        None => Ok(None),
        Some(Json::Null) => Ok(None),
        Some(value) => match ocr_record(value) {
            Ok(record) => Ok(Some(record)),
            Err(cause) => Err(cause),
        },
    }
}

/// The image that a JSON value describes: an object with the strings
/// `image_id`, `type` and `created_at`, the optional strings `permalink_url`
/// and `thumb_url`, the object `metadata` and, optionally, the object `ocr`.
pub open spec fn image_record(json: Json) -> Result<ImageRecord, Seq<char>> {
    if !(json is Object) {
        Err(not_an_object())
    } else if let Err(cause) = required_text(json, "image_id"@) {
        Err(cause)
    } else if let Err(cause) = optional_text(json, "permalink_url"@) {
        Err(cause)
    } else if let Err(cause) = optional_text(json, "thumb_url"@) {
        Err(cause)
    } else if let Err(cause) = required_text(json, "type"@) {
        Err(cause)
    } else if let Err(cause) = required_text(json, "created_at"@) {
        Err(cause)
    } else if let Err(cause) = image_metadata(json) {
        Err(cause)
    } else if let Err(cause) = image_ocr(json) {
        Err(cause)
    } else {
        Ok(
            ImageRecord {
                image_id: required_text(json, "image_id"@)->Ok_0,
                permalink_url: optional_text(json, "permalink_url"@)->Ok_0,
                thumb_url: optional_text(json, "thumb_url"@)->Ok_0,
                image_type: required_text(json, "type"@)->Ok_0,
                created_at: required_text(json, "created_at"@)->Ok_0,
                metadata: image_metadata(json)->Ok_0,
                ocr: image_ocr(json)->Ok_0,
            },
        )
    }
}

/// The images that a sequence of JSON values describes, in their order; the
/// failure of the first value that describes none.
pub open spec fn image_records(items: Seq<Json>) -> Result<Seq<ImageRecord>, Seq<char>>
    decreases items.len(),
{
    if items.len() == 0 {
        Ok(Seq::empty())
    } else {
        match image_records(items.drop_last()) {
            Ok(before) => match image_record(items.last()) {
                Ok(record) => Ok(before.push(record)),
                Err(cause) => Err(cause),
            },
            Err(cause) => Err(cause),
        }
    }
}

/// The list of images that a JSON value describes: an array of images.
pub open spec fn image_list(json: Json) -> Result<Seq<ImageRecord>, Seq<char>> {
    match json {
        Json::Array(items) => image_records(items@),
        _ => Err(not_an_array()),
    }
}

/// What a list of images holds.
pub open spec fn image_views(list: Seq<GyazoImageResponse>) -> Seq<ImageRecord> {
    list.map_values(|image: GyazoImageResponse| image@)
}

/// Whether a list was read as it was to be.
pub open spec fn mirrors_list(
    outcome: Result<Vec<GyazoImageResponse>, String>,
    expected: Result<Seq<ImageRecord>, Seq<char>>,
) -> bool {
    match expected {
        Ok(records) => outcome matches Ok(list) && image_views(list@) == records,
        Err(cause) => outcome matches Err(detail) && detail@ == cause,
    }
}

/// Whether the body of a list was decoded as it was to be.
pub open spec fn decodes_list(
    outcome: Result<Vec<GyazoImageResponse>, GyazoError>,
    expected: Result<Seq<ImageRecord>, Seq<char>>,
) -> bool {
    match expected {
        Ok(records) => outcome matches Ok(list) && image_views(list@) == records,
        Err(cause) => outcome matches Err(GyazoError::JsonParseError(detail)) && detail@ == cause,
    }
}

/// Whether `outcome` is the answer to a call for the list of images whose
/// response has the given status and body.
pub open spec fn answers_list(
    outcome: Result<Vec<GyazoImageResponse>, GyazoError>,
    status: u16,
    body: Result<String, String>,
) -> bool {
    if is_readable(status, body) {
        decodes_list(outcome, body_record(body->Ok_0@, |json: Json| image_list(json)))
    } else {
        is_rejection(outcome, status, body)
    }
}

/// Once a prefix of a list fails, the list fails in the same way.
proof fn lemma_failure_stays(items: Seq<Json>, upto: int)
    requires
        0 <= upto <= items.len(),
        image_records(items.subrange(0, upto)) is Err,
    ensures
        image_records(items) == image_records(items.subrange(0, upto)),
    decreases items.len() - upto,
{
    if upto < items.len() {
        assert(items.subrange(0, upto + 1).drop_last() =~= items.subrange(0, upto));
        lemma_failure_stays(items, upto + 1);
    } else {
        assert(items.subrange(0, upto) =~= items);
    }
}

/// A list is read exactly where every one of its values describes an image,
/// and then it holds the image of each value, in the same order.
pub proof fn lemma_list_is_read_item_by_item(items: Seq<Json>)
    ensures
        image_records(items) is Ok <==> forall|at: int|
            0 <= at < items.len() ==> #[trigger] image_record(items[at]) is Ok,
        image_records(items) matches Ok(records) ==> records.len() == items.len() && forall|
            at: int,
        |
            0 <= at < items.len() ==> image_record(items[at]) == Ok::<ImageRecord, Seq<char>>(
                #[trigger] records[at],
            ),
    decreases items.len(),
{
    if items.len() > 0 {
        let before = items.drop_last();
        lemma_list_is_read_item_by_item(before);
        assert(forall|at: int| 0 <= at < before.len() ==> before[at] == items[at]);
        if image_records(items) is Ok {
            assert forall|at: int| 0 <= at < items.len() implies #[trigger] image_record(
                items[at],
            ) is Ok by {
                if at < before.len() {
                    assert(before[at] == items[at]);
                }
            }
        }
        if forall|at: int| 0 <= at < items.len() ==> #[trigger] image_record(items[at]) is Ok {
            assert forall|at: int| 0 <= at < before.len() implies #[trigger] image_record(
                before[at],
            ) is Ok by {
                assert(before[at] == items[at]);
            }
            assert(image_record(items[items.len() - 1]) is Ok);
        }
    }
}

impl GyazoImageResponse {
    /// Reads the image from a JSON value.
    pub fn from_json(json: &Json) -> (outcome: Result<Self, String>)
        ensures
            mirrors(outcome, image_record(*json)),
    {
        if !json.is_object() {
            return Err(String::from_str("expected an object"));
        }
        let image_id = text(json, "image_id")?;
        let permalink_url = text_or_absent(json, "permalink_url")?;
        let thumb_url = text_or_absent(json, "thumb_url")?;
        let image_type = text(json, "type")?;
        let created_at = text(json, "created_at")?;
        let metadata = ImageMetadata::from_json(member(json, "metadata")?)?;
        let ocr = match json.get("ocr") {
            None => None,
            Some(Json::Null) => None,
            Some(value) => Some(ImageOcr::from_json(value)?),
        };
        Ok(
            GyazoImageResponse {
                image_id,
                permalink_url,
                thumb_url,
                image_type,
                created_at,
                metadata,
                ocr,
            },
        )
    }

    /// Reads a list of images from a JSON value.
    pub fn list_from_json(json: &Json) -> (outcome: Result<Vec<Self>, String>)
        ensures
            mirrors_list(outcome, image_list(*json)),
    {
        match json {
            Json::Array(items) => {
                let mut list: Vec<GyazoImageResponse> = Vec::new();
                let mut at: usize = 0;
                assert(image_views(list@) =~= Seq::<ImageRecord>::empty());
                while at < items.len()
                    invariant
                        at <= items.len(),
                        image_list(*json) == image_records(items@),
                        image_records(items@.subrange(0, at as int)) == Ok::<
                            Seq<ImageRecord>,
                            Seq<char>,
                        >(image_views(list@)),
                    decreases items.len() - at,
                {
                    let ghost before = items@.subrange(0, at as int);
                    let ghost through = items@.subrange(0, at as int + 1);
                    assert(through.drop_last() =~= before);
                    assert(through.last() == items@[at as int]);
                    match Self::from_json(&items[at]) {
                        Ok(image) => {
                            let ghost held = list@;
                            list.push(image);
                            assert(image_views(list@) =~= image_views(held).push(image@));
                        },
                        Err(detail) => {
                            proof {
                                assert(image_records(through) == Err::<
                                    Seq<ImageRecord>,
                                    Seq<char>,
                                >(detail@));
                                lemma_failure_stays(items@, at as int + 1);
                            }
                            return Err(detail);
                        },
                    }
                    at = at + 1;
                }
                assert(items@.subrange(0, at as int) =~= items@);
                Ok(list)
            },
            _ => Err(String::from_str("expected an array")),
        }
    }

    /// Reads the image from the body of a response.
    pub fn decode(body: &str) -> (outcome: Result<Self, GyazoError>)
        ensures
            decodes(outcome, body_record(body@, |json: Json| image_record(json))),
    {
        match Json::parse(body) {
            Ok(json) => match Self::from_json(&json) {
                Ok(record) => Ok(record),
                Err(detail) => Err(GyazoError::JsonParseError(detail)),
            },
            Err(detail) => Err(GyazoError::JsonParseError(detail)),
        }
    }

    /// The answer to a call for one image, from the status and the body of
    /// its response.
    pub fn from_response(status: u16, body: Result<String, String>) -> (outcome: Result<
        Self,
        GyazoError,
    >)
        ensures
            answers(outcome, status, body, |json: Json| image_record(json)),
    {
        match response_body(status, body) {
            Ok(text) => Self::decode(text.as_str()),
            Err(error) => Err(error),
        }
    }

    /// The answer to a call for the list of images, from the status and the
    /// body of its response.
    pub fn list_from_response(status: u16, body: Result<String, String>) -> (outcome: Result<
        Vec<Self>,
        GyazoError,
    >)
        ensures
            answers_list(outcome, status, body),
    {
        match response_body(status, body) {
            Ok(text) => Self::decode_list(text.as_str()),
            Err(error) => Err(error),
        }
    }

    /// Reads a list of images from the body of a response.
    pub fn decode_list(body: &str) -> (outcome: Result<Vec<Self>, GyazoError>)
        ensures
            decodes_list(outcome, body_record(body@, |json: Json| image_list(json))),
    {
        match Json::parse(body) {
            Ok(json) => match Self::list_from_json(&json) {
                Ok(list) => Ok(list),
                Err(detail) => Err(GyazoError::JsonParseError(detail)),
            },
            Err(detail) => Err(GyazoError::JsonParseError(detail)),
        }
    }
}

} // verus!
