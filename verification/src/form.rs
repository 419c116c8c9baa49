//! The multipart body of an upload.

use crate::params::{image_only, UploadFields, UploadParams};
use crate::text::optional_chars;
use reqwest::multipart::{Form, Part};
use vstd::prelude::*;
use vstd::string::*;
use vstd::utf8::encode_utf8;

verus! {

#[verifier::external_type_specification]
#[verifier::external_body]
pub struct ExForm(Form);

/// The parts that a form holds, in the order in which they were added. A
/// part is its name, the bytes of its body and its file name, where it has
/// one.
pub uninterp spec fn form_parts(form: Form) -> Seq<(Seq<char>, Seq<u8>, Option<Seq<char>>)>;

/// Calls `Form::new`.
///
/// Trusted: a new form holds no part.
#[verifier::external_body]
fn empty_form() -> (form: Form)
    ensures
        form_parts(form) == Seq::<(Seq<char>, Seq<u8>, Option<Seq<char>>)>::empty(),
{
    Form::new()
}

/// Calls `Part::bytes`, `Part::file_name` and `Form::part`.
///
/// Trusted: the form gains, behind the parts it had, one part with the given
/// name, the given bytes as its body and the given file name.
#[verifier::external_body]
fn with_file(form: Form, name: &str, content: Vec<u8>, file_name: &str) -> (extended: Form)
    ensures
        form_parts(extended) == form_parts(form).push(file_part(name@, content@, file_name@)),
{
    form.part(name.to_owned(), Part::bytes(content).file_name(file_name.to_owned()))
}

/// Calls `Form::text`.
///
/// Trusted: the form gains, behind the parts it had, one part with the given
/// name, the UTF-8 bytes of the given text as its body and no file name.
#[verifier::external_body]
fn with_text(form: Form, name: &str, value: String) -> (extended: Form)
    ensures
        form_parts(extended) == form_parts(form).push(text_part(name@, value@)),
{
    form.text(name.to_owned(), value)
}

/// A part that carries a file.
pub open spec fn file_part(name: Seq<char>, content: Seq<u8>, file_name: Seq<char>) -> (
    Seq<char>,
    Seq<u8>,
    Option<Seq<char>>,
) {
    (name, content, Some(file_name))
}

/// A part that carries a text field.
pub open spec fn text_part(name: Seq<char>, value: Seq<char>) -> (
    Seq<char>,
    Seq<u8>,
    Option<Seq<char>>,
) {
    (name, encode_utf8(value), None)
}

/// The part of an optional field: one text part where the field is set,
/// nothing where it is not.
pub open spec fn optional_part(name: Seq<char>, value: Option<Seq<char>>) -> Seq<
    (Seq<char>, Seq<u8>, Option<Seq<char>>),
> {
    match value {
        Some(text) => seq![text_part(name, text)],
        None => Seq::empty(),
    }
}

/// What is sent for the metadata's visibility where the parameters leave it
/// unset.
pub open spec fn default_metadata_is_public() -> Seq<char> {
    "true"@
}

/// The parts of the upload of `fields`: the image, under a fixed file name;
/// the metadata's visibility, always; every other field where it is set.
pub open spec fn upload_parts(fields: UploadFields) -> Seq<
    (Seq<char>, Seq<u8>, Option<Seq<char>>),
> {
    seq![file_part("imagedata"@, fields.imagedata, "image.png"@)] + optional_part(
        "access_policy"@,
        fields.access_policy,
    ) + seq![
        text_part(
            "metadata_is_public"@,
            match fields.metadata_is_public {
                Some(flag) => flag,
                None => default_metadata_is_public(),
            },
        ),
    ] + optional_part("referer_url"@, fields.referer_url) + optional_part("app"@, fields.app)
        + optional_part("title"@, fields.title) + optional_part("desc"@, fields.desc)
        + optional_part("created_at"@, fields.created_at) + optional_part(
        "collection_id"@,
        fields.collection_id,
    )
}

fn with_optional_text(form: Form, name: &str, value: Option<String>) -> (extended: Form)
    ensures
        form_parts(extended) == form_parts(form) + optional_part(name@, optional_chars(value)),
{
    match value {
        Some(text) => {
            let extended = with_text(form, name, text);
            assert(form_parts(extended) =~= form_parts(form) + optional_part(
                name@,
                optional_chars(value),
            ));
            extended
        },
        None => {
            assert(form_parts(form) =~= form_parts(form) + optional_part(
                name@,
                optional_chars(value),
            ));
            form
        },
    }
}

impl UploadParams {
    /// Turns the parameters into the multipart form of the upload request.
    pub fn into_form(self) -> (form: Form)
        ensures
            form_parts(form) == upload_parts(self@),
    {
        let form = empty_form();
        let form = with_file(form, "imagedata", self.imagedata, "image.png");
        let form = with_optional_text(form, "access_policy", self.access_policy);
        let flag = match self.metadata_is_public {
            Some(flag) => flag,
            None => String::from_str("true"),
        };
        let form = with_text(form, "metadata_is_public", flag);
        let form = with_optional_text(form, "referer_url", self.referer_url);
        let form = with_optional_text(form, "app", self.app);
        let form = with_optional_text(form, "title", self.title);
        let form = with_optional_text(form, "desc", self.desc);
        let form = with_optional_text(form, "created_at", self.created_at);
        let form = with_optional_text(form, "collection_id", self.collection_id);
        assert(form_parts(form) =~= upload_parts(self@));
        form
    }
}

/// How many of the optional fields, the metadata's visibility aside, are
/// set.
pub open spec fn optional_fields_set(fields: UploadFields) -> nat {
    let one = |value: Option<Seq<char>>| -> nat {
        if value is Some {
            1
        } else {
            0
        }
    };
    one(fields.access_policy) + one(fields.referer_url) + one(fields.app) + one(fields.title)
        + one(fields.desc) + one(fields.created_at) + one(fields.collection_id)
}

/// An upload holds the image, the metadata's visibility and one part for
/// each other field that is set, and nothing else.
pub proof fn lemma_one_part_per_field(fields: UploadFields)
    ensures
        upload_parts(fields).len() == 2 + optional_fields_set(fields),
        upload_parts(fields)[0] == file_part("imagedata"@, fields.imagedata, "image.png"@),
{
}

/// With every field set, the upload holds the image and then the eight
/// fields, each under its own name and with its own value.
pub proof fn lemma_parts_of_full_upload(fields: UploadFields)
    requires
        fields.access_policy is Some,
        fields.metadata_is_public is Some,
        fields.referer_url is Some,
        fields.app is Some,
        fields.title is Some,
        fields.desc is Some,
        fields.created_at is Some,
        fields.collection_id is Some,
    ensures
        upload_parts(fields) == seq![
            file_part("imagedata"@, fields.imagedata, "image.png"@),
            text_part("access_policy"@, fields.access_policy->Some_0),
            text_part("metadata_is_public"@, fields.metadata_is_public->Some_0),
            text_part("referer_url"@, fields.referer_url->Some_0),
            text_part("app"@, fields.app->Some_0),
            text_part("title"@, fields.title->Some_0),
            text_part("desc"@, fields.desc->Some_0),
            text_part("created_at"@, fields.created_at->Some_0),
            text_part("collection_id"@, fields.collection_id->Some_0),
        ],
{
    assert(upload_parts(fields) =~= seq![
        file_part("imagedata"@, fields.imagedata, "image.png"@),
        text_part("access_policy"@, fields.access_policy->Some_0),
        text_part("metadata_is_public"@, fields.metadata_is_public->Some_0),
        text_part("referer_url"@, fields.referer_url->Some_0),
        text_part("app"@, fields.app->Some_0),
        text_part("title"@, fields.title->Some_0),
        text_part("desc"@, fields.desc->Some_0),
        text_part("created_at"@, fields.created_at->Some_0),
        text_part("collection_id"@, fields.collection_id->Some_0),
    ]);
}

/// With nothing set but the image, the upload holds the image and the
/// metadata's visibility at its default.
pub proof fn lemma_parts_of_bare_upload(imagedata: Seq<u8>)
    ensures
        upload_parts(image_only(imagedata)) == seq![
            file_part("imagedata"@, imagedata, "image.png"@),
            text_part("metadata_is_public"@, default_metadata_is_public()),
        ],
{
    assert(upload_parts(image_only(imagedata)) =~= seq![
        file_part("imagedata"@, imagedata, "image.png"@),
        text_part("metadata_is_public"@, default_metadata_is_public()),
    ]);
}

} // verus!
