//! The parameters of an upload, and the builder that validates them.

use crate::error::GyazoError;
use crate::text::{optional_chars, str_equal};
use vstd::prelude::*;
use vstd::string::*;

verus! {

/// What a set of upload parameters holds, as mathematical values.
pub struct UploadFields {
    pub imagedata: Seq<u8>,
    pub access_policy: Option<Seq<char>>,
    pub metadata_is_public: Option<Seq<char>>,
    pub referer_url: Option<Seq<char>>,
    pub app: Option<Seq<char>>,
    pub title: Option<Seq<char>>,
    pub desc: Option<Seq<char>>,
    pub created_at: Option<Seq<char>>,
    pub collection_id: Option<Seq<char>>,
}

/// The access policies that Gyazo knows.
pub open spec fn permitted_access_policy(value: Seq<char>) -> bool {
    value == "anyone"@ || value == "only_me"@
}

/// The two ways to write whether metadata is public.
pub open spec fn permitted_metadata_is_public(value: Seq<char>) -> bool {
    value == "true"@ || value == "false"@
}

/// Whether the two constrained fields, where set, hold a permitted value.
pub open spec fn permitted(fields: UploadFields) -> bool {
    &&& fields.access_policy matches Some(policy) ==> permitted_access_policy(policy)
    &&& fields.metadata_is_public matches Some(flag) ==> permitted_metadata_is_public(flag)
}

/// The fields of a builder that was given the image and nothing else.
pub open spec fn image_only(imagedata: Seq<u8>) -> UploadFields {
    UploadFields {
        imagedata,
        access_policy: None,
        metadata_is_public: None,
        referer_url: None,
        app: None,
        title: None,
        desc: None,
        created_at: None,
        collection_id: None,
    }
}

/// Parameters for uploading an image.
#[derive(Debug)]
pub struct UploadParams {
    pub imagedata: Vec<u8>,
    pub access_policy: Option<String>,
    pub metadata_is_public: Option<String>,
    pub referer_url: Option<String>,
    pub app: Option<String>,
    pub title: Option<String>,
    pub desc: Option<String>,
    pub created_at: Option<String>,
    pub collection_id: Option<String>,
}

impl View for UploadParams {
    type V = UploadFields;

    open spec fn view(&self) -> UploadFields {
        UploadFields {
            imagedata: self.imagedata@,
            access_policy: optional_chars(self.access_policy),
            metadata_is_public: optional_chars(self.metadata_is_public),
            referer_url: optional_chars(self.referer_url),
            app: optional_chars(self.app),
            title: optional_chars(self.title),
            desc: optional_chars(self.desc),
            created_at: optional_chars(self.created_at),
            collection_id: optional_chars(self.collection_id),
        }
    }
}

/// Builder for `UploadParams`. Its two constrained fields can only ever hold
/// a permitted value.
#[derive(Debug)]
pub struct UploadParamsBuilder {
    imagedata: Vec<u8>,
    access_policy: Option<String>,
    metadata_is_public: Option<String>,
    referer_url: Option<String>,
    app: Option<String>,
    title: Option<String>,
    desc: Option<String>,
    created_at: Option<String>,
    collection_id: Option<String>,
}

impl View for UploadParamsBuilder {
    type V = UploadFields;

    closed spec fn view(&self) -> UploadFields {
        UploadFields {
            imagedata: self.imagedata@,
            access_policy: optional_chars(self.access_policy),
            metadata_is_public: optional_chars(self.metadata_is_public),
            referer_url: optional_chars(self.referer_url),
            app: optional_chars(self.app),
            title: optional_chars(self.title),
            desc: optional_chars(self.desc),
            created_at: optional_chars(self.created_at),
            collection_id: optional_chars(self.collection_id),
        }
    }
}

impl UploadParamsBuilder {
    #[verifier::type_invariant]
    spec fn constrained(&self) -> bool {
        permitted(self@)
    }

    /// Starts from the image alone.
    pub fn new(imagedata: Vec<u8>) -> (builder: Self)
        ensures
            builder@ == image_only(imagedata@),
    {
        Self {
            imagedata,
            access_policy: None,
            metadata_is_public: None,
            referer_url: None,
            app: None,
            title: None,
            desc: None,
            created_at: None,
            collection_id: None,
        }
    }

    /// Sets the access policy, which must be `anyone` or `only_me`.
    pub fn access_policy(self, access_policy: &str) -> (outcome: Result<Self, GyazoError>)
        ensures
            permitted_access_policy(access_policy@) ==> (outcome matches Ok(builder) && builder@
                == (UploadFields { access_policy: Some(access_policy@), ..self@ })),
            !permitted_access_policy(access_policy@) ==> (outcome matches Err(
                GyazoError::InvalidInput(detail),
            ) && detail@ == "access_policy must be 'anyone' or 'only_me'"@),
    {
        if !str_equal(access_policy, "anyone") && !str_equal(access_policy, "only_me") {
            return Err(
                GyazoError::InvalidInput(
                    String::from_str("access_policy must be 'anyone' or 'only_me'"),
                ),
            );
        }
        proof {
            use_type_invariant(&self);
        }
        Ok(
            Self {
                imagedata: self.imagedata,
                access_policy: Some(access_policy.to_owned()),
                metadata_is_public: self.metadata_is_public,
                referer_url: self.referer_url,
                app: self.app,
                title: self.title,
                desc: self.desc,
                created_at: self.created_at,
                collection_id: self.collection_id,
            },
        )
    }

    /// Sets whether the metadata is public, written `true` or `false`.
    pub fn metadata_is_public(self, metadata_is_public: &str) -> (outcome: Result<
        Self,
        GyazoError,
    >)
        ensures
            permitted_metadata_is_public(metadata_is_public@) ==> (outcome matches Ok(builder)
                && builder@ == (UploadFields {
                metadata_is_public: Some(metadata_is_public@),
                ..self@
            })),
            !permitted_metadata_is_public(metadata_is_public@) ==> (outcome matches Err(
                GyazoError::InvalidInput(detail),
            ) && detail@ == "metadata_is_public must be 'true' or 'false'"@),
    {
        if !str_equal(metadata_is_public, "true") && !str_equal(metadata_is_public, "false") {
            return Err(
                GyazoError::InvalidInput(
                    String::from_str("metadata_is_public must be 'true' or 'false'"),
                ),
            );
        }
        proof {
            use_type_invariant(&self);
        }
        Ok(
            Self {
                imagedata: self.imagedata,
                access_policy: self.access_policy,
                metadata_is_public: Some(metadata_is_public.to_owned()),
                referer_url: self.referer_url,
                app: self.app,
                title: self.title,
                desc: self.desc,
                created_at: self.created_at,
                collection_id: self.collection_id,
            },
        )
    }

    /// Sets the URL of the page that the image was taken from.
    pub fn referer_url(self, referer_url: &str) -> (builder: Self)
        ensures
            builder@ == (UploadFields { referer_url: Some(referer_url@), ..self@ }),
    {
        proof {
            use_type_invariant(&self);
        }
        Self {
            imagedata: self.imagedata,
            access_policy: self.access_policy,
            metadata_is_public: self.metadata_is_public,
            referer_url: Some(referer_url.to_owned()),
            app: self.app,
            title: self.title,
            desc: self.desc,
            created_at: self.created_at,
            collection_id: self.collection_id,
        }
    }

    /// Sets the name of the application that took the image.
    pub fn app(self, app: &str) -> (builder: Self)
        ensures
            builder@ == (UploadFields { app: Some(app@), ..self@ }),
    {
        proof {
            use_type_invariant(&self);
        }
        Self {
            imagedata: self.imagedata,
            access_policy: self.access_policy,
            metadata_is_public: self.metadata_is_public,
            referer_url: self.referer_url,
            app: Some(app.to_owned()),
            title: self.title,
            desc: self.desc,
            created_at: self.created_at,
            collection_id: self.collection_id,
        }
    }

    /// Sets the title of the page that the image was taken from.
    pub fn title(self, title: &str) -> (builder: Self)
        ensures
            builder@ == (UploadFields { title: Some(title@), ..self@ }),
    {
        proof {
            use_type_invariant(&self);
        }
        Self {
            imagedata: self.imagedata,
            access_policy: self.access_policy,
            metadata_is_public: self.metadata_is_public,
            referer_url: self.referer_url,
            app: self.app,
            title: Some(title.to_owned()),
            desc: self.desc,
            created_at: self.created_at,
            collection_id: self.collection_id,
        }
    }

    /// Sets the description of the image.
    pub fn desc(self, desc: &str) -> (builder: Self)
        ensures
            builder@ == (UploadFields { desc: Some(desc@), ..self@ }),
    {
        proof {
            use_type_invariant(&self);
        }
        Self {
            imagedata: self.imagedata,
            access_policy: self.access_policy,
            metadata_is_public: self.metadata_is_public,
            referer_url: self.referer_url,
            app: self.app,
            title: self.title,
            desc: Some(desc.to_owned()),
            created_at: self.created_at,
            collection_id: self.collection_id,
        }
    }

    /// Sets the time at which the image was made.
    pub fn created_at(self, created_at: &str) -> (builder: Self)
        ensures
            builder@ == (UploadFields { created_at: Some(created_at@), ..self@ }),
    {
        proof {
            use_type_invariant(&self);
        }
        Self {
            imagedata: self.imagedata,
            access_policy: self.access_policy,
            metadata_is_public: self.metadata_is_public,
            referer_url: self.referer_url,
            app: self.app,
            title: self.title,
            desc: self.desc,
            created_at: Some(created_at.to_owned()),
            collection_id: self.collection_id,
        }
    }

    /// Sets the collection that the image is added to.
    pub fn collection_id(self, collection_id: &str) -> (builder: Self)
        ensures
            builder@ == (UploadFields { collection_id: Some(collection_id@), ..self@ }),
    {
        proof {
            use_type_invariant(&self);
        }
        Self {
            imagedata: self.imagedata,
            access_policy: self.access_policy,
            metadata_is_public: self.metadata_is_public,
            referer_url: self.referer_url,
            app: self.app,
            title: self.title,
            desc: self.desc,
            created_at: self.created_at,
            collection_id: Some(collection_id.to_owned()),
        }
    }

    /// Finishes the builder. Nothing is checked here: what the builder holds
    /// was checked when it was set.
    pub fn build(self) -> (params: UploadParams)
        ensures
            params@ == self@,
            permitted(params@),
    {
        proof {
            use_type_invariant(&self);
        }
        UploadParams {
            imagedata: self.imagedata,
            access_policy: self.access_policy,
            metadata_is_public: self.metadata_is_public,
            referer_url: self.referer_url,
            app: self.app,
            title: self.title,
            desc: self.desc,
            created_at: self.created_at,
            collection_id: self.collection_id,
        }
    }
}

} // verus!
