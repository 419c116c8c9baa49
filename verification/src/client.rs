//! The client: where it sends its requests, and which request each
//! operation makes.

use crate::error::GyazoError;
use crate::form::{form_parts, upload_parts};
use crate::params::UploadParams;
use crate::text::{followed_by, has_prefix, optional_chars, str_equal};
use reqwest::multipart::Form;
use vstd::prelude::*;
use vstd::string::*;

verus! {

/// The address that `input` is as a URL, written out in full; nothing where
/// `input` is no URL.
pub uninterp spec fn url_parse(input: Seq<char>) -> Option<Seq<char>>;

/// The address that `reference` leads to from the URL `base`, written out in
/// full; nothing where `base` is no URL or `reference` cannot be resolved
/// against it.
pub uninterp spec fn url_join(base: Seq<char>, reference: Seq<char>) -> Option<Seq<char>>;

/// Calls `Url::parse`.
///
/// Trusted: the result depends on the input alone; it is the parsed URL as
/// text, and nothing where parsing fails.
#[verifier::external_body]
fn parse_url(input: &str) -> (parsed: Option<String>)
    ensures
        optional_chars(parsed) == url_parse(input@),
{
    match reqwest::Url::parse(input) {
        Ok(url) => Some(String::from(url)),
        Err(_) => None,
    }
}

/// Calls `Url::parse` on the base and `Url::join` on what it gives.
///
/// Trusted: the result depends on the two texts alone; it is the resolved
/// URL as text, and nothing where either step fails.
#[verifier::external_body]
fn join_url(base: &str, reference: &str) -> (joined: Option<String>)
    ensures
        optional_chars(joined) == url_join(base@, reference@),
{
    match reqwest::Url::parse(base) {
        Ok(url) => match url.join(reference) {
            Ok(joined) => Some(String::from(joined)),
            Err(_) => None,
        },
        Err(_) => None,
    }
}

/// Where the API is reached unless the options say otherwise.
pub open spec fn default_base_url() -> Seq<char> {
    "https://api.gyazo.com"@
}

/// Where uploads are sent unless the options say otherwise.
pub open spec fn default_upload_url() -> Seq<char> {
    "https://upload.gyazo.com"@
}

/// The path of the upload, the one request that goes to the upload origin.
pub open spec fn upload_path() -> Seq<char> {
    "/api/upload"@
}

/// The prefix that the URL of an image on Gyazo has.
pub open spec fn gyazo_prefix() -> Seq<char> {
    "https://gyazo.com/"@
}

/// The address that an option stands for: its own, or the default.
pub open spec fn chosen(option: Option<String>, fallback: Seq<char>) -> Seq<char> {
    match option {
        Some(address) => address@,
        None => fallback,
    }
}

/// What a client is made from.
#[derive(Clone, Debug)]
pub struct GyazoClientOptions {
    pub access_token: String,
    pub base_url: Option<String>,
    pub upload_url: Option<String>,
}

impl Default for GyazoClientOptions {
    fn default() -> (options: Self)
        ensures
            options.access_token@ == Seq::<char>::empty(),
            options.base_url is None,
            options.upload_url is None,
    {
        GyazoClientOptions { access_token: String::new(), base_url: None, upload_url: None }
    }
}

impl GyazoClientOptions {
    /// Whether both addresses, the given ones or the defaults, are URLs.
    pub open spec fn usable(&self) -> bool {
        &&& url_parse(chosen(self.base_url, default_base_url())) is Some
        &&& url_parse(chosen(self.upload_url, default_upload_url())) is Some
    }
}

/// What a client holds.
pub struct ClientConfig {
    pub access_token: Seq<char>,
    pub base_url: Seq<char>,
    pub upload_url: Seq<char>,
}

/// The method of a request.
#[derive(Clone, Copy, Debug, PartialEq, Eq, Structural)]
pub enum Method {
    Get,
    Post,
    Delete,
}

/// What an operation asks for: a method, a path and, for an upload, a
/// multipart body.
#[derive(Debug)]
pub struct ApiCall {
    pub method: Method,
    pub path: String,
    pub form: Option<Form>,
}

/// A request that is ready to be sent.
#[derive(Debug)]
pub struct Request {
    pub method: Method,
    pub url: String,
    /// The credential of the bearer authorization that the request carries.
    pub bearer_token: String,
    pub form: Option<Form>,
}

/// Gyazo API client. It never changes once it is made.
#[derive(Clone, Debug)]
pub struct GyazoClient {
    access_token: String,
    base_url: String,
    upload_url: String,
}

impl View for GyazoClient {
    type V = ClientConfig;

    closed spec fn view(&self) -> ClientConfig {
        ClientConfig {
            access_token: self.access_token@,
            base_url: self.base_url@,
            upload_url: self.upload_url@,
        }
    }
}

/// The client that is made from the given options.
pub open spec fn configured(options: GyazoClientOptions) -> ClientConfig {
    ClientConfig {
        access_token: options.access_token@,
        base_url: url_parse(chosen(options.base_url, default_base_url()))->Some_0,
        upload_url: url_parse(chosen(options.upload_url, default_upload_url()))->Some_0,
    }
}

/// The origin that a path is requested from: the upload origin for the
/// upload, the API origin for everything else.
pub open spec fn origin(config: ClientConfig, path: Seq<char>) -> Seq<char> {
    if path == upload_path() {
        config.upload_url
    } else {
        config.base_url
    }
}

/// The address that a path is requested at.
pub open spec fn request_url(config: ClientConfig, path: Seq<char>) -> Option<Seq<char>> {
    url_join(origin(config, path), path)
}

/// Whether `request` is the request that the client makes for `call`: the
/// same method and body, the path resolved against the origin, and the
/// client's own token as credential.
pub open spec fn carries(request: Request, config: ClientConfig, call: ApiCall) -> bool {
    &&& request.method == call.method
    &&& Some(request.url@) == request_url(config, call.path@)
    &&& request.bearer_token@ == config.access_token
    &&& request.form == call.form
}

/// Whether a call has the given method and path and no body.
pub open spec fn plain_call(call: ApiCall, method: Method, path: Seq<char>) -> bool {
    &&& call.method == method
    &&& call.path@ == path
    &&& call.form is None
}

fn parse_or_default(option: &Option<String>, fallback: &str) -> (parsed: Option<String>)
    ensures
        optional_chars(parsed) == url_parse(chosen(*option, fallback@)),
{
    match option {
        Some(address) => parse_url(address.as_str()),
        None => parse_url(fallback),
    }
}

impl GyazoClient {
    /// Makes a client. Both addresses must be URLs.
    pub fn new(options: GyazoClientOptions) -> (client: Self)
        requires
            options.usable(),
        ensures
            client@ == configured(options),
    {
        let base_url = parse_or_default(&options.base_url, "https://api.gyazo.com");
        let upload_url = parse_or_default(&options.upload_url, "https://upload.gyazo.com");
        GyazoClient {
            access_token: options.access_token,
            base_url: base_url.unwrap(),
            upload_url: upload_url.unwrap(),
        }
    }

    /// Makes a client where both addresses are URLs, and none where one of
    /// them is not.
    pub fn try_new(options: GyazoClientOptions) -> (client: Option<Self>)
        ensures
            options.usable() ==> (client matches Some(made) && made@ == configured(options)),
            !options.usable() ==> client is None,
    {
        let base_url = parse_or_default(&options.base_url, "https://api.gyazo.com");
        let upload_url = parse_or_default(&options.upload_url, "https://upload.gyazo.com");
        if base_url.is_some() && upload_url.is_some() {
            Some(Self::new(options))
        } else {
            None
        }
    }

    /// The request for one image.
    pub fn get_image(&self, image_id: &str) -> (call: ApiCall)
        ensures
            plain_call(call, Method::Get, "/api/images/"@ + image_id@),
    {
        ApiCall { method: Method::Get, path: followed_by("/api/images/", image_id), form: None }
    }

    /// The request for the list of images.
    pub fn list_images(&self) -> (call: ApiCall)
        ensures
            plain_call(call, Method::Get, "/api/images"@),
    {
        ApiCall { method: Method::Get, path: String::from_str("/api/images"), form: None }
    }

    /// The request that uploads an image: its body holds the parts of the
    /// parameters.
    pub fn upload_image(&self, param: UploadParams) -> (call: ApiCall)
        ensures
            call.method == Method::Post,
            call.path@ == upload_path(),
            call.form matches Some(form) && form_parts(form) == upload_parts(param@),
    {
        let form = param.into_form();
        ApiCall { method: Method::Post, path: String::from_str("/api/upload"), form: Some(form) }
    }

    /// The request that deletes an image.
    pub fn delete_image(&self, image_id: &str) -> (call: ApiCall)
        ensures
            plain_call(call, Method::Delete, "/api/images/"@ + image_id@),
    {
        ApiCall { method: Method::Delete, path: followed_by("/api/images/", image_id), form: None }
    }

    /// The request for the embed metadata of an image, which is asked for by
    /// its URL on Gyazo. Any other URL is refused, and no request is made.
    pub fn get_oembed(&self, url: &str) -> (outcome: Result<ApiCall, GyazoError>)
        ensures
            gyazo_prefix().is_prefix_of(url@) ==> (outcome matches Ok(call) && plain_call(
                call,
                Method::Get,
                "/api/oembed?url="@ + url@,
            )),
            !gyazo_prefix().is_prefix_of(url@) ==> (outcome matches Err(
                GyazoError::InvalidUrl(detail),
            ) && detail@ == "URL must start with 'https://gyazo.com/'"@),
    {
        if !has_prefix(url, "https://gyazo.com/") {
            return Err(
                GyazoError::InvalidUrl(String::from_str("URL must start with 'https://gyazo.com/'")),
            );
        }
        Ok(ApiCall { method: Method::Get, path: followed_by("/api/oembed?url=", url), form: None })
    }

    /// The request for a call. The path of the call must resolve against
    /// the origin that it goes to.
    pub fn request(&self, call: ApiCall) -> (request: Request)
        requires
            request_url(self@, call.path@) is Some,
        ensures
            carries(request, self@, call),
    {
        let url = if str_equal(call.path.as_str(), "/api/upload") {
            join_url(self.upload_url.as_str(), call.path.as_str())
        } else {
            join_url(self.base_url.as_str(), call.path.as_str())
        };
        Request {
            method: call.method,
            url: url.unwrap(),
            bearer_token: self.access_token.clone(),
            form: call.form,
        }
    }

    /// The request for a call, where its path resolves against the origin
    /// that it goes to; nothing where it does not.
    pub fn try_request(&self, call: ApiCall) -> (request: Option<Request>)
        ensures
            request_url(self@, call.path@) is Some ==> (request matches Some(made) && carries(
                made,
                self@,
                call,
            )),
            request_url(self@, call.path@) is None ==> request is None,
    {
        let url = if str_equal(call.path.as_str(), "/api/upload") {
            join_url(self.upload_url.as_str(), call.path.as_str())
        } else {
            join_url(self.base_url.as_str(), call.path.as_str())
        };
        if url.is_some() {
            Some(self.request(call))
        } else {
            None
        }
    }
}

/// Only the upload goes to the upload origin: the requests for an image, for
/// the list, for a deletion and for embed metadata all go to the API origin,
/// whatever the image or the URL they name.
pub proof fn lemma_only_the_upload_goes_to_the_upload_origin(
    config: ClientConfig,
    image_id: Seq<char>,
    url: Seq<char>,
)
    ensures
        origin(config, upload_path()) == config.upload_url,
        origin(config, "/api/images"@) == config.base_url,
        origin(config, "/api/images/"@ + image_id) == config.base_url,
        origin(config, "/api/oembed?url="@ + url) == config.base_url,
{
    reveal_strlit("/api/upload");
    reveal_strlit("/api/images");
    reveal_strlit("/api/images/");
    reveal_strlit("/api/oembed?url=");
    assert("/api/images"@[5] != upload_path()[5]);
    assert(("/api/images/"@ + image_id)[5] != upload_path()[5]);
    assert(("/api/oembed?url="@ + url)[5] != upload_path()[5]);
}

} // verus!
