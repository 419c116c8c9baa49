//! A typed client library for the Gyazo image-hosting API.
//!
//! The library holds everything that is decided locally: how upload
//! parameters are validated, which request each operation makes, how a
//! response status is classified and how a response body becomes a typed
//! record. Sending the request is left to the caller: an operation of
//! `GyazoClient` hands out the request to send, and the record type of the
//! operation turns the status and body that came back into the answer.

pub mod client;
pub mod error;
pub mod fields;
pub mod form;
pub mod image;
pub mod json;
pub mod params;
pub mod records;
pub mod status;
pub mod text;

pub use client::{ApiCall, GyazoClient, GyazoClientOptions, Method, Request};
pub use error::GyazoError;
pub use image::{GyazoImageResponse, ImageMetadata, ImageOcr};
pub use json::Json;
pub use params::{UploadParams, UploadParamsBuilder};
pub use records::{DeleteImageResponse, OembedResponse, UploadImageResponse};
pub use status::{classify_status, response_body, StatusClass};
