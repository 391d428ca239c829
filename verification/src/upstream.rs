//! The shape of one planned upstream call: method, path relative to the
//! provider's REST base, and body. The boundary code executes these plans;
//! nothing here performs I/O.

use vstd::prelude::*;
use crate::json::JsonValue;

verus! {

#[derive(Clone, Copy, PartialEq, Eq, Structural, Debug)]
pub enum HttpMethod {
    Get,
    Post,
    Put,
    Patch,
    Delete,
}

pub enum RequestBody {
    /// No body at all.
    Empty,
    /// A JSON document, sent as `application/json`.
    Json(JsonValue),
    /// A raw script body, sent as `application/javascript`.
    Script(String),
    /// An opaque value written to key-value storage, sent as `text/plain`,
    /// optionally accompanied by a serialized metadata header.
    KvText { value: String, metadata_header: Option<String> },
    /// A two-part upload: a `metadata` JSON part and a `worker.js` module
    /// part whose MIME type is `application/javascript+module`.
    Multipart { metadata_part: String, script_part: String },
}

pub struct UpstreamRequest {
    pub method: HttpMethod,
    pub path: String,
    pub body: RequestBody,
}

} // verus!
