//! Key-value storage operations. Namespace and key listings are passed
//! through as raw JSON; values are opaque strings. Key names are
//! percent-encoded before they enter a path.

use vstd::prelude::*;
use vstd::string::*;
use crate::envelope::{envelope_ok, envelope_result, spec_upstream_error_msg, unwrap_envelope};
use crate::error::RelayError;
use crate::json::{obj_lookup, JsonValue};
use crate::numfmt::{spec_dec, u64_to_dec};
use crate::strutil::{concat2, concat3, concat4, concat5};
use crate::urlenc::{percent_encode, percent_encoding};
use crate::upstream::{HttpMethod, RequestBody, UpstreamRequest};

verus! {

pub fn list_kv_namespaces_request(account_id: &str) -> (r: UpstreamRequest)
    ensures
        r.method == HttpMethod::Get,
        r.path@ == "/accounts/"@ + account_id@ + "/storage/kv/namespaces"@,
        r.body is Empty,
{
    UpstreamRequest {
        method: HttpMethod::Get,
        path: concat3("/accounts/", account_id, "/storage/kv/namespaces"),
        body: RequestBody::Empty,
    }
}

/// The namespace list is handed through untyped; a missing or non-list
/// result yields an empty list.
pub fn raw_list_response(status: u16, body: JsonValue) -> (r: Result<Vec<JsonValue>, RelayError>)
    ensures
        r is Ok <==> envelope_ok(body),
        r matches Ok(v) ==> (match envelope_result(body).spec_arr() {
            Some(a) => v@ == a,
            None => v@ == Seq::<JsonValue>::empty(),
        }),
        r matches Err(e) ==> (e matches RelayError::Upstream { status: s, message: m } && s
            == status && m@ == spec_upstream_error_msg(body)),
{
    let result = match unwrap_envelope(status, body) {
        Ok(v) => v,
        Err(e) => return Err(e),
    };
    match result.into_arr() {
        Some(v) => Ok(v),
        None => Ok(Vec::new()),
    }
}

pub fn create_kv_namespace_request(account_id: &str, title: &str) -> (r: UpstreamRequest)
    ensures
        r.method == HttpMethod::Post,
        r.path@ == "/accounts/"@ + account_id@ + "/storage/kv/namespaces"@,
        r.body matches RequestBody::Json(j) && j.field_str("title"@) == Some(title@),
{
    let mut entries: Vec<(String, JsonValue)> = Vec::new();
    entries.push(("title".to_owned(), JsonValue::Str(title.to_owned())));
    let j = JsonValue::Obj(entries);
    proof {
        reveal_with_fuel(obj_lookup, 3);
    }
    UpstreamRequest {
        method: HttpMethod::Post,
        path: concat3("/accounts/", account_id, "/storage/kv/namespaces"),
        body: RequestBody::Json(j),
    }
}

/// Create replies hand back the raw result payload.
pub fn raw_result_response(status: u16, body: JsonValue) -> (r: Result<JsonValue, RelayError>)
    ensures
        r is Ok <==> envelope_ok(body),
        r matches Ok(v) ==> v == envelope_result(body),
        r matches Err(e) ==> (e matches RelayError::Upstream { status: s, message: m } && s
            == status && m@ == spec_upstream_error_msg(body)),
{
    unwrap_envelope(status, body)
}

pub fn delete_kv_namespace_request(account_id: &str, namespace_id: &str) -> (r: UpstreamRequest)
    ensures
        r.method == HttpMethod::Delete,
        r.path@ == "/accounts/"@ + account_id@ + "/storage/kv/namespaces/"@ + namespace_id@,
        r.body is Empty,
{
    UpstreamRequest {
        method: HttpMethod::Delete,
        path: concat4("/accounts/", account_id, "/storage/kv/namespaces/", namespace_id),
        body: RequestBody::Empty,
    }
}

pub fn delete_kv_namespace_response(status: u16, body: JsonValue) -> (r: Result<String, RelayError>)
    ensures
        r is Ok <==> envelope_ok(body),
        r matches Ok(s) ==> s@ == "KV namespace deleted successfully"@,
        r matches Err(e) ==> (e matches RelayError::Upstream { status: s, message: m } && s
            == status && m@ == spec_upstream_error_msg(body)),
{
    match unwrap_envelope(status, body) {
        Ok(_) => Ok("KV namespace deleted successfully".to_owned()),
        Err(e) => Err(e),
    }
}

/// The key listing, with an optional percent-encoded prefix filter.
pub fn list_kv_keys_request(account_id: &str, namespace_id: &str, prefix: Option<&str>) -> (r:
    UpstreamRequest)
    ensures
        r.method == HttpMethod::Get,
        r.body is Empty,
        ({
            let base = "/accounts/"@ + account_id@ + "/storage/kv/namespaces/"@ + namespace_id@
                + "/keys"@;
            match prefix {
                Some(p) => r.path@ == base + "?prefix="@ + percent_encoding(p.spec_bytes()),
                None => r.path@ == base,
            }
        }),
{
    let base = concat5(
        "/accounts/",
        account_id,
        "/storage/kv/namespaces/",
        namespace_id,
        "/keys",
    );
    let path = match prefix {
        Some(p) => {
            let enc = percent_encode(p);
            concat3(base.as_str(), "?prefix=", enc.as_str())
        },
        None => base,
    };
    UpstreamRequest { method: HttpMethod::Get, path, body: RequestBody::Empty }
}

fn kv_value_path(account_id: &str, namespace_id: &str, key: &str) -> (p: String)
    ensures
        p@ == "/accounts/"@ + account_id@ + "/storage/kv/namespaces/"@ + namespace_id@ + "/values/"@
            + percent_encoding(key.spec_bytes()),
{
    let enc = percent_encode(key);
    let base = concat5(
        "/accounts/",
        account_id,
        "/storage/kv/namespaces/",
        namespace_id,
        "/values/",
    );
    concat2(base.as_str(), enc.as_str())
}

pub fn read_kv_value_request(account_id: &str, namespace_id: &str, key: &str) -> (r:
    UpstreamRequest)
    ensures
        r.method == HttpMethod::Get,
        r.path@ == "/accounts/"@ + account_id@ + "/storage/kv/namespaces/"@ + namespace_id@
            + "/values/"@ + percent_encoding(key.spec_bytes()),
        r.body is Empty,
{
    UpstreamRequest {
        method: HttpMethod::Get,
        path: kv_value_path(account_id, namespace_id, key),
        body: RequestBody::Empty,
    }
}

/// Value reads bypass the JSON envelope: any 2xx reply carries the raw
/// value text.
pub fn read_kv_value_response(status: u16, text: String) -> (r: Result<String, RelayError>)
    ensures
        r is Ok <==> 200 <= status < 300,
        r matches Ok(s) ==> s == text,
        r matches Err(e) ==> (e matches RelayError::Upstream { status: s, message: m } && s
            == status && m@ == "HTTP error"@),
{
    if 200 <= status && status < 300 {
        Ok(text)
    } else {
        Err(RelayError::Upstream { status, message: "HTTP error".to_owned() })
    }
}

/// A value write: the raw value as the body, an optional TTL as a query
/// parameter, and optional pre-serialized metadata as a header.
pub fn write_kv_value_request(
    account_id: &str,
    namespace_id: &str,
    key: &str,
    value: &str,
    expiration_ttl: Option<u64>,
    metadata_text: Option<String>,
) -> (r: UpstreamRequest)
    ensures
        r.method == HttpMethod::Put,
        ({
            let base = "/accounts/"@ + account_id@ + "/storage/kv/namespaces/"@ + namespace_id@
                + "/values/"@ + percent_encoding(key.spec_bytes());
            match expiration_ttl {
                Some(ttl) => r.path@ == base + "?expiration_ttl="@ + spec_dec(ttl),
                None => r.path@ == base,
            }
        }),
        r.body matches RequestBody::KvText { value: v, metadata_header } && v@ == value@
            && metadata_header == metadata_text,
{
    let base = kv_value_path(account_id, namespace_id, key);
    let path = match expiration_ttl {
        Some(ttl) => {
            let t = u64_to_dec(ttl);
            concat3(base.as_str(), "?expiration_ttl=", t.as_str())
        },
        None => base,
    };
    UpstreamRequest {
        method: HttpMethod::Put,
        path,
        body: RequestBody::KvText { value: value.to_owned(), metadata_header: metadata_text },
    }
}

/// Writes and deletions also bypass the envelope; on failure the reply text
/// is reported as the upstream message.
pub fn write_kv_value_response(status: u16, failure_text: String) -> (r: Result<String, RelayError>)
    ensures
        r is Ok <==> 200 <= status < 300,
        r matches Ok(s) ==> s@ == "KV value written successfully"@,
        r matches Err(e) ==> (e matches RelayError::Upstream { status: s, message: m } && s
            == status && m == failure_text),
{
    if 200 <= status && status < 300 {
        Ok("KV value written successfully".to_owned())
    } else {
        Err(RelayError::Upstream { status, message: failure_text })
    }
}

pub fn delete_kv_key_request(account_id: &str, namespace_id: &str, key: &str) -> (r:
    UpstreamRequest)
    ensures
        r.method == HttpMethod::Delete,
        r.path@ == "/accounts/"@ + account_id@ + "/storage/kv/namespaces/"@ + namespace_id@
            + "/values/"@ + percent_encoding(key.spec_bytes()),
        r.body is Empty,
{
    UpstreamRequest {
        method: HttpMethod::Delete,
        path: kv_value_path(account_id, namespace_id, key),
        body: RequestBody::Empty,
    }
}

pub fn delete_kv_key_response(status: u16, failure_text: String) -> (r: Result<String, RelayError>)
    ensures
        r is Ok <==> 200 <= status < 300,
        r matches Ok(s) ==> s@ == "KV key deleted successfully"@,
        r matches Err(e) ==> (e matches RelayError::Upstream { status: s, message: m } && s
            == status && m == failure_text),
{
    if 200 <= status && status < 300 {
        Ok("KV key deleted successfully".to_owned())
    } else {
        Err(RelayError::Upstream { status, message: failure_text })
    }
}

} // verus!
