//! The two envelopes the relay deals with: the uniform `{success, data,
//! error}` wrapper handed back to callers, and the upstream provider's
//! `{success, result, errors}` wrapper that every REST reply arrives in.

use vstd::prelude::*;
use crate::error::RelayError;
use crate::json::JsonValue;

verus! {

/// The wrapper returned to callers: exactly one of `data` and `error` is set.
pub struct ApiResponse<T> {
    pub success: bool,
    pub data: Option<T>,
    pub error: Option<String>,
}

impl<T> ApiResponse<T> {
    pub fn success(data: T) -> (r: ApiResponse<T>)
        ensures
            r.success,
            r.data == Some(data),
            r.error is None,
    {
        ApiResponse { success: true, data: Some(data), error: None }
    }

    pub fn error(error: String) -> (r: ApiResponse<T>)
        ensures
            !r.success,
            r.data is None,
            r.error == Some(error),
    {
        ApiResponse { success: false, data: None, error: Some(error) }
    }
}

/// The upstream envelope reports success.
pub open spec fn envelope_ok(body: JsonValue) -> bool {
    body.field_bool("success"@) == Some(true)
}

/// The payload under `result`, null when the key is absent.
pub open spec fn envelope_result(body: JsonValue) -> JsonValue {
    match body.spec_get("result"@) {
        Some(v) => v,
        None => JsonValue::Null,
    }
}

/// The message reported when the upstream envelope carries `success: false`:
/// the first error's `message` field if there is one, else a generic text.
pub open spec fn spec_upstream_error_msg(body: JsonValue) -> Seq<char> {
    match body.field_arr("errors"@) {
        Some(arr) => if arr.len() > 0 {
            match arr[0].field_str("message"@) {
                Some(m) => m,
                None => "Unknown error"@,
            }
        } else {
            "Unknown error"@
        },
        None => "Unknown error"@,
    }
}

pub fn upstream_error_message(body: &JsonValue) -> (r: String)
    ensures
        r@ == spec_upstream_error_msg(*body),
{
    match body.get_arr("errors") {
        Some(arr) => {
            if arr.len() > 0 {
                match arr[0].get_string("message") {
                    Some(m) => m,
                    None => "Unknown error".to_owned(),
                }
            } else {
                "Unknown error".to_owned()
            }
        },
        None => "Unknown error".to_owned(),
    }
}

/// Checks the upstream `{success, result, errors}` wrapper. Succeeds exactly
/// when the body carries `success: true`, handing out the `result` payload
/// (null when absent); otherwise reports the upstream failure together with
/// the HTTP status it arrived with.
pub fn unwrap_envelope(status: u16, body: JsonValue) -> (r: Result<JsonValue, RelayError>)
    ensures
        r is Ok <==> body.field_bool("success"@) == Some(true),
        r matches Ok(v) ==> (match body.spec_get("result"@) {
            Some(res) => v == res,
            None => v == JsonValue::Null,
        }),
        r matches Err(e) ==> (e matches RelayError::Upstream { status: s, message: m } && s
            == status && m@ == spec_upstream_error_msg(body)),
    {
    let ok = match body.get_bool("success") {
        Some(b) => b,
        None => false,
    };
    if !ok {
        let message = upstream_error_message(&body);
        return Err(RelayError::Upstream { status, message });
    }
    match body.take("result") {
        Some(v) => Ok(v),
        None => Ok(JsonValue::Null),
    }
}

} // verus!
