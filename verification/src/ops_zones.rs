//! Zone and account operations: the planned upstream call and the handling
//! of its reply.

use vstd::prelude::*;
use vstd::string::*;
use crate::decode::{
    account_list_matches, account_list_ok, decode_account_list, decode_zone_list, zone_list_matches,
    zone_list_ok,
};
use crate::envelope::{envelope_ok, envelope_result, spec_upstream_error_msg, unwrap_envelope};
use crate::error::RelayError;
use crate::json::JsonValue;
use crate::types::{CloudflareAccount, Zone};
use crate::upstream::{HttpMethod, RequestBody, UpstreamRequest};

verus! {

pub fn get_accounts_request() -> (r: UpstreamRequest)
    ensures
        r.method == HttpMethod::Get,
        r.path@ == "/accounts"@,
        r.body is Empty,
{
    UpstreamRequest {
        method: HttpMethod::Get,
        path: "/accounts".to_owned(),
        body: RequestBody::Empty,
    }
}

pub fn get_accounts_response(status: u16, body: JsonValue) -> (r: Result<
    Vec<CloudflareAccount>,
    RelayError,
>)
    ensures
        r is Ok <==> envelope_ok(body) && (match envelope_result(body).spec_arr() {
            Some(items) => account_list_ok(items),
            None => false,
        }),
        r matches Ok(v) ==> (match envelope_result(body).spec_arr() {
            Some(items) => account_list_matches(items, v@),
            None => false,
        }),
        r matches Err(e) ==> (if !envelope_ok(body) {
            e matches RelayError::Upstream { status: s, message: m } && s == status && m@
                == spec_upstream_error_msg(body)
        } else {
            e matches RelayError::Decode(m) && m@ == "Failed to parse accounts"@
        }),
{
    let result = match unwrap_envelope(status, body) {
        Ok(v) => v,
        Err(e) => return Err(e),
    };
    let items = match result.into_arr() {
        Some(v) => v,
        None => return Err(RelayError::Decode("Failed to parse accounts".to_owned())),
    };
    match decode_account_list(items) {
        Ok(v) => Ok(v),
        Err(()) => Err(RelayError::Decode("Failed to parse accounts".to_owned())),
    }
}

pub fn get_zones_request() -> (r: UpstreamRequest)
    ensures
        r.method == HttpMethod::Get,
        r.path@ == "/zones"@,
        r.body is Empty,
{
    UpstreamRequest { method: HttpMethod::Get, path: "/zones".to_owned(), body: RequestBody::Empty }
}

pub fn get_zones_response(status: u16, body: JsonValue) -> (r: Result<Vec<Zone>, RelayError>)
    ensures
        r is Ok <==> envelope_ok(body) && (match envelope_result(body).spec_arr() {
            Some(items) => zone_list_ok(items),
            None => false,
        }),
        r matches Ok(v) ==> (match envelope_result(body).spec_arr() {
            Some(items) => zone_list_matches(items, v@),
            None => false,
        }),
        r matches Err(e) ==> (if !envelope_ok(body) {
            e matches RelayError::Upstream { status: s, message: m } && s == status && m@
                == spec_upstream_error_msg(body)
        } else {
            e matches RelayError::Decode(m) && m@ == "Failed to parse zones"@
        }),
{
    let result = match unwrap_envelope(status, body) {
        Ok(v) => v,
        Err(e) => return Err(e),
    };
    let items = match result.into_arr() {
        Some(v) => v,
        None => return Err(RelayError::Decode("Failed to parse zones".to_owned())),
    };
    match decode_zone_list(&items) {
        Ok(v) => Ok(v),
        Err(()) => Err(RelayError::Decode("Failed to parse zones".to_owned())),
    }
}

} // verus!
