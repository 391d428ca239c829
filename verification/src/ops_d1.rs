//! Managed SQL database operations. Query execution surfaces only the first
//! result object of the upstream result list.

use vstd::prelude::*;
use vstd::string::*;
use crate::envelope::{envelope_ok, envelope_result, spec_upstream_error_msg, unwrap_envelope};
use crate::error::RelayError;
use crate::json::{obj_lookup, JsonValue};
use crate::strutil::{concat3, concat4, concat5};
use crate::upstream::{HttpMethod, RequestBody, UpstreamRequest};

verus! {

pub fn list_d1_databases_request(account_id: &str) -> (r: UpstreamRequest)
    ensures
        r.method == HttpMethod::Get,
        r.path@ == "/accounts/"@ + account_id@ + "/d1/database"@,
        r.body is Empty,
{
    UpstreamRequest {
        method: HttpMethod::Get,
        path: concat3("/accounts/", account_id, "/d1/database"),
        body: RequestBody::Empty,
    }
}

pub fn create_d1_database_request(account_id: &str, name: &str) -> (r: UpstreamRequest)
    ensures
        r.method == HttpMethod::Post,
        r.path@ == "/accounts/"@ + account_id@ + "/d1/database"@,
        r.body matches RequestBody::Json(j) && j.field_str("name"@) == Some(name@),
{
    let mut entries: Vec<(String, JsonValue)> = Vec::new();
    entries.push(("name".to_owned(), JsonValue::Str(name.to_owned())));
    let j = JsonValue::Obj(entries);
    proof {
        reveal_with_fuel(obj_lookup, 3);
    }
    UpstreamRequest {
        method: HttpMethod::Post,
        path: concat3("/accounts/", account_id, "/d1/database"),
        body: RequestBody::Json(j),
    }
}

pub fn delete_d1_database_request(account_id: &str, database_id: &str) -> (r: UpstreamRequest)
    ensures
        r.method == HttpMethod::Delete,
        r.path@ == "/accounts/"@ + account_id@ + "/d1/database/"@ + database_id@,
        r.body is Empty,
{
    UpstreamRequest {
        method: HttpMethod::Delete,
        path: concat4("/accounts/", account_id, "/d1/database/", database_id),
        body: RequestBody::Empty,
    }
}

pub fn delete_d1_database_response(status: u16, body: JsonValue) -> (r: Result<String, RelayError>)
    ensures
        r is Ok <==> envelope_ok(body),
        r matches Ok(s) ==> s@ == "D1 database deleted successfully"@,
        r matches Err(e) ==> (e matches RelayError::Upstream { status: s, message: m } && s
            == status && m@ == spec_upstream_error_msg(body)),
{
    match unwrap_envelope(status, body) {
        Ok(_) => Ok("D1 database deleted successfully".to_owned()),
        Err(e) => Err(e),
    }
}

pub fn execute_d1_query_request(account_id: &str, database_id: &str, query: &str) -> (r:
    UpstreamRequest)
    ensures
        r.method == HttpMethod::Post,
        r.path@ == "/accounts/"@ + account_id@ + "/d1/database/"@ + database_id@ + "/query"@,
        r.body matches RequestBody::Json(j) && j.field_str("sql"@) == Some(query@),
{
    let mut entries: Vec<(String, JsonValue)> = Vec::new();
    entries.push(("sql".to_owned(), JsonValue::Str(query.to_owned())));
    let j = JsonValue::Obj(entries);
    proof {
        reveal_with_fuel(obj_lookup, 3);
    }
    UpstreamRequest {
        method: HttpMethod::Post,
        path: concat5("/accounts/", account_id, "/d1/database/", database_id, "/query"),
        body: RequestBody::Json(j),
    }
}

/// Succeeds exactly when the envelope reports success and the result list
/// has a first element; that element alone is surfaced.
pub fn execute_d1_query_response(status: u16, body: JsonValue) -> (r: Result<JsonValue, RelayError>)
    ensures
        r is Ok <==> envelope_ok(body) && (match envelope_result(body).spec_arr() {
            Some(a) => a.len() > 0,
            None => false,
        }),
        r matches Ok(v) ==> (match envelope_result(body).spec_arr() {
            Some(a) => a.len() > 0 && v == a[0],
            None => false,
        }),
        r matches Err(e) ==> (if !envelope_ok(body) {
            e matches RelayError::Upstream { status: s, message: m } && s == status && m@
                == spec_upstream_error_msg(body)
        } else {
            e is NoResult
        }),
{
    let result = match unwrap_envelope(status, body) {
        Ok(v) => v,
        Err(e) => return Err(e),
    };
    let mut items = match result.into_arr() {
        Some(v) => v,
        None => return Err(RelayError::NoResult),
    };
    if items.len() == 0 {
        return Err(RelayError::NoResult);
    }
    let first = items.remove(0);
    Ok(first)
}

} // verus!
