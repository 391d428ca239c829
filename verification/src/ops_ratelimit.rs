//! Rate-limit rule operations.

use vstd::prelude::*;
use vstd::string::*;
use crate::decode::{
    decode_rate_limit, decode_rate_limit_list, rate_limit_matches, rate_limit_ok,
    rate_limits_filtered, str_list_matches,
};
use crate::envelope::{envelope_ok, envelope_result, spec_upstream_error_msg, unwrap_envelope};
use crate::error::RelayError;
use crate::json::{obj_lookup, JsonValue};
use crate::strutil::{concat3, concat4};
use crate::types::{MatchRequest, RateLimit, RateLimitAction};
use crate::upstream::{HttpMethod, RequestBody, UpstreamRequest};

verus! {

pub fn get_rate_limits_request(zone_id: &str) -> (r: UpstreamRequest)
    ensures
        r.method == HttpMethod::Get,
        r.path@ == "/zones/"@ + zone_id@ + "/rate_limits"@,
        r.body is Empty,
{
    UpstreamRequest {
        method: HttpMethod::Get,
        path: concat3("/zones/", zone_id, "/rate_limits"),
        body: RequestBody::Empty,
    }
}

pub fn get_rate_limits_response(status: u16, body: JsonValue) -> (r: Result<
    Vec<RateLimit>,
    RelayError,
>)
    ensures
        r is Ok <==> envelope_ok(body) && envelope_result(body).spec_arr() is Some,
        r matches Ok(v) ==> (match envelope_result(body).spec_arr() {
            Some(items) => rate_limits_filtered(items, v@),
            None => false,
        }),
        r matches Err(e) ==> (if !envelope_ok(body) {
            e matches RelayError::Upstream { status: s, message: m } && s == status && m@
                == spec_upstream_error_msg(body)
        } else {
            e matches RelayError::Decode(m) && m@ == "Invalid result format"@
        }),
{
    let result = match unwrap_envelope(status, body) {
        Ok(v) => v,
        Err(e) => return Err(e),
    };
    let items = match result.into_arr() {
        Some(v) => v,
        None => return Err(RelayError::Decode("Invalid result format".to_owned())),
    };
    Ok(decode_rate_limit_list(&items))
}

fn opt_string_list_json(o: &Option<Vec<String>>) -> (r: JsonValue)
    ensures
        match o {
            Some(v) => r.spec_arr() matches Some(a) && str_list_matches(v@, a),
            None => r is Null,
        },
{
    match o {
        Some(v) => {
            let n = v.len();
            let mut items: Vec<JsonValue> = Vec::new();
            let mut i: usize = 0;
            while i < n
                invariant
                    n == v@.len(),
                    i <= n,
                    items@.len() == i,
                    forall|k: int|
                        0 <= k < i ==> items@[k] is Str && Some(v@[k]@) == items@[k].spec_str(),
                decreases n - i,
            {
                items.push(JsonValue::Str(v[i].clone()));
                i += 1;
            }
            JsonValue::Arr(items)
        },
        None => JsonValue::Null,
    }
}

/// How the body's `match.request` part relates to the caller's matcher.
pub open spec fn match_request_body(j: JsonValue, m: MatchRequest) -> bool {
    match j.spec_get("request"@) {
        Some(req) => {
            &&& req.field_str("url"@) == Some(m.url@)
            &&& (match m.methods {
                Some(v) => (match req.field_arr("methods"@) {
                    Some(a) => str_list_matches(v@, a),
                    None => false,
                }),
                None => req.spec_get("methods"@) == Some(JsonValue::Null),
            })
            &&& (match m.schemes {
                Some(v) => (match req.field_arr("schemes"@) {
                    Some(a) => str_list_matches(v@, a),
                    None => false,
                }),
                None => req.spec_get("schemes"@) == Some(JsonValue::Null),
            })
        },
        None => false,
    }
}

/// How the body's `action` part relates to the caller's action: optional
/// parts appear only when given.
pub open spec fn rl_action_body(j: JsonValue, a: RateLimitAction) -> bool {
    &&& j.field_str("mode"@) == Some(a.mode@)
    &&& (match a.timeout {
        Some(t) => j.field_u64("timeout"@) == Some(t as u64),
        None => j.spec_get("timeout"@) is None,
    })
    &&& (match a.response {
        Some(resp) => (match j.spec_get("response"@) {
            Some(rj) => rj.field_str("content_type"@) == Some(resp.content_type@) && rj.field_str(
                "body"@,
            ) == Some(resp.body@),
            None => false,
        }),
        None => j.spec_get("response"@) is None,
    })
}

fn rl_action_json(a: &RateLimitAction) -> (j: JsonValue)
    ensures
        rl_action_body(j, *a),
{
    let mut entries: Vec<(String, JsonValue)> = Vec::new();
    entries.push(("mode".to_owned(), JsonValue::Str(a.mode.clone())));
    match a.timeout {
        Some(t) => entries.push(("timeout".to_owned(), JsonValue::Int(t as i64))),
        None => (),
    }
    match &a.response {
        Some(resp) => {
            let mut resp_entries: Vec<(String, JsonValue)> = Vec::new();
            resp_entries.push(("content_type".to_owned(), JsonValue::Str(resp.content_type.clone())));
            resp_entries.push(("body".to_owned(), JsonValue::Str(resp.body.clone())));
            let rj = JsonValue::Obj(resp_entries);
            proof {
                reveal_with_fuel(obj_lookup, 4);
                reveal_strlit("content_type");
                reveal_strlit("body");
                assert("content_type"@.len() == 12);
                assert("body"@.len() == 4);
            }
            entries.push(("response".to_owned(), rj));
        },
        None => (),
    }
    let j = JsonValue::Obj(entries);
    proof {
        reveal_with_fuel(obj_lookup, 5);
        reveal_strlit("mode");
        reveal_strlit("timeout");
        reveal_strlit("response");
        assert("mode"@.len() == 4);
        assert("timeout"@.len() == 7);
        assert("response"@.len() == 8);
    }
    j
}

/// The body shared by create and update.
pub open spec fn rate_limit_body(
    j: JsonValue,
    disabled: bool,
    description: Seq<char>,
    m: MatchRequest,
    threshold: u32,
    period: u32,
    action: RateLimitAction,
) -> bool {
    &&& j.field_bool("disabled"@) == Some(disabled)
    &&& j.field_str("description"@) == Some(description)
    &&& (match j.spec_get("match"@) {
        Some(mj) => match_request_body(mj, m),
        None => false,
    })
    &&& j.field_u64("threshold"@) == Some(threshold as u64)
    &&& j.field_u64("period"@) == Some(period as u64)
    &&& (match j.spec_get("action"@) {
        Some(aj) => rl_action_body(aj, action),
        None => false,
    })
}

fn rate_limit_json(
    disabled: bool,
    description: &String,
    m: &MatchRequest,
    threshold: u32,
    period: u32,
    action: &RateLimitAction,
) -> (j: JsonValue)
    ensures
        rate_limit_body(j, disabled, description@, *m, threshold, period, *action),
{
    let mut req_entries: Vec<(String, JsonValue)> = Vec::new();
    req_entries.push(("url".to_owned(), JsonValue::Str(m.url.clone())));
    req_entries.push(("methods".to_owned(), opt_string_list_json(&m.methods)));
    req_entries.push(("schemes".to_owned(), opt_string_list_json(&m.schemes)));
    let req_obj = JsonValue::Obj(req_entries);
    proof {
        reveal_with_fuel(obj_lookup, 5);
        reveal_strlit("url");
        reveal_strlit("methods");
        reveal_strlit("schemes");
        assert("url"@.len() == 3);
        assert("methods"@.len() == 7);
        assert("schemes"@.len() == 7);
        assert("methods"@[0] == 'm');
        assert("schemes"@[0] == 's');
    }
    let mut match_entries: Vec<(String, JsonValue)> = Vec::new();
    match_entries.push(("request".to_owned(), req_obj));
    let match_obj = JsonValue::Obj(match_entries);
    let action_obj = rl_action_json(action);
    let mut entries: Vec<(String, JsonValue)> = Vec::new();
    entries.push(("disabled".to_owned(), JsonValue::Bool(disabled)));
    entries.push(("description".to_owned(), JsonValue::Str(description.clone())));
    entries.push(("match".to_owned(), match_obj));
    entries.push(("threshold".to_owned(), JsonValue::Int(threshold as i64)));
    entries.push(("period".to_owned(), JsonValue::Int(period as i64)));
    entries.push(("action".to_owned(), action_obj));
    let j = JsonValue::Obj(entries);
    proof {
        reveal_with_fuel(obj_lookup, 8);
        reveal_strlit("request");
        reveal_strlit("disabled");
        reveal_strlit("description");
        reveal_strlit("match");
        reveal_strlit("threshold");
        reveal_strlit("period");
        reveal_strlit("action");
        assert("request"@.len() == 7);
        assert("disabled"@.len() == 8);
        assert("description"@.len() == 11);
        assert("match"@.len() == 5);
        assert("threshold"@.len() == 9);
        assert("period"@.len() == 6);
        assert("action"@.len() == 6);
        assert("period"@[0] == 'p');
        assert("action"@[0] == 'a');
    }
    j
}

pub fn create_rate_limit_request(
    zone_id: &str,
    disabled: bool,
    description: &String,
    m: &MatchRequest,
    threshold: u32,
    period: u32,
    action: &RateLimitAction,
) -> (r: UpstreamRequest)
    ensures
        r.method == HttpMethod::Post,
        r.path@ == "/zones/"@ + zone_id@ + "/rate_limits"@,
        r.body matches RequestBody::Json(j) && rate_limit_body(
            j,
            disabled,
            description@,
            *m,
            threshold,
            period,
            *action,
        ),
{
    let j = rate_limit_json(disabled, description, m, threshold, period, action);
    UpstreamRequest {
        method: HttpMethod::Post,
        path: concat3("/zones/", zone_id, "/rate_limits"),
        body: RequestBody::Json(j),
    }
}

pub fn update_rate_limit_request(
    zone_id: &str,
    rate_limit_id: &str,
    disabled: bool,
    description: &String,
    m: &MatchRequest,
    threshold: u32,
    period: u32,
    action: &RateLimitAction,
) -> (r: UpstreamRequest)
    ensures
        r.method == HttpMethod::Put,
        r.path@ == "/zones/"@ + zone_id@ + "/rate_limits/"@ + rate_limit_id@,
        r.body matches RequestBody::Json(j) && rate_limit_body(
            j,
            disabled,
            description@,
            *m,
            threshold,
            period,
            *action,
        ),
{
    let j = rate_limit_json(disabled, description, m, threshold, period, action);
    UpstreamRequest {
        method: HttpMethod::Put,
        path: concat4("/zones/", zone_id, "/rate_limits/", rate_limit_id),
        body: RequestBody::Json(j),
    }
}

pub fn rate_limit_response(status: u16, body: JsonValue) -> (r: Result<RateLimit, RelayError>)
    ensures
        r is Ok <==> envelope_ok(body) && rate_limit_ok(envelope_result(body)),
        r matches Ok(rl) ==> rate_limit_matches(envelope_result(body), rl),
        r matches Err(e) ==> (if !envelope_ok(body) {
            e matches RelayError::Upstream { status: s, message: m } && s == status && m@
                == spec_upstream_error_msg(body)
        } else {
            e matches RelayError::Decode(m) && m@ == "Failed to parse rate limit"@
        }),
{
    let result = match unwrap_envelope(status, body) {
        Ok(v) => v,
        Err(e) => return Err(e),
    };
    match decode_rate_limit(&result) {
        Ok(rl) => Ok(rl),
        Err(()) => Err(RelayError::Decode("Failed to parse rate limit".to_owned())),
    }
}

pub fn delete_rate_limit_request(zone_id: &str, rate_limit_id: &str) -> (r: UpstreamRequest)
    ensures
        r.method == HttpMethod::Delete,
        r.path@ == "/zones/"@ + zone_id@ + "/rate_limits/"@ + rate_limit_id@,
        r.body is Empty,
{
    UpstreamRequest {
        method: HttpMethod::Delete,
        path: concat4("/zones/", zone_id, "/rate_limits/", rate_limit_id),
        body: RequestBody::Empty,
    }
}

pub fn delete_rate_limit_response(status: u16, body: JsonValue) -> (r: Result<String, RelayError>)
    ensures
        r is Ok <==> envelope_ok(body),
        r matches Ok(s) ==> s@ == "Rate limit deleted successfully"@,
        r matches Err(e) ==> (e matches RelayError::Upstream { status: s, message: m } && s
            == status && m@ == spec_upstream_error_msg(body)),
{
    match unwrap_envelope(status, body) {
        Ok(_) => Ok("Rate limit deleted successfully".to_owned()),
        Err(e) => Err(e),
    }
}

} // verus!
