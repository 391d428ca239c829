//! Web-application-firewall package and rule operations.

use vstd::prelude::*;
use vstd::string::*;
use crate::decode::{
    decode_waf_package, decode_waf_package_list, decode_waf_rule, decode_waf_rule_list,
    waf_package_matches, waf_package_ok, waf_packages_filtered, waf_rule_matches, waf_rule_ok,
    waf_rules_filtered,
};
use crate::envelope::{envelope_ok, envelope_result, spec_upstream_error_msg, unwrap_envelope};
use crate::error::RelayError;
use crate::json::{lemma_obj_lookup_some_key, obj_lookup, JsonValue};
use crate::strutil::{concat3, concat4, concat5, concat6};
use crate::types::{WafPackage, WafRule};
use crate::upstream::{HttpMethod, RequestBody, UpstreamRequest};

verus! {

pub fn get_waf_packages_request(zone_id: &str) -> (r: UpstreamRequest)
    ensures
        r.method == HttpMethod::Get,
        r.path@ == "/zones/"@ + zone_id@ + "/firewall/waf/packages"@,
        r.body is Empty,
{
    UpstreamRequest {
        method: HttpMethod::Get,
        path: concat3("/zones/", zone_id, "/firewall/waf/packages"),
        body: RequestBody::Empty,
    }
}

pub fn get_waf_packages_response(status: u16, body: JsonValue) -> (r: Result<
    Vec<WafPackage>,
    RelayError,
>)
    ensures
        r is Ok <==> envelope_ok(body) && envelope_result(body).spec_arr() is Some,
        r matches Ok(v) ==> (match envelope_result(body).spec_arr() {
            Some(items) => waf_packages_filtered(items, v@),
            None => false,
        }),
        r matches Err(e) ==> (if !envelope_ok(body) {
            e matches RelayError::Upstream { status: s, message: m } && s == status && m@
                == spec_upstream_error_msg(body)
        } else {
            e matches RelayError::Decode(m) && m@ == "Invalid result format"@
        }),
{
    let result = match unwrap_envelope(status, body) {
        Ok(v) => v,
        Err(e) => return Err(e),
    };
    let items = match result.into_arr() {
        Some(v) => v,
        None => return Err(RelayError::Decode("Invalid result format".to_owned())),
    };
    Ok(decode_waf_package_list(&items))
}

pub fn get_waf_rules_request(zone_id: &str, package_id: &str) -> (r: UpstreamRequest)
    ensures
        r.method == HttpMethod::Get,
        r.path@ == "/zones/"@ + zone_id@ + "/firewall/waf/packages/"@ + package_id@ + "/rules"@,
        r.body is Empty,
{
    UpstreamRequest {
        method: HttpMethod::Get,
        path: concat5("/zones/", zone_id, "/firewall/waf/packages/", package_id, "/rules"),
        body: RequestBody::Empty,
    }
}

pub fn get_waf_rules_response(status: u16, body: JsonValue) -> (r: Result<Vec<WafRule>, RelayError>)
    ensures
        r is Ok <==> envelope_ok(body) && envelope_result(body).spec_arr() is Some,
        r matches Ok(v) ==> (match envelope_result(body).spec_arr() {
            Some(items) => waf_rules_filtered(items, v@),
            None => false,
        }),
        r matches Err(e) ==> (if !envelope_ok(body) {
            e matches RelayError::Upstream { status: s, message: m } && s == status && m@
                == spec_upstream_error_msg(body)
        } else {
            e matches RelayError::Decode(m) && m@ == "Invalid result format"@
        }),
{
    let result = match unwrap_envelope(status, body) {
        Ok(v) => v,
        Err(e) => return Err(e),
    };
    let items = match result.into_arr() {
        Some(v) => v,
        None => return Err(RelayError::Decode("Invalid result format".to_owned())),
    };
    Ok(decode_waf_rule_list(&items))
}

pub fn update_waf_rule_request(zone_id: &str, package_id: &str, rule_id: &str, mode: &str) -> (r:
    UpstreamRequest)
    ensures
        r.method == HttpMethod::Patch,
        r.path@ == "/zones/"@ + zone_id@ + "/firewall/waf/packages/"@ + package_id@ + "/rules/"@
            + rule_id@,
        r.body matches RequestBody::Json(j) && j.field_str("mode"@) == Some(mode@),
{
    let mut entries: Vec<(String, JsonValue)> = Vec::new();
    entries.push(("mode".to_owned(), JsonValue::Str(mode.to_owned())));
    let j = JsonValue::Obj(entries);
    proof {
        reveal_with_fuel(obj_lookup, 3);
    }
    UpstreamRequest {
        method: HttpMethod::Patch,
        path: concat6("/zones/", zone_id, "/firewall/waf/packages/", package_id, "/rules/", rule_id),
        body: RequestBody::Json(j),
    }
}

pub fn update_waf_rule_response(status: u16, body: JsonValue) -> (r: Result<WafRule, RelayError>)
    ensures
        r is Ok <==> envelope_ok(body) && waf_rule_ok(envelope_result(body)),
        r matches Ok(w) ==> waf_rule_matches(envelope_result(body), w),
        r matches Err(e) ==> (if !envelope_ok(body) {
            e matches RelayError::Upstream { status: s, message: m } && s == status && m@
                == spec_upstream_error_msg(body)
        } else {
            e matches RelayError::Decode(m) && m@ == "Failed to parse WAF rule"@
        }),
{
    let result = match unwrap_envelope(status, body) {
        Ok(v) => v,
        Err(e) => return Err(e),
    };
    match decode_waf_rule(&result) {
        Ok(w) => Ok(w),
        Err(()) => Err(RelayError::Decode("Failed to parse WAF rule".to_owned())),
    }
}

/// Only the fields the caller supplied are sent.
pub fn update_waf_package_request(
    zone_id: &str,
    package_id: &str,
    sensitivity: &Option<String>,
    action_mode: &Option<String>,
) -> (r: UpstreamRequest)
    ensures
        r.method == HttpMethod::Patch,
        r.path@ == "/zones/"@ + zone_id@ + "/firewall/waf/packages/"@ + package_id@,
        r.body matches RequestBody::Json(j) && ({
            &&& (match sensitivity {
                Some(s) => j.field_str("sensitivity"@) == Some(s@),
                None => j.spec_get("sensitivity"@) is None,
            })
            &&& (match action_mode {
                Some(a) => j.field_str("action_mode"@) == Some(a@),
                None => j.spec_get("action_mode"@) is None,
            })
            &&& j.keys_among(set!["sensitivity"@, "action_mode"@])
        }),
{
    let mut entries: Vec<(String, JsonValue)> = Vec::new();
    match sensitivity {
        Some(s) => entries.push(("sensitivity".to_owned(), JsonValue::Str(s.clone()))),
        None => (),
    }
    match action_mode {
        Some(a) => entries.push(("action_mode".to_owned(), JsonValue::Str(a.clone()))),
        None => (),
    }
    let ghost eseq = entries@;
    let j = JsonValue::Obj(entries);
    proof {
        reveal_with_fuel(obj_lookup, 4);
        reveal_strlit("sensitivity");
        reveal_strlit("action_mode");
        assert("sensitivity"@.len() == 11);
        assert("action_mode"@.len() == 11);
        assert("sensitivity"@[0] == 's');
        assert("action_mode"@[0] == 'a');
        assert forall|k: Seq<char>| j.spec_get(k) is Some implies (k == "sensitivity"@ || k
            == "action_mode"@) by {
            lemma_obj_lookup_some_key(eseq, k);
        }
        assert(j.keys_among(set!["sensitivity"@, "action_mode"@]));
    }
    UpstreamRequest {
        method: HttpMethod::Patch,
        path: concat4("/zones/", zone_id, "/firewall/waf/packages/", package_id),
        body: RequestBody::Json(j),
    }
}

pub fn update_waf_package_response(status: u16, body: JsonValue) -> (r: Result<
    WafPackage,
    RelayError,
>)
    ensures
        r is Ok <==> envelope_ok(body) && waf_package_ok(envelope_result(body)),
        r matches Ok(p) ==> waf_package_matches(envelope_result(body), p),
        r matches Err(e) ==> (if !envelope_ok(body) {
            e matches RelayError::Upstream { status: s, message: m } && s == status && m@
                == spec_upstream_error_msg(body)
        } else {
            e matches RelayError::Decode(m) && m@ == "Failed to parse WAF package"@
        }),
{
    let result = match unwrap_envelope(status, body) {
        Ok(v) => v,
        Err(e) => return Err(e),
    };
    match decode_waf_package(&result) {
        Ok(p) => Ok(p),
        Err(()) => Err(RelayError::Decode("Failed to parse WAF package".to_owned())),
    }
}

} // verus!
