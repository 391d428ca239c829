//! Firewall operations. Creating a rule is a two-step sequence: first the
//! filter is posted and its upstream-assigned id captured, then the rule
//! referencing that id is posted. A failure in the second step leaves the
//! created filter in place; no cleanup call exists.

use vstd::prelude::*;
use vstd::string::*;
use crate::decode::{
    decode_firewall_rule, decode_firewall_rule_list, firewall_rule_list_matches,
    firewall_rule_list_ok, firewall_rule_matches, firewall_rule_ok,
};
use crate::envelope::{envelope_ok, envelope_result, spec_upstream_error_msg, unwrap_envelope};
use crate::error::RelayError;
use crate::json::{lemma_obj_lookup_some_key, obj_lookup, JsonValue};
use crate::strutil::{concat3, concat4};
use crate::types::FirewallRule;
use crate::upstream::{HttpMethod, RequestBody, UpstreamRequest};

verus! {

pub fn get_firewall_rules_request(zone_id: &str) -> (r: UpstreamRequest)
    ensures
        r.method == HttpMethod::Get,
        r.path@ == "/zones/"@ + zone_id@ + "/firewall/rules"@,
        r.body is Empty,
{
    UpstreamRequest {
        method: HttpMethod::Get,
        path: concat3("/zones/", zone_id, "/firewall/rules"),
        body: RequestBody::Empty,
    }
}

pub fn get_firewall_rules_response(status: u16, body: JsonValue) -> (r: Result<
    Vec<FirewallRule>,
    RelayError,
>)
    ensures
        r is Ok <==> envelope_ok(body) && (match envelope_result(body).spec_arr() {
            Some(items) => firewall_rule_list_ok(items),
            None => false,
        }),
        r matches Ok(v) ==> (match envelope_result(body).spec_arr() {
            Some(items) => firewall_rule_list_matches(items, v@),
            None => false,
        }),
        r matches Err(e) ==> (if !envelope_ok(body) {
            e matches RelayError::Upstream { status: s, message: m } && s == status && m@
                == spec_upstream_error_msg(body)
        } else {
            e matches RelayError::Decode(m) && m@ == "Failed to parse firewall rules"@
        }),
{
    let result = match unwrap_envelope(status, body) {
        Ok(v) => v,
        Err(e) => return Err(e),
    };
    let items = match result.into_arr() {
        Some(v) => v,
        None => return Err(RelayError::Decode("Failed to parse firewall rules".to_owned())),
    };
    match decode_firewall_rule_list(&items) {
        Ok(v) => Ok(v),
        Err(()) => Err(RelayError::Decode("Failed to parse firewall rules".to_owned())),
    }
}

/// Step one of rule creation: post the filter as a one-element list of
/// `{expression, description}` (a missing description is sent as null).
pub fn firewall_filter_request(zone_id: &str, rule: &FirewallRule) -> (r: UpstreamRequest)
    ensures
        r.method == HttpMethod::Post,
        r.path@ == "/zones/"@ + zone_id@ + "/filters"@,
        r.body matches RequestBody::Json(j) && (j.spec_arr() matches Some(a) && a.len() == 1
            && a[0].field_str("expression"@) == Some(rule.filter.expression@) && (
        match rule.filter.description {
            Some(d) => a[0].field_str("description"@) == Some(d@),
            None => a[0].spec_get("description"@) == Some(JsonValue::Null),
        })),
{
    let mut entries: Vec<(String, JsonValue)> = Vec::new();
    entries.push(("expression".to_owned(), JsonValue::Str(rule.filter.expression.clone())));
    match &rule.filter.description {
        Some(d) => entries.push(("description".to_owned(), JsonValue::Str(d.clone()))),
        None => entries.push(("description".to_owned(), JsonValue::Null)),
    }
    let obj = JsonValue::Obj(entries);
    proof {
        reveal_with_fuel(obj_lookup, 4);
        reveal_strlit("expression");
        reveal_strlit("description");
        assert("expression"@.len() == 10);
        assert("description"@.len() == 11);
    }
    let mut items: Vec<JsonValue> = Vec::new();
    items.push(obj);
    UpstreamRequest {
        method: HttpMethod::Post,
        path: concat3("/zones/", zone_id, "/filters"),
        body: RequestBody::Json(JsonValue::Arr(items)),
    }
}

/// The filter id the first step's reply carries, required before the rule
/// can be posted.
pub fn extract_filter_id(result: &JsonValue) -> (r: Result<String, RelayError>)
    ensures
        r is Ok <==> (match result.spec_arr() {
            Some(a) => a.len() > 0 && a[0].field_str("id"@) is Some,
            None => false,
        }),
        r matches Ok(s) ==> (match result.spec_arr() {
            Some(a) => a.len() > 0 && a[0].field_str("id"@) == Some(s@),
            None => false,
        }),
        r matches Err(e) ==> e matches RelayError::Decode(m) && m@ == "Failed to get filter ID"@,
{
    match result.as_arr() {
        Some(items) => {
            if items.len() > 0 {
                match items[0].get_string("id") {
                    Some(s) => Ok(s),
                    None => Err(RelayError::Decode("Failed to get filter ID".to_owned())),
                }
            } else {
                Err(RelayError::Decode("Failed to get filter ID".to_owned()))
            }
        },
        None => Err(RelayError::Decode("Failed to get filter ID".to_owned())),
    }
}

/// Step one's reply: envelope check, then the filter id.
pub fn firewall_filter_response(status: u16, body: JsonValue) -> (r: Result<String, RelayError>)
    ensures
        r is Ok <==> envelope_ok(body) && (match envelope_result(body).spec_arr() {
            Some(a) => a.len() > 0 && a[0].field_str("id"@) is Some,
            None => false,
        }),
        r matches Ok(s) ==> (match envelope_result(body).spec_arr() {
            Some(a) => a.len() > 0 && a[0].field_str("id"@) == Some(s@),
            None => false,
        }),
        r matches Err(e) ==> (if !envelope_ok(body) {
            e matches RelayError::Upstream { status: s, message: m } && s == status && m@
                == spec_upstream_error_msg(body)
        } else {
            e matches RelayError::Decode(m) && m@ == "Failed to get filter ID"@
        }),
{
    let result = match unwrap_envelope(status, body) {
        Ok(v) => v,
        Err(e) => return Err(e),
    };
    extract_filter_id(&result)
}

/// Step two of rule creation: post the rule as a one-element list carrying
/// the captured filter id.
pub fn firewall_rule_create_request(zone_id: &str, filter_id: &str, rule: &FirewallRule) -> (r:
    UpstreamRequest)
    ensures
        r.method == HttpMethod::Post,
        r.path@ == "/zones/"@ + zone_id@ + "/firewall/rules"@,
        r.body matches RequestBody::Json(j) && (j.spec_arr() matches Some(a) && a.len() == 1 && ({
            &&& (match a[0].spec_get("filter"@) {
                Some(f) => f.field_str("id"@) == Some(filter_id@),
                None => false,
            })
            &&& a[0].field_str("action"@) == Some(rule.action@)
            &&& (match rule.description {
                Some(d) => a[0].field_str("description"@) == Some(d@),
                None => a[0].spec_get("description"@) == Some(JsonValue::Null),
            })
            &&& a[0].field_bool("paused"@) == Some(rule.paused)
        })),
{
    let mut filter_entries: Vec<(String, JsonValue)> = Vec::new();
    filter_entries.push(("id".to_owned(), JsonValue::Str(filter_id.to_owned())));
    let filter_obj = JsonValue::Obj(filter_entries);
    let mut entries: Vec<(String, JsonValue)> = Vec::new();
    entries.push(("filter".to_owned(), filter_obj));
    entries.push(("action".to_owned(), JsonValue::Str(rule.action.clone())));
    match &rule.description {
        Some(d) => entries.push(("description".to_owned(), JsonValue::Str(d.clone()))),
        None => entries.push(("description".to_owned(), JsonValue::Null)),
    }
    entries.push(("paused".to_owned(), JsonValue::Bool(rule.paused)));
    let obj = JsonValue::Obj(entries);
    proof {
        reveal_with_fuel(obj_lookup, 6);
        reveal_strlit("filter");
        reveal_strlit("action");
        reveal_strlit("description");
        reveal_strlit("paused");
        reveal_strlit("id");
        assert("filter"@.len() == 6);
        assert("action"@.len() == 6);
        assert("filter"@[0] == 'f');
        assert("action"@[0] == 'a');
        assert("description"@.len() == 11);
        assert("paused"@.len() == 6);
        assert("paused"@[0] == 'p');
        assert(obj.field_bool("paused"@) == Some(rule.paused));
    }
    let mut items: Vec<JsonValue> = Vec::new();
    items.push(obj);
    UpstreamRequest {
        method: HttpMethod::Post,
        path: concat3("/zones/", zone_id, "/firewall/rules"),
        body: RequestBody::Json(JsonValue::Arr(items)),
    }
}

/// Step two's reply: the created rule is the first element of the result
/// list. A failure here is reported as-is; the filter from step one is not
/// removed and the sequence is not retried.
pub fn create_firewall_rule_response(status: u16, body: JsonValue) -> (r: Result<
    FirewallRule,
    RelayError,
>)
    ensures
        r is Ok <==> envelope_ok(body) && (match envelope_result(body).spec_arr() {
            Some(a) => a.len() > 0 && firewall_rule_ok(a[0]),
            None => false,
        }),
        r matches Ok(fr) ==> (match envelope_result(body).spec_arr() {
            Some(a) => a.len() > 0 && firewall_rule_matches(a[0], fr),
            None => false,
        }),
        r matches Err(e) ==> (if !envelope_ok(body) {
            e matches RelayError::Upstream { status: s, message: m } && s == status && m@
                == spec_upstream_error_msg(body)
        } else {
            e matches RelayError::Decode(m) && m@ == "Failed to parse rule"@
        }),
{
    let result = match unwrap_envelope(status, body) {
        Ok(v) => v,
        Err(e) => return Err(e),
    };
    let items = match result.into_arr() {
        Some(v) => v,
        None => return Err(RelayError::Decode("Failed to parse rule".to_owned())),
    };
    if items.len() == 0 {
        return Err(RelayError::Decode("Failed to parse rule".to_owned()));
    }
    match decode_firewall_rule(&items[0]) {
        Ok(fr) => Ok(fr),
        Err(()) => Err(RelayError::Decode("Failed to parse rule".to_owned())),
    }
}

/// An update sends only the mutable parts of the rule.
pub fn update_firewall_rule_request(zone_id: &str, rule_id: &str, rule: &FirewallRule) -> (r:
    UpstreamRequest)
    ensures
        r.method == HttpMethod::Put,
        r.path@ == "/zones/"@ + zone_id@ + "/firewall/rules/"@ + rule_id@,
        r.body matches RequestBody::Json(j) && ({
            &&& j.field_str("action"@) == Some(rule.action@)
            &&& (match rule.description {
                Some(d) => j.field_str("description"@) == Some(d@),
                None => j.spec_get("description"@) == Some(JsonValue::Null),
            })
            &&& j.field_bool("paused"@) == Some(rule.paused)
            &&& j.keys_among(set!["action"@, "description"@, "paused"@])
        }),
{
    let mut entries: Vec<(String, JsonValue)> = Vec::new();
    entries.push(("action".to_owned(), JsonValue::Str(rule.action.clone())));
    match &rule.description {
        Some(d) => entries.push(("description".to_owned(), JsonValue::Str(d.clone()))),
        None => entries.push(("description".to_owned(), JsonValue::Null)),
    }
    entries.push(("paused".to_owned(), JsonValue::Bool(rule.paused)));
    let ghost eseq = entries@;
    let j = JsonValue::Obj(entries);
    proof {
        reveal_with_fuel(obj_lookup, 5);
        reveal_strlit("action");
        reveal_strlit("description");
        reveal_strlit("paused");
        assert("action"@.len() == 6);
        assert("description"@.len() == 11);
        assert("paused"@.len() == 6);
        assert("action"@[0] == 'a');
        assert("paused"@[0] == 'p');
        assert forall|k: Seq<char>| j.spec_get(k) is Some implies (k == "action"@ || k
            == "description"@ || k == "paused"@) by {
            lemma_obj_lookup_some_key(eseq, k);
        }
        assert(j.keys_among(set!["action"@, "description"@, "paused"@]));
    }
    UpstreamRequest {
        method: HttpMethod::Put,
        path: concat4("/zones/", zone_id, "/firewall/rules/", rule_id),
        body: RequestBody::Json(j),
    }
}

pub fn update_firewall_rule_response(status: u16, body: JsonValue) -> (r: Result<
    FirewallRule,
    RelayError,
>)
    ensures
        r is Ok <==> envelope_ok(body) && firewall_rule_ok(envelope_result(body)),
        r matches Ok(fr) ==> firewall_rule_matches(envelope_result(body), fr),
        r matches Err(e) ==> (if !envelope_ok(body) {
            e matches RelayError::Upstream { status: s, message: m } && s == status && m@
                == spec_upstream_error_msg(body)
        } else {
            e matches RelayError::Decode(m) && m@ == "Failed to parse rule"@
        }),
{
    let result = match unwrap_envelope(status, body) {
        Ok(v) => v,
        Err(e) => return Err(e),
    };
    match decode_firewall_rule(&result) {
        Ok(fr) => Ok(fr),
        Err(()) => Err(RelayError::Decode("Failed to parse rule".to_owned())),
    }
}

pub fn delete_firewall_rule_request(zone_id: &str, rule_id: &str) -> (r: UpstreamRequest)
    ensures
        r.method == HttpMethod::Delete,
        r.path@ == "/zones/"@ + zone_id@ + "/firewall/rules/"@ + rule_id@,
        r.body is Empty,
{
    UpstreamRequest {
        method: HttpMethod::Delete,
        path: concat4("/zones/", zone_id, "/firewall/rules/", rule_id),
        body: RequestBody::Empty,
    }
}

pub fn delete_firewall_rule_response(status: u16, body: JsonValue, rule_id: &str) -> (r: Result<
    String,
    RelayError,
>)
    ensures
        r is Ok <==> envelope_ok(body),
        r matches Ok(s) ==> s@ == rule_id@,
        r matches Err(e) ==> (e matches RelayError::Upstream { status: s, message: m } && s
            == status && m@ == spec_upstream_error_msg(body)),
{
    match unwrap_envelope(status, body) {
        Ok(_) => Ok(rule_id.to_owned()),
        Err(e) => Err(e),
    }
}

} // verus!
