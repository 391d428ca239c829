//! Page-rule operations.

use vstd::prelude::*;
use vstd::string::*;
use crate::decode::{
    decode_page_rule, decode_page_rule_list, page_action_matches, page_action_ok,
    page_actions_all_ok, page_rule_list_matches, page_rule_list_ok, page_rule_matches,
    page_rule_ok, page_target_matches, page_target_ok, page_targets_all_ok,
};
use crate::envelope::{envelope_ok, envelope_result, spec_upstream_error_msg, unwrap_envelope};
use crate::error::RelayError;
use crate::json::{obj_lookup, JsonValue};
use crate::strutil::{concat3, concat4};
use crate::types::{PageRule, PageRuleAction, PageRuleTarget};
use crate::upstream::{HttpMethod, RequestBody, UpstreamRequest};

verus! {

pub fn get_page_rules_request(zone_id: &str) -> (r: UpstreamRequest)
    ensures
        r.method == HttpMethod::Get,
        r.path@ == "/zones/"@ + zone_id@ + "/pagerules"@,
        r.body is Empty,
{
    UpstreamRequest {
        method: HttpMethod::Get,
        path: concat3("/zones/", zone_id, "/pagerules"),
        body: RequestBody::Empty,
    }
}

pub fn get_page_rules_response(status: u16, body: JsonValue) -> (r: Result<
    Vec<PageRule>,
    RelayError,
>)
    ensures
        r is Ok <==> envelope_ok(body) && (match envelope_result(body).spec_arr() {
            Some(items) => page_rule_list_ok(items),
            None => false,
        }),
        r matches Ok(v) ==> (match envelope_result(body).spec_arr() {
            Some(items) => page_rule_list_matches(items, v@),
            None => false,
        }),
        r matches Err(e) ==> (if !envelope_ok(body) {
            e matches RelayError::Upstream { status: s, message: m } && s == status && m@
                == spec_upstream_error_msg(body)
        } else {
            e matches RelayError::Decode(m) && m@ == "Failed to parse page rules"@
        }),
{
    let result = match unwrap_envelope(status, body) {
        Ok(v) => v,
        Err(e) => return Err(e),
    };
    let items = match result.into_arr() {
        Some(v) => v,
        None => return Err(RelayError::Decode("Failed to parse page rules".to_owned())),
    };
    match decode_page_rule_list(items) {
        Ok(v) => Ok(v),
        Err(()) => Err(RelayError::Decode("Failed to parse page rules".to_owned())),
    }
}

fn page_target_to_json(t: &PageRuleTarget) -> (j: JsonValue)
    ensures
        page_target_ok(j),
        page_target_matches(j, *t),
{
    let mut c_entries: Vec<(String, JsonValue)> = Vec::new();
    c_entries.push(("operator".to_owned(), JsonValue::Str(t.constraint.operator.clone())));
    c_entries.push(("value".to_owned(), JsonValue::Str(t.constraint.value.clone())));
    let c_obj = JsonValue::Obj(c_entries);
    let mut entries: Vec<(String, JsonValue)> = Vec::new();
    entries.push(("target".to_owned(), JsonValue::Str(t.target.clone())));
    entries.push(("constraint".to_owned(), c_obj));
    let j = JsonValue::Obj(entries);
    proof {
        reveal_with_fuel(obj_lookup, 4);
        reveal_strlit("operator");
        reveal_strlit("value");
        reveal_strlit("target");
        reveal_strlit("constraint");
        assert("operator"@.len() == 8);
        assert("value"@.len() == 5);
        assert("target"@.len() == 6);
        assert("constraint"@.len() == 10);
    }
    j
}

fn page_action_to_json(a: PageRuleAction) -> (j: JsonValue)
    ensures
        page_action_ok(j),
        page_action_matches(j, a),
{
    let mut entries: Vec<(String, JsonValue)> = Vec::new();
    entries.push(("id".to_owned(), JsonValue::Str(a.id.clone())));
    entries.push(("value".to_owned(), a.value));
    let j = JsonValue::Obj(entries);
    proof {
        reveal_with_fuel(obj_lookup, 4);
        reveal_strlit("id");
        reveal_strlit("value");
        assert("id"@.len() == 2);
        assert("value"@.len() == 5);
    }
    j
}

/// The rule rendered as the JSON document sent upstream; it satisfies the
/// same field relation the decoder checks.
pub fn page_rule_to_json(rule: PageRule) -> (j: JsonValue)
    ensures
        page_rule_ok(j),
        page_rule_matches(j, rule),
{
    let PageRule { id, targets, actions, priority, status } = rule;
    let n_t = targets.len();
    let mut target_items: Vec<JsonValue> = Vec::new();
    let mut i: usize = 0;
    while i < n_t
        invariant
            n_t == targets@.len(),
            i <= n_t,
            target_items@.len() == i,
            forall|k: int|
                0 <= k < i ==> page_target_ok(target_items@[k]) && page_target_matches(
                    target_items@[k],
                    targets@[k],
                ),
        decreases n_t - i,
    {
        let tj = page_target_to_json(&targets[i]);
        target_items.push(tj);
        i += 1;
    }
    let ghost actions_orig = actions@;
    let n_a = actions.len();
    let mut rest = actions;
    let mut action_items: Vec<JsonValue> = Vec::new();
    let mut done: usize = 0;
    while done < n_a
        invariant
            n_a == actions_orig.len(),
            done <= n_a,
            action_items@.len() == done,
            rest@ == actions_orig.skip(done as int),
            forall|k: int| #![trigger action_items@[k]]
                0 <= k < done ==> page_action_ok(action_items@[k]) && page_action_matches(
                    action_items@[k],
                    actions_orig[k],
                ),
        decreases n_a - done,
    {
        let a = rest.remove(0);
        proof {
            assert(a == actions_orig.skip(done as int)[0]);
            assert(actions_orig.skip(done as int)[0] == actions_orig[done as int]);
            assert(rest@ =~= actions_orig.skip(done as int + 1));
        }
        let aj = page_action_to_json(a);
        action_items.push(aj);
        done += 1;
    }
    let ghost tseq = target_items@;
    let ghost aseq = action_items@;
    let mut entries: Vec<(String, JsonValue)> = Vec::new();
    match &id {
        Some(v) => entries.push(("id".to_owned(), JsonValue::Str(v.clone()))),
        None => (),
    }
    entries.push(("targets".to_owned(), JsonValue::Arr(target_items)));
    entries.push(("actions".to_owned(), JsonValue::Arr(action_items)));
    match priority {
        Some(p) => entries.push(("priority".to_owned(), JsonValue::Int(p as i64))),
        None => (),
    }
    match &status {
        Some(v) => entries.push(("status".to_owned(), JsonValue::Str(v.clone()))),
        None => (),
    }
    let j = JsonValue::Obj(entries);
    proof {
        reveal_with_fuel(obj_lookup, 7);
        reveal_strlit("id");
        reveal_strlit("targets");
        reveal_strlit("actions");
        reveal_strlit("priority");
        reveal_strlit("status");
        assert("id"@.len() == 2);
        assert("targets"@.len() == 7);
        assert("actions"@.len() == 7);
        assert("priority"@.len() == 8);
        assert("status"@.len() == 6);
        assert("targets"@[0] == 't');
        assert("actions"@[0] == 'a');
        assert(page_targets_all_ok(tseq));
        assert(page_actions_all_ok(aseq));
        assert(j.field_arr("targets"@) == Some(tseq));
        assert(j.field_arr("actions"@) == Some(aseq));
    }
    j
}

pub fn create_page_rule_request(zone_id: &str, rule: PageRule) -> (r: UpstreamRequest)
    ensures
        r.method == HttpMethod::Post,
        r.path@ == "/zones/"@ + zone_id@ + "/pagerules"@,
        r.body matches RequestBody::Json(j) && page_rule_matches(j, rule),
{
    let j = page_rule_to_json(rule);
    UpstreamRequest {
        method: HttpMethod::Post,
        path: concat3("/zones/", zone_id, "/pagerules"),
        body: RequestBody::Json(j),
    }
}

pub fn update_page_rule_request(zone_id: &str, rule_id: &str, rule: PageRule) -> (r:
    UpstreamRequest)
    ensures
        r.method == HttpMethod::Patch,
        r.path@ == "/zones/"@ + zone_id@ + "/pagerules/"@ + rule_id@,
        r.body matches RequestBody::Json(j) && page_rule_matches(j, rule),
{
    let j = page_rule_to_json(rule);
    UpstreamRequest {
        method: HttpMethod::Patch,
        path: concat4("/zones/", zone_id, "/pagerules/", rule_id),
        body: RequestBody::Json(j),
    }
}

/// Shared by create and update: the reply carries the stored rule.
pub fn page_rule_response(status: u16, body: JsonValue) -> (r: Result<PageRule, RelayError>)
    ensures
        r is Ok <==> envelope_ok(body) && page_rule_ok(envelope_result(body)),
        r matches Ok(p) ==> page_rule_matches(envelope_result(body), p),
        r matches Err(e) ==> (if !envelope_ok(body) {
            e matches RelayError::Upstream { status: s, message: m } && s == status && m@
                == spec_upstream_error_msg(body)
        } else {
            e matches RelayError::Decode(m) && m@ == "Failed to parse page rule"@
        }),
{
    let result = match unwrap_envelope(status, body) {
        Ok(v) => v,
        Err(e) => return Err(e),
    };
    match decode_page_rule(result) {
        Ok(p) => Ok(p),
        Err(()) => Err(RelayError::Decode("Failed to parse page rule".to_owned())),
    }
}

pub fn delete_page_rule_request(zone_id: &str, rule_id: &str) -> (r: UpstreamRequest)
    ensures
        r.method == HttpMethod::Delete,
        r.path@ == "/zones/"@ + zone_id@ + "/pagerules/"@ + rule_id@,
        r.body is Empty,
{
    UpstreamRequest {
        method: HttpMethod::Delete,
        path: concat4("/zones/", zone_id, "/pagerules/", rule_id),
        body: RequestBody::Empty,
    }
}

pub fn delete_page_rule_response(status: u16, body: JsonValue, rule_id: &str) -> (r: Result<
    String,
    RelayError,
>)
    ensures
        r is Ok <==> envelope_ok(body),
        r matches Ok(s) ==> s@ == rule_id@,
        r matches Err(e) ==> (e matches RelayError::Upstream { status: s, message: m } && s
            == status && m@ == spec_upstream_error_msg(body)),
{
    match unwrap_envelope(status, body) {
        Ok(_) => Ok(rule_id.to_owned()),
        Err(e) => Err(e),
    }
}

} // verus!
