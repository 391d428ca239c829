//! Decoders from the upstream JSON payloads into the typed records of
//! `types`. Each decoder's contract says exactly which payloads it accepts
//! and how every field of the result relates to the payload.

use vstd::prelude::*;
use vstd::string::*;
use crate::json::JsonValue;
use crate::types::{
    default_false, default_ttl, CertificateDetail, CloudflareAccount, CustomCertificate,
    DnsRecord, FirewallFilter,
    FirewallRule, MatchRequest, PageRule, PageRuleAction, PageRuleConstraint, PageRuleTarget,
    RateLimit, RateLimitAction, RateLimitResponse, SslCertificate, WafPackage, WafRule,
    WafRuleGroup, Worker, WorkerRoute, Zone, ZoneSetting,
};

verus! {

pub open spec fn opt_str_view(o: Option<String>) -> Option<Seq<char>> {
    match o {
        Some(s) => Some(s@),
        None => None,
    }
}

/// An optional string field: absent, null, or a string.
pub open spec fn opt_str_ok(j: JsonValue, k: Seq<char>) -> bool {
    match j.spec_get(k) {
        None => true,
        Some(v) => v is Null || v is Str,
    }
}

/// An optional boolean field: absent or a boolean.
pub open spec fn opt_bool_ok(j: JsonValue, k: Seq<char>) -> bool {
    match j.spec_get(k) {
        None => true,
        Some(v) => v is Bool,
    }
}

/// An optional unsigned field: absent, null, or an integer in `0 ..= max`.
pub open spec fn opt_uint_ok(j: JsonValue, k: Seq<char>, max: u64) -> bool {
    match j.spec_get(k) {
        None => true,
        Some(v) => v is Null || (match v.spec_u64() {
            Some(n) => n <= max,
            None => false,
        }),
    }
}

/// A required unsigned field: present and an integer in `0 ..= max`.
pub open spec fn req_uint_ok(j: JsonValue, k: Seq<char>, max: u64) -> bool {
    match j.field_u64(k) {
        Some(n) => n <= max,
        None => false,
    }
}

/// A required array-of-strings field.
pub open spec fn str_list_ok(j: JsonValue, k: Seq<char>) -> bool {
    match j.field_arr(k) {
        Some(a) => forall|i: int| 0 <= i < a.len() ==> a[i] is Str,
        None => false,
    }
}

pub open spec fn str_list_matches(v: Seq<String>, a: Seq<JsonValue>) -> bool {
    v.len() == a.len() && forall|i: int| 0 <= i < a.len() ==> Some(v[i]@) == a[i].spec_str()
}

/// An optional array-of-strings field: absent, null, or an array of strings.
pub open spec fn opt_str_list_ok(j: JsonValue, k: Seq<char>) -> bool {
    match j.spec_get(k) {
        None => true,
        Some(v) => v is Null || (match v.spec_arr() {
            Some(a) => forall|i: int| 0 <= i < a.len() ==> a[i] is Str,
            None => false,
        }),
    }
}

pub open spec fn opt_str_list_matches(o: Option<Vec<String>>, j: JsonValue, k: Seq<char>) -> bool {
    match o {
        Some(v) => match j.field_arr(k) {
            Some(a) => str_list_matches(v@, a),
            None => false,
        },
        None => j.field_arr(k) is None,
    }
}

pub fn get_req_string(j: &JsonValue, key: &str) -> (r: Result<String, ()>)
    ensures
        r is Ok <==> j.field_str(key@) is Some,
        r matches Ok(s) ==> j.field_str(key@) == Some(s@),
{
    match j.get_string(key) {
        Some(s) => Ok(s),
        None => Err(()),
    }
}

pub fn get_opt_string(j: &JsonValue, key: &str) -> (r: Result<Option<String>, ()>)
    ensures
        r is Ok <==> opt_str_ok(*j, key@),
        r matches Ok(o) ==> opt_str_view(o) == j.field_str(key@),
{
    match j.get(key) {
        None => Ok(None),
        Some(v) => match v {
            JsonValue::Null => Ok(None),
            JsonValue::Str(s) => Ok(Some(s.clone())),
            _ => Err(()),
        },
    }
}

pub fn get_req_bool(j: &JsonValue, key: &str) -> (r: Result<bool, ()>)
    ensures
        r is Ok <==> j.field_bool(key@) is Some,
        r matches Ok(b) ==> j.field_bool(key@) == Some(b),
{
    match j.get_bool(key) {
        Some(b) => Ok(b),
        None => Err(()),
    }
}

/// A boolean field that falls back to `default` when the key is absent.
pub fn get_bool_default(j: &JsonValue, key: &str, default: bool) -> (r: Result<bool, ()>)
    ensures
        r is Ok <==> opt_bool_ok(*j, key@),
        r matches Ok(b) ==> b == (match j.field_bool(key@) {
            Some(x) => x,
            None => default,
        }) && (j.spec_get(key@) is Some ==> j.field_bool(key@) is Some),
{
    match j.get(key) {
        None => Ok(default),
        Some(v) => match v.as_bool() {
            Some(b) => Ok(b),
            None => Err(()),
        },
    }
}

pub fn get_req_u64_max(j: &JsonValue, key: &str, max: u64) -> (r: Result<u64, ()>)
    ensures
        r is Ok <==> req_uint_ok(*j, key@, max),
        r matches Ok(n) ==> j.field_u64(key@) == Some(n) && n <= max,
{
    match j.get_u64(key) {
        Some(n) => if n <= max {
            Ok(n)
        } else {
            Err(())
        },
        None => Err(()),
    }
}

pub fn get_opt_u64_max(j: &JsonValue, key: &str, max: u64) -> (r: Result<Option<u64>, ()>)
    ensures
        r is Ok <==> opt_uint_ok(*j, key@, max),
        r matches Ok(o) ==> o == j.field_u64(key@) && (o matches Some(n) ==> n <= max),
{
    match j.get(key) {
        None => Ok(None),
        Some(v) => match v {
            JsonValue::Null => Ok(None),
            _ => match v.as_u64() {
                Some(n) => if n <= max {
                    Ok(Some(n))
                } else {
                    Err(())
                },
                None => Err(()),
            },
        },
    }
}

/// An unsigned field with an upper bound that falls back to `default` when
/// the key is absent.
pub fn get_u64_default_max(j: &JsonValue, key: &str, default: u64, max: u64) -> (r: Result<
    u64,
    (),
>)
    ensures
        r is Ok <==> (match j.spec_get(key@) {
            None => true,
            Some(v) => match v.spec_u64() {
                Some(n) => n <= max,
                None => false,
            },
        }),
        r matches Ok(n) ==> n == (match j.field_u64(key@) {
            Some(x) => x,
            None => default,
        }) && n <= max || (j.spec_get(key@) is None && n == default),
{
    match j.get(key) {
        None => Ok(default),
        Some(v) => match v.as_u64() {
            Some(n) => if n <= max {
                Ok(n)
            } else {
                Err(())
            },
            None => Err(()),
        },
    }
}

pub fn get_string_list(j: &JsonValue, key: &str) -> (r: Result<Vec<String>, ()>)
    ensures
        r is Ok <==> str_list_ok(*j, key@),
        r matches Ok(v) ==> (match j.field_arr(key@) {
            Some(a) => str_list_matches(v@, a),
            None => false,
        }),
{
    let arr = match j.get_arr(key) {
        Some(a) => a,
        None => return Err(()),
    };
    let n = arr.len();
    let mut out: Vec<String> = Vec::new();
    let mut i: usize = 0;
    while i < n
        invariant
            n == arr@.len(),
            j.field_arr(key@) == Some(arr@),
            i <= n,
            out@.len() == i,
            forall|k2: int| 0 <= k2 < i ==> arr@[k2] is Str && Some(out@[k2]@) == arr@[k2].spec_str(),
        decreases n - i,
    {
        match arr[i].as_str() {
            Some(s) => out.push(s.to_owned()),
            None => return Err(()),
        }
        i += 1;
    }
    Ok(out)
}

pub fn get_opt_string_list(j: &JsonValue, key: &str) -> (r: Result<Option<Vec<String>>, ()>)
    ensures
        r is Ok <==> opt_str_list_ok(*j, key@),
        r matches Ok(o) ==> opt_str_list_matches(o, *j, key@),
{
    match j.get(key) {
        None => Ok(None),
        Some(v) => match v {
            JsonValue::Null => Ok(None),
            _ => match get_string_list(j, key) {
                Ok(l) => Ok(Some(l)),
                Err(()) => Err(()),
            },
        },
    }
}

// ---------------------------------------------------------------------------
// Zones
// ---------------------------------------------------------------------------

pub open spec fn zone_ok(j: JsonValue) -> bool {
    &&& j.field_str("id"@) is Some
    &&& j.field_str("name"@) is Some
    &&& j.field_str("status"@) is Some
    &&& str_list_ok(j, "name_servers"@)
}

pub open spec fn zone_matches(j: JsonValue, z: Zone) -> bool {
    &&& Some(z.id@) == j.field_str("id"@)
    &&& Some(z.name@) == j.field_str("name"@)
    &&& Some(z.status@) == j.field_str("status"@)
    &&& match j.field_arr("name_servers"@) {
        Some(a) => str_list_matches(z.name_servers@, a),
        None => false,
    }
}

pub fn decode_zone(j: &JsonValue) -> (r: Result<Zone, ()>)
    ensures
        r is Ok <==> zone_ok(*j),
        r matches Ok(z) ==> zone_matches(*j, z),
{
    let id = get_req_string(j, "id")?;
    let name = get_req_string(j, "name")?;
    let status = get_req_string(j, "status")?;
    let name_servers = get_string_list(j, "name_servers")?;
    Ok(Zone { id, name, status, name_servers })
}

pub open spec fn zone_list_ok(items: Seq<JsonValue>) -> bool {
    forall|i: int| 0 <= i < items.len() ==> zone_ok(items[i])
}

pub open spec fn zone_list_matches(items: Seq<JsonValue>, v: Seq<Zone>) -> bool {
    v.len() == items.len() && (forall|i: int| 0 <= i < items.len() ==> zone_matches(items[i], v[i]))
}

pub fn decode_zone_list(items: &Vec<JsonValue>) -> (r: Result<Vec<Zone>, ()>)
    ensures
        r is Ok <==> zone_list_ok(items@),
        r matches Ok(v) ==> zone_list_matches(items@, v@),
{
    let n = items.len();
    let mut out: Vec<Zone> = Vec::new();
    let mut i: usize = 0;
    while i < n
        invariant
            n == items@.len(),
            i <= n,
            out@.len() == i,
            forall|k: int| 0 <= k < i ==> zone_ok(items@[k]) && zone_matches(items@[k], out@[k]),
        decreases n - i,
    {
        match decode_zone(&items[i]) {
            Ok(z) => out.push(z),
            Err(()) => return Err(()),
        }
        i += 1;
    }
    Ok(out)
}

// ---------------------------------------------------------------------------
// Accounts
// ---------------------------------------------------------------------------

pub open spec fn account_ok(j: JsonValue) -> bool {
    &&& j.field_str("id"@) is Some
    &&& j.field_str("name"@) is Some
}

pub open spec fn account_matches(j: JsonValue, a: CloudflareAccount) -> bool {
    &&& Some(a.id@) == j.field_str("id"@)
    &&& Some(a.name@) == j.field_str("name"@)
    &&& match a.settings {
        Some(v) => j.spec_get("settings"@) == Some(v) && !(v is Null),
        None => match j.spec_get("settings"@) {
            None => true,
            Some(x) => x is Null,
        },
    }
}

pub fn decode_account(j: JsonValue) -> (r: Result<CloudflareAccount, ()>)
    ensures
        r is Ok <==> account_ok(j),
        r matches Ok(a) ==> account_matches(j, a),
{
    let id = get_req_string(&j, "id")?;
    let name = get_req_string(&j, "name")?;
    let settings = match j.take("settings") {
        Some(v) => match v {
            JsonValue::Null => None,
            other => Some(other),
        },
        None => None,
    };
    Ok(CloudflareAccount { id, name, settings })
}

pub open spec fn account_list_ok(items: Seq<JsonValue>) -> bool {
    forall|i: int| 0 <= i < items.len() ==> account_ok(items[i])
}

pub open spec fn account_list_matches(items: Seq<JsonValue>, v: Seq<CloudflareAccount>) -> bool {
    v.len() == items.len() && (forall|i: int| 0 <= i < items.len() ==> account_matches(items[i], v[i]))
}

pub fn decode_account_list(items: Vec<JsonValue>) -> (r: Result<Vec<CloudflareAccount>, ()>)
    ensures
        r is Ok <==> account_list_ok(items@),
        r matches Ok(v) ==> account_list_matches(items@, v@),
{
    let ghost orig = items@;
    let mut rest = items;
    let mut out: Vec<CloudflareAccount> = Vec::new();
    while rest.len() > 0
        invariant
            orig == items@,
            rest@.len() <= orig.len(),
            rest@ == orig.take(rest@.len() as int),
            out@.len() + rest@.len() == orig.len(),
            forall|i: int|
                rest@.len() <= i < orig.len() ==> account_ok(orig[i]) && account_matches(
                    orig[i],
                    out@[i - rest@.len()],
                ),
        decreases rest@.len(),
    {
        let ghost m = rest@.len() as int;
        let v = rest.pop().unwrap();
        proof {
            assert(v == orig.take(m)[m - 1]);
            assert(orig.take(m)[m - 1] == orig[m - 1]);
            assert(rest@ =~= orig.take(m - 1));
        }
        match decode_account(v) {
            Ok(a) => out.insert(0, a),
            Err(()) => {
                proof {
                    assert(0 <= m - 1 < orig.len() && !account_ok(orig[m - 1]));
                }
                return Err(());
            },
        }
    }
    Ok(out)
}

// ---------------------------------------------------------------------------
// DNS records
// ---------------------------------------------------------------------------

pub open spec fn dns_record_ok(j: JsonValue) -> bool {
    &&& opt_str_ok(j, "id"@)
    &&& opt_str_ok(j, "zone_id"@)
    &&& j.field_str("type"@) is Some
    &&& j.field_str("name"@) is Some
    &&& j.field_str("content"@) is Some
    &&& (match j.spec_get("ttl"@) {
        None => true,
        Some(v) => match v.spec_u64() {
            Some(n) => n <= 0xffff_ffff,
            None => false,
        },
    })
    &&& opt_bool_ok(j, "proxied"@)
    &&& opt_uint_ok(j, "priority"@, 0xffff)
}

pub open spec fn dns_record_matches(j: JsonValue, d: DnsRecord) -> bool {
    &&& opt_str_view(d.id) == j.field_str("id"@)
    &&& opt_str_view(d.zone_id) == j.field_str("zone_id"@)
    &&& Some(d.record_type@) == j.field_str("type"@)
    &&& Some(d.name@) == j.field_str("name"@)
    &&& Some(d.content@) == j.field_str("content"@)
    &&& d.ttl as u64 == (match j.field_u64("ttl"@) {
        Some(n) => n,
        None => 1u64,
    })
    &&& d.proxied == (match j.field_bool("proxied"@) {
        Some(b) => b,
        None => false,
    })
    &&& (match d.priority {
        Some(p) => j.field_u64("priority"@) == Some(p as u64),
        None => j.field_u64("priority"@) is None,
    })
}

pub fn decode_dns_record(j: &JsonValue) -> (r: Result<DnsRecord, ()>)
    ensures
        r is Ok <==> dns_record_ok(*j),
        r matches Ok(d) ==> dns_record_matches(*j, d),
{
    let id = get_opt_string(j, "id")?;
    let zone_id = get_opt_string(j, "zone_id")?;
    let record_type = get_req_string(j, "type")?;
    let name = get_req_string(j, "name")?;
    let content = get_req_string(j, "content")?;
    let ttl64 = get_u64_default_max(j, "ttl", default_ttl() as u64, 0xffff_ffff)?;
    let ttl: u32 = ttl64 as u32;
    let proxied = get_bool_default(j, "proxied", default_false())?;
    let priority64 = get_opt_u64_max(j, "priority", 0xffff)?;
    let priority: Option<u16> = match priority64 {
        Some(p) => Some(p as u16),
        None => None,
    };
    Ok(DnsRecord { id, zone_id, record_type, name, content, ttl, proxied, priority })
}

pub open spec fn dns_record_list_ok(items: Seq<JsonValue>) -> bool {
    forall|i: int| 0 <= i < items.len() ==> dns_record_ok(items[i])
}

pub open spec fn dns_record_list_matches(items: Seq<JsonValue>, v: Seq<DnsRecord>) -> bool {
    v.len() == items.len() && (forall|i: int| 0 <= i < items.len() ==> dns_record_matches(items[i], v[i]))
}

/// The field relation pins a record: any two records read from the same
/// document carry the same field values. Together with the renderer's
/// contract this gives the round trip: a record sent upstream and read back
/// from an echoing reply keeps every field.
pub proof fn lemma_dns_record_matches_functional(j: JsonValue, d1: DnsRecord, d2: DnsRecord)
    requires
        dns_record_matches(j, d1),
        dns_record_matches(j, d2),
    ensures
        opt_str_view(d1.id) == opt_str_view(d2.id),
        opt_str_view(d1.zone_id) == opt_str_view(d2.zone_id),
        d1.record_type@ == d2.record_type@,
        d1.name@ == d2.name@,
        d1.content@ == d2.content@,
        d1.ttl == d2.ttl,
        d1.proxied == d2.proxied,
        d1.priority == d2.priority,
{
}

pub fn decode_dns_record_list(items: &Vec<JsonValue>) -> (r: Result<Vec<DnsRecord>, ()>)
    ensures
        r is Ok <==> dns_record_list_ok(items@),
        r matches Ok(v) ==> dns_record_list_matches(items@, v@),
{
    let n = items.len();
    let mut out: Vec<DnsRecord> = Vec::new();
    let mut i: usize = 0;
    while i < n
        invariant
            n == items@.len(),
            i <= n,
            out@.len() == i,
            forall|k: int|
                0 <= k < i ==> dns_record_ok(items@[k]) && dns_record_matches(
                    items@[k],
                    out@[k],
                ),
        decreases n - i,
    {
        match decode_dns_record(&items[i]) {
            Ok(d) => out.push(d),
            Err(()) => return Err(()),
        }
        i += 1;
    }
    Ok(out)
}

// ---------------------------------------------------------------------------
// Firewall rules
// ---------------------------------------------------------------------------

pub open spec fn firewall_filter_ok(j: JsonValue) -> bool {
    &&& opt_str_ok(j, "id"@)
    &&& j.field_str("expression"@) is Some
    &&& opt_str_ok(j, "description"@)
}

pub open spec fn firewall_filter_matches(j: JsonValue, f: FirewallFilter) -> bool {
    &&& opt_str_view(f.id) == j.field_str("id"@)
    &&& Some(f.expression@) == j.field_str("expression"@)
    &&& opt_str_view(f.description) == j.field_str("description"@)
}

pub open spec fn firewall_rule_ok(j: JsonValue) -> bool {
    &&& opt_str_ok(j, "id"@)
    &&& (match j.spec_get("filter"@) {
        Some(f) => firewall_filter_ok(f),
        None => false,
    })
    &&& j.field_str("action"@) is Some
    &&& opt_str_ok(j, "description"@)
    &&& opt_bool_ok(j, "paused"@)
}

pub open spec fn firewall_rule_matches(j: JsonValue, r: FirewallRule) -> bool {
    &&& opt_str_view(r.id) == j.field_str("id"@)
    &&& (match j.spec_get("filter"@) {
        Some(f) => firewall_filter_matches(f, r.filter),
        None => false,
    })
    &&& Some(r.action@) == j.field_str("action"@)
    &&& opt_str_view(r.description) == j.field_str("description"@)
    &&& r.paused == (match j.field_bool("paused"@) {
        Some(b) => b,
        None => false,
    })
}

pub fn decode_firewall_filter(j: &JsonValue) -> (r: Result<FirewallFilter, ()>)
    ensures
        r is Ok <==> firewall_filter_ok(*j),
        r matches Ok(f) ==> firewall_filter_matches(*j, f),
{
    let id = get_opt_string(j, "id")?;
    let expression = get_req_string(j, "expression")?;
    let description = get_opt_string(j, "description")?;
    Ok(FirewallFilter { id, expression, description })
}

pub fn decode_firewall_rule(j: &JsonValue) -> (r: Result<FirewallRule, ()>)
    ensures
        r is Ok <==> firewall_rule_ok(*j),
        r matches Ok(fr) ==> firewall_rule_matches(*j, fr),
{
    let id = get_opt_string(j, "id")?;
    let filter = match j.get("filter") {
        Some(f) => decode_firewall_filter(f)?,
        None => return Err(()),
    };
    let action = get_req_string(j, "action")?;
    let description = get_opt_string(j, "description")?;
    let paused = get_bool_default(j, "paused", false)?;
    Ok(FirewallRule { id, filter, action, description, paused })
}

pub open spec fn firewall_rule_list_ok(items: Seq<JsonValue>) -> bool {
    forall|i: int| 0 <= i < items.len() ==> firewall_rule_ok(items[i])
}

pub open spec fn firewall_rule_list_matches(items: Seq<JsonValue>, v: Seq<FirewallRule>) -> bool {
    v.len() == items.len() && (forall|i: int| 0 <= i < items.len() ==> firewall_rule_matches(items[i], v[i]))
}

pub fn decode_firewall_rule_list(items: &Vec<JsonValue>) -> (r: Result<Vec<FirewallRule>, ()>)
    ensures
        r is Ok <==> firewall_rule_list_ok(items@),
        r matches Ok(v) ==> firewall_rule_list_matches(items@, v@),
{
    let n = items.len();
    let mut out: Vec<FirewallRule> = Vec::new();
    let mut i: usize = 0;
    while i < n
        invariant
            n == items@.len(),
            i <= n,
            out@.len() == i,
            forall|k: int|
                0 <= k < i ==> firewall_rule_ok(items@[k]) && firewall_rule_matches(
                    items@[k],
                    out@[k],
                ),
        decreases n - i,
    {
        match decode_firewall_rule(&items[i]) {
            Ok(fr) => out.push(fr),
            Err(()) => return Err(()),
        }
        i += 1;
    }
    Ok(out)
}

// ---------------------------------------------------------------------------
// Workers and routes (lenient: a list element that does not fit the strict
// shape is rebuilt best-effort from the fields that can be found)
// ---------------------------------------------------------------------------

pub open spec fn worker_ok(j: JsonValue) -> bool {
    &&& j.field_str("id"@) is Some
    &&& opt_str_ok(j, "etag"@)
    &&& opt_str_ok(j, "created_on"@)
    &&& opt_str_ok(j, "modified_on"@)
}

pub open spec fn worker_strict_matches(j: JsonValue, w: Worker) -> bool {
    &&& Some(w.id@) == j.field_str("id"@)
    &&& opt_str_view(w.etag) == j.field_str("etag"@)
    &&& opt_str_view(w.created_on) == j.field_str("created_on"@)
    &&& opt_str_view(w.modified_on) == j.field_str("modified_on"@)
}

pub open spec fn worker_fallback_matches(j: JsonValue, w: Worker) -> bool {
    &&& w.id@ == (match j.field_str("id"@) {
        Some(s) => s,
        None => Seq::<char>::empty(),
    })
    &&& opt_str_view(w.etag) == j.field_str("etag"@)
    &&& opt_str_view(w.created_on) == j.field_str("created_on"@)
    &&& opt_str_view(w.modified_on) == j.field_str("modified_on"@)
}

pub open spec fn worker_lenient_matches(j: JsonValue, w: Worker) -> bool {
    if worker_ok(j) {
        worker_strict_matches(j, w)
    } else {
        worker_fallback_matches(j, w)
    }
}

pub fn decode_worker_lenient(j: &JsonValue) -> (w: Worker)
    ensures
        worker_lenient_matches(*j, w),
{
    let id = match j.get_string("id") {
        Some(s) => s,
        None => String::new(),
    };
    let etag = j.get_string("etag");
    let created_on = j.get_string("created_on");
    let modified_on = j.get_string("modified_on");
    Worker { id, etag, created_on, modified_on }
}

pub open spec fn worker_list_matches(items: Seq<JsonValue>, v: Seq<Worker>) -> bool {
    v.len() == items.len() && (forall|i: int|
        0 <= i < items.len() ==> worker_lenient_matches(items[i], v[i]))
}

pub fn decode_worker_list(items: &Vec<JsonValue>) -> (v: Vec<Worker>)
    ensures
        worker_list_matches(items@, v@),
{
    let n = items.len();
    let mut out: Vec<Worker> = Vec::new();
    let mut i: usize = 0;
    while i < n
        invariant
            n == items@.len(),
            i <= n,
            out@.len() == i,
            forall|k: int| 0 <= k < i ==> worker_lenient_matches(items@[k], out@[k]),
        decreases n - i,
    {
        let w = decode_worker_lenient(&items[i]);
        out.push(w);
        i += 1;
    }
    out
}

pub open spec fn route_lenient_matches(j: JsonValue, w: WorkerRoute) -> bool {
    &&& w.id@ == (match j.field_str("id"@) {
        Some(s) => s,
        None => Seq::<char>::empty(),
    })
    &&& w.pattern@ == (match j.field_str("pattern"@) {
        Some(s) => s,
        None => Seq::<char>::empty(),
    })
    &&& opt_str_view(w.script) == j.field_str("script"@)
}

pub fn decode_route_lenient(j: &JsonValue) -> (w: WorkerRoute)
    ensures
        route_lenient_matches(*j, w),
{
    let id = match j.get_string("id") {
        Some(s) => s,
        None => String::new(),
    };
    let pattern = match j.get_string("pattern") {
        Some(s) => s,
        None => String::new(),
    };
    let script = j.get_string("script");
    WorkerRoute { id, pattern, script }
}

pub open spec fn route_list_matches(items: Seq<JsonValue>, v: Seq<WorkerRoute>) -> bool {
    v.len() == items.len() && (forall|i: int|
        0 <= i < items.len() ==> route_lenient_matches(items[i], v[i]))
}

pub fn decode_route_list(items: &Vec<JsonValue>) -> (v: Vec<WorkerRoute>)
    ensures
        route_list_matches(items@, v@),
{
    let n = items.len();
    let mut out: Vec<WorkerRoute> = Vec::new();
    let mut i: usize = 0;
    while i < n
        invariant
            n == items@.len(),
            i <= n,
            out@.len() == i,
            forall|k: int| 0 <= k < i ==> route_lenient_matches(items@[k], out@[k]),
        decreases n - i,
    {
        let w = decode_route_lenient(&items[i]);
        out.push(w);
        i += 1;
    }
    out
}

/// The strict shape of a single created route.
pub open spec fn route_ok(j: JsonValue) -> bool {
    &&& j.field_str("id"@) is Some
    &&& j.field_str("pattern"@) is Some
    &&& opt_str_ok(j, "script"@)
}

pub open spec fn route_matches(j: JsonValue, w: WorkerRoute) -> bool {
    &&& Some(w.id@) == j.field_str("id"@)
    &&& Some(w.pattern@) == j.field_str("pattern"@)
    &&& opt_str_view(w.script) == j.field_str("script"@)
}

pub fn decode_route(j: &JsonValue) -> (r: Result<WorkerRoute, ()>)
    ensures
        r is Ok <==> route_ok(*j),
        r matches Ok(w) ==> route_matches(*j, w),
{
    let id = get_req_string(j, "id")?;
    let pattern = get_req_string(j, "pattern")?;
    let script = get_opt_string(j, "script")?;
    Ok(WorkerRoute { id, pattern, script })
}

// ---------------------------------------------------------------------------
// Zone settings
// ---------------------------------------------------------------------------

pub open spec fn zone_setting_ok(j: JsonValue) -> bool {
    &&& j.field_str("id"@) is Some
    &&& j.spec_get("value"@) is Some
    &&& opt_str_ok(j, "modified_on"@)
}

pub open spec fn zone_setting_matches(j: JsonValue, s: ZoneSetting) -> bool {
    &&& Some(s.id@) == j.field_str("id"@)
    &&& j.spec_get("value"@) == Some(s.value)
    &&& opt_str_view(s.modified_on) == j.field_str("modified_on"@)
}

pub fn decode_zone_setting(j: JsonValue) -> (r: Result<ZoneSetting, ()>)
    ensures
        r is Ok <==> zone_setting_ok(j),
        r matches Ok(s) ==> zone_setting_matches(j, s),
{
    let id = get_req_string(&j, "id")?;
    let modified_on = get_opt_string(&j, "modified_on")?;
    let value = match j.take("value") {
        Some(v) => v,
        None => return Err(()),
    };
    Ok(ZoneSetting { id, value, modified_on })
}

pub open spec fn zone_setting_list_ok(items: Seq<JsonValue>) -> bool {
    forall|i: int| 0 <= i < items.len() ==> zone_setting_ok(items[i])
}

pub open spec fn zone_setting_list_matches(items: Seq<JsonValue>, v: Seq<ZoneSetting>) -> bool {
    v.len() == items.len() && (forall|i: int| 0 <= i < items.len() ==> zone_setting_matches(items[i], v[i]))
}

pub fn decode_zone_setting_list(items: Vec<JsonValue>) -> (r: Result<Vec<ZoneSetting>, ()>)
    ensures
        r is Ok <==> zone_setting_list_ok(items@),
        r matches Ok(v) ==> zone_setting_list_matches(items@, v@),
{
    let ghost orig = items@;
    let mut rest = items;
    let mut out: Vec<ZoneSetting> = Vec::new();
    while rest.len() > 0
        invariant
            orig == items@,
            rest@.len() <= orig.len(),
            rest@ == orig.take(rest@.len() as int),
            out@.len() + rest@.len() == orig.len(),
            forall|i: int|
                rest@.len() <= i < orig.len() ==> zone_setting_ok(orig[i]) && zone_setting_matches(
                    orig[i],
                    out@[i - rest@.len()],
                ),
        decreases rest@.len(),
    {
        let ghost m = rest@.len() as int;
        let v = rest.pop().unwrap();
        proof {
            assert(v == orig.take(m)[m - 1]);
            assert(orig.take(m)[m - 1] == orig[m - 1]);
            assert(rest@ =~= orig.take(m - 1));
        }
        match decode_zone_setting(v) {
            Ok(s) => out.insert(0, s),
            Err(()) => {
                proof {
                    assert(0 <= m - 1 < orig.len() && !zone_setting_ok(orig[m - 1]));
                }
                return Err(());
            },
        }
    }
    Ok(out)
}

// ---------------------------------------------------------------------------
// TLS certificates
// ---------------------------------------------------------------------------

pub open spec fn cert_detail_ok(j: JsonValue) -> bool {
    &&& j.field_str("id"@) is Some
    &&& j.field_str("status"@) is Some
    &&& j.field_str("issuer"@) is Some
    &&& j.field_str("signature"@) is Some
    &&& j.field_str("serial_number"@) is Some
    &&& j.field_str("expires_on"@) is Some
    &&& j.field_str("uploaded_on"@) is Some
}

pub open spec fn cert_detail_matches(j: JsonValue, d: CertificateDetail) -> bool {
    &&& Some(d.id@) == j.field_str("id"@)
    &&& Some(d.status@) == j.field_str("status"@)
    &&& Some(d.issuer@) == j.field_str("issuer"@)
    &&& Some(d.signature@) == j.field_str("signature"@)
    &&& Some(d.serial_number@) == j.field_str("serial_number"@)
    &&& Some(d.expires_on@) == j.field_str("expires_on"@)
    &&& Some(d.uploaded_on@) == j.field_str("uploaded_on"@)
}

pub fn decode_cert_detail(j: &JsonValue) -> (r: Result<CertificateDetail, ()>)
    ensures
        r is Ok <==> cert_detail_ok(*j),
        r matches Ok(d) ==> cert_detail_matches(*j, d),
{
    let id = get_req_string(j, "id")?;
    let status = get_req_string(j, "status")?;
    let issuer = get_req_string(j, "issuer")?;
    let signature = get_req_string(j, "signature")?;
    let serial_number = get_req_string(j, "serial_number")?;
    let expires_on = get_req_string(j, "expires_on")?;
    let uploaded_on = get_req_string(j, "uploaded_on")?;
    Ok(CertificateDetail { id, status, issuer, signature, serial_number, expires_on, uploaded_on })
}

pub open spec fn cert_details_all_ok(a: Seq<JsonValue>) -> bool {
    forall|i: int| 0 <= i < a.len() ==> cert_detail_ok(a[i])
}

pub open spec fn ssl_cert_ok(j: JsonValue) -> bool {
    &&& j.field_str("id"@) is Some
    &&& j.field_str("type"@) is Some
    &&& j.field_str("status"@) is Some
    &&& opt_str_ok(j, "primary_certificate"@)
    &&& (match j.spec_get("certificates"@) {
        None => true,
        Some(v) => v is Null || (match v.spec_arr() {
            Some(a) => cert_details_all_ok(a),
            None => false,
        }),
    })
    &&& opt_str_list_ok(j, "hosts"@)
}

pub open spec fn ssl_cert_matches(j: JsonValue, c: SslCertificate) -> bool {
    &&& Some(c.id@) == j.field_str("id"@)
    &&& Some(c.cert_type@) == j.field_str("type"@)
    &&& Some(c.status@) == j.field_str("status"@)
    &&& opt_str_view(c.primary_certificate) == j.field_str("primary_certificate"@)
    &&& (match c.certificates {
        Some(v) => match j.field_arr("certificates"@) {
            Some(a) => v@.len() == a.len() && (forall|i: int|
                0 <= i < a.len() ==> cert_detail_matches(a[i], v@[i])),
            None => false,
        },
        None => j.field_arr("certificates"@) is None,
    })
    &&& opt_str_list_matches(c.hosts, j, "hosts"@)
}

pub fn decode_ssl_certificate(j: &JsonValue) -> (r: Result<SslCertificate, ()>)
    ensures
        r is Ok <==> ssl_cert_ok(*j),
        r matches Ok(c) ==> ssl_cert_matches(*j, c),
{
    let id = get_req_string(j, "id")?;
    let cert_type = get_req_string(j, "type")?;
    let status = get_req_string(j, "status")?;
    let primary_certificate = get_opt_string(j, "primary_certificate")?;
    let certificates: Option<Vec<CertificateDetail>> = match j.get("certificates") {
        None => None,
        Some(v) => match v {
            JsonValue::Null => None,
            other => match other.as_arr() {
                Some(arr) => {
                    let n = arr.len();
                    let mut out: Vec<CertificateDetail> = Vec::new();
                    let mut i: usize = 0;
                    while i < n
                        invariant
                            j.spec_get("certificates"@) == Some(*other),
                            !(*other is Null),
                            other.spec_arr() == Some(arr@),
                            n == arr@.len(),
                            i <= n,
                            out@.len() == i,
                            forall|k: int|
                                0 <= k < i ==> cert_detail_ok(arr@[k]) && cert_detail_matches(
                                    arr@[k],
                                    out@[k],
                                ),
                        decreases n - i,
                    {
                        match decode_cert_detail(&arr[i]) {
                            Ok(d) => out.push(d),
                            Err(()) => {
                                proof {
                                    assert(0 <= i < arr@.len() && !cert_detail_ok(
                                        arr@[i as int],
                                    ));
                                    assert(!cert_details_all_ok(arr@));
                                    assert(!ssl_cert_ok(*j));
                                }
                                return Err(());
                            },
                        }
                        i += 1;
                    }
                    Some(out)
                },
                None => return Err(()),
            },
        },
    };
    let hosts = get_opt_string_list(j, "hosts")?;
    Ok(SslCertificate { id, cert_type, status, primary_certificate, certificates, hosts })
}

pub open spec fn ssl_cert_list_ok(items: Seq<JsonValue>) -> bool {
    forall|i: int| 0 <= i < items.len() ==> ssl_cert_ok(items[i])
}

pub open spec fn ssl_cert_list_matches(items: Seq<JsonValue>, v: Seq<SslCertificate>) -> bool {
    v.len() == items.len() && (forall|i: int| 0 <= i < items.len() ==> ssl_cert_matches(items[i], v[i]))
}

pub fn decode_ssl_certificate_list(items: &Vec<JsonValue>) -> (r: Result<Vec<SslCertificate>, ()>)
    ensures
        r is Ok <==> ssl_cert_list_ok(items@),
        r matches Ok(v) ==> ssl_cert_list_matches(items@, v@),
{
    let n = items.len();
    let mut out: Vec<SslCertificate> = Vec::new();
    let mut i: usize = 0;
    while i < n
        invariant
            n == items@.len(),
            i <= n,
            out@.len() == i,
            forall|k: int|
                0 <= k < i ==> ssl_cert_ok(items@[k]) && ssl_cert_matches(items@[k], out@[k]),
        decreases n - i,
    {
        match decode_ssl_certificate(&items[i]) {
            Ok(c) => out.push(c),
            Err(()) => return Err(()),
        }
        i += 1;
    }
    Ok(out)
}

pub open spec fn custom_cert_ok(j: JsonValue) -> bool {
    &&& j.field_str("id"@) is Some
    &&& j.field_str("status"@) is Some
    &&& j.field_str("issuer"@) is Some
    &&& j.field_str("signature"@) is Some
    &&& j.field_str("expires_on"@) is Some
    &&& j.field_str("uploaded_on"@) is Some
    &&& j.field_str("modified_on"@) is Some
    &&& str_list_ok(j, "hosts"@)
    &&& opt_str_ok(j, "bundle_method"@)
}

pub open spec fn custom_cert_matches(j: JsonValue, c: CustomCertificate) -> bool {
    &&& Some(c.id@) == j.field_str("id"@)
    &&& Some(c.status@) == j.field_str("status"@)
    &&& Some(c.issuer@) == j.field_str("issuer"@)
    &&& Some(c.signature@) == j.field_str("signature"@)
    &&& Some(c.expires_on@) == j.field_str("expires_on"@)
    &&& Some(c.uploaded_on@) == j.field_str("uploaded_on"@)
    &&& Some(c.modified_on@) == j.field_str("modified_on"@)
    &&& (match j.field_arr("hosts"@) {
        Some(a) => str_list_matches(c.hosts@, a),
        None => false,
    })
    &&& opt_str_view(c.bundle_method) == j.field_str("bundle_method"@)
}

pub fn decode_custom_certificate(j: &JsonValue) -> (r: Result<CustomCertificate, ()>)
    ensures
        r is Ok <==> custom_cert_ok(*j),
        r matches Ok(c) ==> custom_cert_matches(*j, c),
{
    let id = get_req_string(j, "id")?;
    let status = get_req_string(j, "status")?;
    let issuer = get_req_string(j, "issuer")?;
    let signature = get_req_string(j, "signature")?;
    let expires_on = get_req_string(j, "expires_on")?;
    let uploaded_on = get_req_string(j, "uploaded_on")?;
    let modified_on = get_req_string(j, "modified_on")?;
    let hosts = get_string_list(j, "hosts")?;
    let bundle_method = get_opt_string(j, "bundle_method")?;
    Ok(CustomCertificate {
        id,
        status,
        issuer,
        signature,
        expires_on,
        uploaded_on,
        modified_on,
        hosts,
        bundle_method,
    })
}

/// The elements of `items` that fit the custom-certificate shape, in order;
/// the others are skipped.
pub open spec fn custom_certs_filtered(items: Seq<JsonValue>, out: Seq<CustomCertificate>) -> bool
    decreases items.len(),
{
    if items.len() == 0 {
        out.len() == 0
    } else if custom_cert_ok(items[0]) {
        out.len() > 0 && custom_cert_matches(items[0], out[0]) && custom_certs_filtered(
            items.skip(1),
            out.skip(1),
        )
    } else {
        custom_certs_filtered(items.skip(1), out)
    }
}

pub fn decode_custom_certificate_list(items: &Vec<JsonValue>) -> (v: Vec<CustomCertificate>)
    ensures
        custom_certs_filtered(items@, v@),
{
    let n = items.len();
    let mut out: Vec<CustomCertificate> = Vec::new();
    let mut i: usize = n;
    while i > 0
        invariant
            n == items@.len(),
            i <= n,
            custom_certs_filtered(items@.skip(i as int), out@),
        decreases i,
    {
        i -= 1;
        let ghost prev = out@;
        match decode_custom_certificate(&items[i]) {
            Ok(c) => {
                out.insert(0, c);
                proof {
                    assert(out@.skip(1) =~= prev);
                }
            },
            Err(()) => (),
        }
        proof {
            assert(items@.skip(i as int).skip(1) =~= items@.skip(i as int + 1));
            assert(items@.skip(i as int)[0] == items@[i as int]);
        }
    }
    proof {
        assert(items@.skip(0) =~= items@);
    }
    out
}

// ---------------------------------------------------------------------------
// Page rules
// ---------------------------------------------------------------------------

pub open spec fn page_target_ok(j: JsonValue) -> bool {
    &&& j.field_str("target"@) is Some
    &&& (match j.spec_get("constraint"@) {
        Some(c) => c.field_str("operator"@) is Some && c.field_str("value"@) is Some,
        None => false,
    })
}

pub open spec fn page_target_matches(j: JsonValue, t: PageRuleTarget) -> bool {
    &&& Some(t.target@) == j.field_str("target"@)
    &&& (match j.spec_get("constraint"@) {
        Some(c) => Some(t.constraint.operator@) == c.field_str("operator"@) && Some(
            t.constraint.value@,
        ) == c.field_str("value"@),
        None => false,
    })
}

pub fn decode_page_target(j: &JsonValue) -> (r: Result<PageRuleTarget, ()>)
    ensures
        r is Ok <==> page_target_ok(*j),
        r matches Ok(t) ==> page_target_matches(*j, t),
{
    let target = get_req_string(j, "target")?;
    let c = match j.get("constraint") {
        Some(c) => c,
        None => return Err(()),
    };
    let operator = get_req_string(c, "operator")?;
    let value = get_req_string(c, "value")?;
    Ok(PageRuleTarget { target, constraint: PageRuleConstraint { operator, value } })
}

pub open spec fn page_action_ok(j: JsonValue) -> bool {
    &&& j.field_str("id"@) is Some
    &&& j.spec_get("value"@) is Some
}

pub open spec fn page_action_matches(j: JsonValue, a: PageRuleAction) -> bool {
    &&& Some(a.id@) == j.field_str("id"@)
    &&& j.spec_get("value"@) == Some(a.value)
}

pub fn decode_page_action(j: JsonValue) -> (r: Result<PageRuleAction, ()>)
    ensures
        r is Ok <==> page_action_ok(j),
        r matches Ok(a) ==> page_action_matches(j, a),
{
    let id = get_req_string(&j, "id")?;
    let value = match j.take("value") {
        Some(v) => v,
        None => return Err(()),
    };
    Ok(PageRuleAction { id, value })
}

pub open spec fn page_targets_all_ok(a: Seq<JsonValue>) -> bool {
    forall|i: int| 0 <= i < a.len() ==> page_target_ok(a[i])
}

pub open spec fn page_actions_all_ok(a: Seq<JsonValue>) -> bool {
    forall|i: int| 0 <= i < a.len() ==> page_action_ok(a[i])
}

pub open spec fn page_rule_ok(j: JsonValue) -> bool {
    &&& opt_str_ok(j, "id"@)
    &&& (match j.field_arr("targets"@) {
        Some(a) => page_targets_all_ok(a),
        None => false,
    })
    &&& (match j.field_arr("actions"@) {
        Some(a) => page_actions_all_ok(a),
        None => false,
    })
    &&& opt_uint_ok(j, "priority"@, 0xffff_ffff)
    &&& opt_str_ok(j, "status"@)
}

pub open spec fn page_rule_matches(j: JsonValue, p: PageRule) -> bool {
    &&& opt_str_view(p.id) == j.field_str("id"@)
    &&& (match j.field_arr("targets"@) {
        Some(a) => p.targets@.len() == a.len() && (forall|i: int|
            0 <= i < a.len() ==> page_target_matches(a[i], p.targets@[i])),
        None => false,
    })
    &&& (match j.field_arr("actions"@) {
        Some(a) => p.actions@.len() == a.len() && (forall|i: int|
            0 <= i < a.len() ==> page_action_matches(a[i], p.actions@[i])),
        None => false,
    })
    &&& (match p.priority {
        Some(x) => j.field_u64("priority"@) == Some(x as u64),
        None => j.field_u64("priority"@) is None,
    })
    &&& opt_str_view(p.status) == j.field_str("status"@)
}

pub fn decode_page_rule(j: JsonValue) -> (r: Result<PageRule, ()>)
    ensures
        r is Ok <==> page_rule_ok(j),
        r matches Ok(p) ==> page_rule_matches(j, p),
{
    let id = get_opt_string(&j, "id")?;
    let priority64 = get_opt_u64_max(&j, "priority", 0xffff_ffff)?;
    let priority: Option<u32> = match priority64 {
        Some(x) => Some(x as u32),
        None => None,
    };
    let status = get_opt_string(&j, "status")?;
    let targets: Vec<PageRuleTarget> = match j.get_arr("targets") {
        Some(arr) => {
            let n = arr.len();
            let mut out: Vec<PageRuleTarget> = Vec::new();
            let mut i: usize = 0;
            while i < n
                invariant
                    j.field_arr("targets"@) == Some(arr@),
                    n == arr@.len(),
                    i <= n,
                    out@.len() == i,
                    forall|k: int|
                        0 <= k < i ==> page_target_ok(arr@[k]) && page_target_matches(
                            arr@[k],
                            out@[k],
                        ),
                decreases n - i,
            {
                match decode_page_target(&arr[i]) {
                    Ok(t) => out.push(t),
                    Err(()) => {
                        proof {
                            assert(0 <= i < arr@.len() && !page_target_ok(arr@[i as int]));
                            assert(!page_targets_all_ok(arr@));
                            assert(!page_rule_ok(j));
                        }
                        return Err(());
                    },
                }
                i += 1;
            }
            out
        },
        None => return Err(()),
    };
    let actions_items = match j.take("actions") {
        Some(v) => match v.into_arr() {
            Some(items) => items,
            None => return Err(()),
        },
        None => return Err(()),
    };
    let ghost orig = actions_items@;
    let mut rest = actions_items;
    let mut actions: Vec<PageRuleAction> = Vec::new();
    while rest.len() > 0
        invariant
            j.field_arr("actions"@) == Some(orig),
            orig == actions_items@,
            rest@.len() <= orig.len(),
            rest@ == orig.take(rest@.len() as int),
            actions@.len() + rest@.len() == orig.len(),
            forall|i: int|
                rest@.len() <= i < orig.len() ==> page_action_ok(orig[i]) && page_action_matches(
                    orig[i],
                    actions@[i - rest@.len()],
                ),
        decreases rest@.len(),
    {
        let ghost m = rest@.len() as int;
        let v = rest.pop().unwrap();
        proof {
            assert(v == orig.take(m)[m - 1]);
            assert(orig.take(m)[m - 1] == orig[m - 1]);
            assert(rest@ =~= orig.take(m - 1));
        }
        match decode_page_action(v) {
            Ok(a) => actions.insert(0, a),
            Err(()) => {
                proof {
                    assert(0 <= m - 1 < orig.len() && !page_action_ok(orig[m - 1]));
                    assert(!page_actions_all_ok(orig));
                    assert(!page_rule_ok(j));
                }
                return Err(());
            },
        }
    }
    Ok(PageRule { id, targets, actions, priority, status })
}

pub open spec fn page_rule_list_ok(items: Seq<JsonValue>) -> bool {
    forall|i: int| 0 <= i < items.len() ==> page_rule_ok(items[i])
}

pub open spec fn page_rule_list_matches(items: Seq<JsonValue>, v: Seq<PageRule>) -> bool {
    v.len() == items.len() && (forall|i: int| 0 <= i < items.len() ==> page_rule_matches(items[i], v[i]))
}

pub fn decode_page_rule_list(items: Vec<JsonValue>) -> (r: Result<Vec<PageRule>, ()>)
    ensures
        r is Ok <==> page_rule_list_ok(items@),
        r matches Ok(v) ==> page_rule_list_matches(items@, v@),
{
    let ghost orig = items@;
    let mut rest = items;
    let mut out: Vec<PageRule> = Vec::new();
    while rest.len() > 0
        invariant
            orig == items@,
            rest@.len() <= orig.len(),
            rest@ == orig.take(rest@.len() as int),
            out@.len() + rest@.len() == orig.len(),
            forall|i: int|
                rest@.len() <= i < orig.len() ==> page_rule_ok(orig[i]) && page_rule_matches(
                    orig[i],
                    out@[i - rest@.len()],
                ),
        decreases rest@.len(),
    {
        let ghost m = rest@.len() as int;
        let v = rest.pop().unwrap();
        proof {
            assert(v == orig.take(m)[m - 1]);
            assert(orig.take(m)[m - 1] == orig[m - 1]);
            assert(rest@ =~= orig.take(m - 1));
        }
        match decode_page_rule(v) {
            Ok(p) => out.insert(0, p),
            Err(()) => {
                proof {
                    assert(0 <= m - 1 < orig.len() && !page_rule_ok(orig[m - 1]));
                }
                return Err(());
            },
        }
    }
    Ok(out)
}

// ---------------------------------------------------------------------------
// WAF packages and rules
// ---------------------------------------------------------------------------

pub open spec fn waf_package_ok(j: JsonValue) -> bool {
    &&& j.field_str("id"@) is Some
    &&& j.field_str("name"@) is Some
    &&& j.field_str("description"@) is Some
    &&& j.field_str("detection_mode"@) is Some
    &&& opt_str_ok(j, "sensitivity"@)
    &&& opt_str_ok(j, "action_mode"@)
}

pub open spec fn waf_package_matches(j: JsonValue, p: WafPackage) -> bool {
    &&& Some(p.id@) == j.field_str("id"@)
    &&& Some(p.name@) == j.field_str("name"@)
    &&& Some(p.description@) == j.field_str("description"@)
    &&& Some(p.detection_mode@) == j.field_str("detection_mode"@)
    &&& opt_str_view(p.sensitivity) == j.field_str("sensitivity"@)
    &&& opt_str_view(p.action_mode) == j.field_str("action_mode"@)
}

pub fn decode_waf_package(j: &JsonValue) -> (r: Result<WafPackage, ()>)
    ensures
        r is Ok <==> waf_package_ok(*j),
        r matches Ok(p) ==> waf_package_matches(*j, p),
{
    let id = get_req_string(j, "id")?;
    let name = get_req_string(j, "name")?;
    let description = get_req_string(j, "description")?;
    let detection_mode = get_req_string(j, "detection_mode")?;
    let sensitivity = get_opt_string(j, "sensitivity")?;
    let action_mode = get_opt_string(j, "action_mode")?;
    Ok(WafPackage { id, name, description, detection_mode, sensitivity, action_mode })
}

pub open spec fn waf_packages_filtered(items: Seq<JsonValue>, out: Seq<WafPackage>) -> bool
    decreases items.len(),
{
    if items.len() == 0 {
        out.len() == 0
    } else if waf_package_ok(items[0]) {
        out.len() > 0 && waf_package_matches(items[0], out[0]) && waf_packages_filtered(
            items.skip(1),
            out.skip(1),
        )
    } else {
        waf_packages_filtered(items.skip(1), out)
    }
}

pub fn decode_waf_package_list(items: &Vec<JsonValue>) -> (v: Vec<WafPackage>)
    ensures
        waf_packages_filtered(items@, v@),
{
    let n = items.len();
    let mut out: Vec<WafPackage> = Vec::new();
    let mut i: usize = n;
    while i > 0
        invariant
            n == items@.len(),
            i <= n,
            waf_packages_filtered(items@.skip(i as int), out@),
        decreases i,
    {
        i -= 1;
        let ghost prev = out@;
        match decode_waf_package(&items[i]) {
            Ok(p) => {
                out.insert(0, p);
                proof {
                    assert(out@.skip(1) =~= prev);
                }
            },
            Err(()) => (),
        }
        proof {
            assert(items@.skip(i as int).skip(1) =~= items@.skip(i as int + 1));
            assert(items@.skip(i as int)[0] == items@[i as int]);
        }
    }
    proof {
        assert(items@.skip(0) =~= items@);
    }
    out
}

pub open spec fn waf_rule_ok(j: JsonValue) -> bool {
    &&& j.field_str("id"@) is Some
    &&& j.field_str("description"@) is Some
    &&& j.field_str("priority"@) is Some
    &&& (match j.spec_get("group"@) {
        Some(g) => g.field_str("id"@) is Some && g.field_str("name"@) is Some,
        None => false,
    })
    &&& j.field_str("mode"@) is Some
    &&& str_list_ok(j, "allowed_modes"@)
}

pub open spec fn waf_rule_matches(j: JsonValue, w: WafRule) -> bool {
    &&& Some(w.id@) == j.field_str("id"@)
    &&& Some(w.description@) == j.field_str("description"@)
    &&& Some(w.priority@) == j.field_str("priority"@)
    &&& (match j.spec_get("group"@) {
        Some(g) => Some(w.group.id@) == g.field_str("id"@) && Some(w.group.name@) == g.field_str(
            "name"@,
        ),
        None => false,
    })
    &&& Some(w.mode@) == j.field_str("mode"@)
    &&& (match j.field_arr("allowed_modes"@) {
        Some(a) => str_list_matches(w.allowed_modes@, a),
        None => false,
    })
}

pub fn decode_waf_rule(j: &JsonValue) -> (r: Result<WafRule, ()>)
    ensures
        r is Ok <==> waf_rule_ok(*j),
        r matches Ok(w) ==> waf_rule_matches(*j, w),
{
    let id = get_req_string(j, "id")?;
    let description = get_req_string(j, "description")?;
    let priority = get_req_string(j, "priority")?;
    let g = match j.get("group") {
        Some(g) => g,
        None => return Err(()),
    };
    let gid = get_req_string(g, "id")?;
    let gname = get_req_string(g, "name")?;
    let mode = get_req_string(j, "mode")?;
    let allowed_modes = get_string_list(j, "allowed_modes")?;
    Ok(WafRule {
        id,
        description,
        priority,
        group: WafRuleGroup { id: gid, name: gname },
        mode,
        allowed_modes,
    })
}

pub open spec fn waf_rules_filtered(items: Seq<JsonValue>, out: Seq<WafRule>) -> bool
    decreases items.len(),
{
    if items.len() == 0 {
        out.len() == 0
    } else if waf_rule_ok(items[0]) {
        out.len() > 0 && waf_rule_matches(items[0], out[0]) && waf_rules_filtered(
            items.skip(1),
            out.skip(1),
        )
    } else {
        waf_rules_filtered(items.skip(1), out)
    }
}

pub fn decode_waf_rule_list(items: &Vec<JsonValue>) -> (v: Vec<WafRule>)
    ensures
        waf_rules_filtered(items@, v@),
{
    let n = items.len();
    let mut out: Vec<WafRule> = Vec::new();
    let mut i: usize = n;
    while i > 0
        invariant
            n == items@.len(),
            i <= n,
            waf_rules_filtered(items@.skip(i as int), out@),
        decreases i,
    {
        i -= 1;
        let ghost prev = out@;
        match decode_waf_rule(&items[i]) {
            Ok(w) => {
                out.insert(0, w);
                proof {
                    assert(out@.skip(1) =~= prev);
                }
            },
            Err(()) => (),
        }
        proof {
            assert(items@.skip(i as int).skip(1) =~= items@.skip(i as int + 1));
            assert(items@.skip(i as int)[0] == items@[i as int]);
        }
    }
    proof {
        assert(items@.skip(0) =~= items@);
    }
    out
}

// ---------------------------------------------------------------------------
// Rate limits
// ---------------------------------------------------------------------------

pub open spec fn match_request_ok(j: JsonValue) -> bool {
    &&& j.field_str("url"@) is Some
    &&& opt_str_list_ok(j, "methods"@)
    &&& opt_str_list_ok(j, "schemes"@)
}

pub open spec fn match_request_matches(j: JsonValue, m: MatchRequest) -> bool {
    &&& Some(m.url@) == j.field_str("url"@)
    &&& opt_str_list_matches(m.methods, j, "methods"@)
    &&& opt_str_list_matches(m.schemes, j, "schemes"@)
}

pub open spec fn rl_action_ok(j: JsonValue) -> bool {
    &&& j.field_str("mode"@) is Some
    &&& opt_uint_ok(j, "timeout"@, 0xffff_ffff)
    &&& (match j.spec_get("response"@) {
        None => true,
        Some(v) => v is Null || (v.field_str("content_type"@) is Some && v.field_str("body"@)
            is Some),
    })
}

pub open spec fn rl_action_matches(j: JsonValue, a: RateLimitAction) -> bool {
    &&& Some(a.mode@) == j.field_str("mode"@)
    &&& (match a.timeout {
        Some(t) => j.field_u64("timeout"@) == Some(t as u64),
        None => j.field_u64("timeout"@) is None,
    })
    &&& (match a.response {
        Some(resp) => (match j.spec_get("response"@) {
            Some(v) => Some(resp.content_type@) == v.field_str("content_type"@) && Some(
                resp.body@,
            ) == v.field_str("body"@),
            None => false,
        }),
        None => (match j.spec_get("response"@) {
            None => true,
            Some(v) => v is Null,
        }),
    })
}

pub fn decode_rl_action(j: &JsonValue) -> (r: Result<RateLimitAction, ()>)
    ensures
        r is Ok <==> rl_action_ok(*j),
        r matches Ok(a) ==> rl_action_matches(*j, a),
{
    let mode = get_req_string(j, "mode")?;
    let timeout64 = get_opt_u64_max(j, "timeout", 0xffff_ffff)?;
    let timeout: Option<u32> = match timeout64 {
        Some(t) => Some(t as u32),
        None => None,
    };
    let response: Option<RateLimitResponse> = match j.get("response") {
        None => None,
        Some(v) => match v {
            JsonValue::Null => None,
            other => {
                let content_type = get_req_string(other, "content_type")?;
                let body = get_req_string(other, "body")?;
                Some(RateLimitResponse { content_type, body })
            },
        },
    };
    Ok(RateLimitAction { mode, timeout, response })
}

pub open spec fn rate_limit_ok(j: JsonValue) -> bool {
    &&& j.field_str("id"@) is Some
    &&& j.field_bool("disabled"@) is Some
    &&& j.field_str("description"@) is Some
    &&& (match j.spec_get("match_request"@) {
        Some(m) => match_request_ok(m),
        None => false,
    })
    &&& req_uint_ok(j, "threshold"@, 0xffff_ffff)
    &&& req_uint_ok(j, "period"@, 0xffff_ffff)
    &&& (match j.spec_get("action"@) {
        Some(a) => rl_action_ok(a),
        None => false,
    })
}

pub open spec fn rate_limit_matches(j: JsonValue, r: RateLimit) -> bool {
    &&& Some(r.id@) == j.field_str("id"@)
    &&& j.field_bool("disabled"@) == Some(r.disabled)
    &&& Some(r.description@) == j.field_str("description"@)
    &&& (match j.spec_get("match_request"@) {
        Some(m) => match_request_matches(m, r.match_request),
        None => false,
    })
    &&& j.field_u64("threshold"@) == Some(r.threshold as u64)
    &&& j.field_u64("period"@) == Some(r.period as u64)
    &&& (match j.spec_get("action"@) {
        Some(a) => rl_action_matches(a, r.action),
        None => false,
    })
}

pub fn decode_match_request(j: &JsonValue) -> (r: Result<MatchRequest, ()>)
    ensures
        r is Ok <==> match_request_ok(*j),
        r matches Ok(m) ==> match_request_matches(*j, m),
{
    let url = get_req_string(j, "url")?;
    let methods = get_opt_string_list(j, "methods")?;
    let schemes = get_opt_string_list(j, "schemes")?;
    Ok(MatchRequest { url, methods, schemes })
}

pub fn decode_rate_limit(j: &JsonValue) -> (r: Result<RateLimit, ()>)
    ensures
        r is Ok <==> rate_limit_ok(*j),
        r matches Ok(rl) ==> rate_limit_matches(*j, rl),
{
    let id = get_req_string(j, "id")?;
    let disabled = get_req_bool(j, "disabled")?;
    let description = get_req_string(j, "description")?;
    let match_request = match j.get("match_request") {
        Some(m) => decode_match_request(m)?,
        None => return Err(()),
    };
    let threshold64 = get_req_u64_max(j, "threshold", 0xffff_ffff)?;
    let period64 = get_req_u64_max(j, "period", 0xffff_ffff)?;
    let action = match j.get("action") {
        Some(a) => decode_rl_action(a)?,
        None => return Err(()),
    };
    Ok(RateLimit {
        id,
        disabled,
        description,
        match_request,
        threshold: threshold64 as u32,
        period: period64 as u32,
        action,
    })
}

pub open spec fn rate_limits_filtered(items: Seq<JsonValue>, out: Seq<RateLimit>) -> bool
    decreases items.len(),
{
    if items.len() == 0 {
        out.len() == 0
    } else if rate_limit_ok(items[0]) {
        out.len() > 0 && rate_limit_matches(items[0], out[0]) && rate_limits_filtered(
            items.skip(1),
            out.skip(1),
        )
    } else {
        rate_limits_filtered(items.skip(1), out)
    }
}

pub fn decode_rate_limit_list(items: &Vec<JsonValue>) -> (v: Vec<RateLimit>)
    ensures
        rate_limits_filtered(items@, v@),
{
    let n = items.len();
    let mut out: Vec<RateLimit> = Vec::new();
    let mut i: usize = n;
    while i > 0
        invariant
            n == items@.len(),
            i <= n,
            rate_limits_filtered(items@.skip(i as int), out@),
        decreases i,
    {
        i -= 1;
        let ghost prev = out@;
        match decode_rate_limit(&items[i]) {
            Ok(rl) => {
                out.insert(0, rl);
                proof {
                    assert(out@.skip(1) =~= prev);
                }
            },
            Err(()) => (),
        }
        proof {
            assert(items@.skip(i as int).skip(1) =~= items@.skip(i as int + 1));
            assert(items@.skip(i as int)[0] == items@[i as int]);
        }
    }
    proof {
        assert(items@.skip(0) =~= items@);
    }
    out
}

} // verus!
