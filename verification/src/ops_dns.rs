//! DNS record operations.

use vstd::prelude::*;
use vstd::string::*;
use crate::decode::{
    decode_dns_record, decode_dns_record_list, dns_record_list_matches, dns_record_list_ok,
    dns_record_matches, dns_record_ok,
};
use crate::envelope::{envelope_ok, envelope_result, spec_upstream_error_msg, unwrap_envelope};
use crate::error::RelayError;
use crate::json::{obj_lookup, JsonValue};
use crate::strutil::{concat3, concat4};
use crate::types::DnsRecord;
use crate::upstream::{HttpMethod, RequestBody, UpstreamRequest};

verus! {

pub fn get_dns_records_request(zone_id: &str) -> (r: UpstreamRequest)
    ensures
        r.method == HttpMethod::Get,
        r.path@ == "/zones/"@ + zone_id@ + "/dns_records"@,
        r.body is Empty,
{
    UpstreamRequest {
        method: HttpMethod::Get,
        path: concat3("/zones/", zone_id, "/dns_records"),
        body: RequestBody::Empty,
    }
}

pub fn get_dns_records_response(status: u16, body: JsonValue) -> (r: Result<
    Vec<DnsRecord>,
    RelayError,
>)
    ensures
        r is Ok <==> envelope_ok(body) && (match envelope_result(body).spec_arr() {
            Some(items) => dns_record_list_ok(items),
            None => false,
        }),
        r matches Ok(v) ==> (match envelope_result(body).spec_arr() {
            Some(items) => dns_record_list_matches(items, v@),
            None => false,
        }),
        r matches Err(e) ==> (if !envelope_ok(body) {
            e matches RelayError::Upstream { status: s, message: m } && s == status && m@
                == spec_upstream_error_msg(body)
        } else {
            e matches RelayError::Decode(m) && m@ == "Failed to parse DNS records"@
        }),
{
    let result = match unwrap_envelope(status, body) {
        Ok(v) => v,
        Err(e) => return Err(e),
    };
    let items = match result.into_arr() {
        Some(v) => v,
        None => return Err(RelayError::Decode("Failed to parse DNS records".to_owned())),
    };
    match decode_dns_record_list(&items) {
        Ok(v) => Ok(v),
        Err(()) => Err(RelayError::Decode("Failed to parse DNS records".to_owned())),
    }
}

proof fn dns_body_keys_facts()
    ensures
        "id"@.len() == 2,
        "zone_id"@.len() == 7,
        "type"@.len() == 4,
        "name"@.len() == 4,
        "content"@.len() == 7,
        "ttl"@.len() == 3,
        "proxied"@.len() == 7,
        "priority"@.len() == 8,
        "zone_id"@[0] == 'z',
        "content"@[0] == 'c',
        "proxied"@[0] == 'p',
        "type"@[0] == 't',
        "name"@[0] == 'n',
{
    reveal_strlit("id");
    reveal_strlit("zone_id");
    reveal_strlit("type");
    reveal_strlit("name");
    reveal_strlit("content");
    reveal_strlit("ttl");
    reveal_strlit("proxied");
    reveal_strlit("priority");
}

/// The record rendered as the JSON document sent upstream: optional fields
/// only when present, `type`/`name`/`content`/`ttl`/`proxied` always.
/// The rendering satisfies the same field relation the decoder checks.
pub fn dns_record_to_json(rec: &DnsRecord) -> (j: JsonValue)
    ensures
        dns_record_ok(j),
        dns_record_matches(j, *rec),
{
    let mut entries: Vec<(String, JsonValue)> = Vec::new();
    match &rec.id {
        Some(v) => entries.push(("id".to_owned(), JsonValue::Str(v.clone()))),
        None => (),
    }
    match &rec.zone_id {
        Some(v) => entries.push(("zone_id".to_owned(), JsonValue::Str(v.clone()))),
        None => (),
    }
    entries.push(("type".to_owned(), JsonValue::Str(rec.record_type.clone())));
    entries.push(("name".to_owned(), JsonValue::Str(rec.name.clone())));
    entries.push(("content".to_owned(), JsonValue::Str(rec.content.clone())));
    entries.push(("ttl".to_owned(), JsonValue::Int(rec.ttl as i64)));
    entries.push(("proxied".to_owned(), JsonValue::Bool(rec.proxied)));
    match &rec.priority {
        Some(p) => entries.push(("priority".to_owned(), JsonValue::Int(*p as i64))),
        None => (),
    }
    let j = JsonValue::Obj(entries);
    proof {
        reveal_with_fuel(obj_lookup, 10);
        dns_body_keys_facts();
        assert(dns_record_matches(j, *rec));
    }
    j
}

pub fn create_dns_record_request(rec: &DnsRecord) -> (r: Result<UpstreamRequest, RelayError>)
    ensures
        r is Ok <==> rec.zone_id is Some,
        r matches Ok(req) ==> ({
            &&& req.method == HttpMethod::Post
            &&& (rec.zone_id matches Some(z) && req.path@ == "/zones/"@ + z@ + "/dns_records"@)
            &&& (req.body matches RequestBody::Json(j) && dns_record_matches(j, *rec))
        }),
        r matches Err(e) ==> e matches RelayError::Validation(m) && m@
            == "Zone ID is required for creating DNS record"@,
{
    let zone_id = match &rec.zone_id {
        Some(z) => z,
        None => return Err(
            RelayError::Validation("Zone ID is required for creating DNS record".to_owned()),
        ),
    };
    let j = dns_record_to_json(rec);
    Ok(UpstreamRequest {
        method: HttpMethod::Post,
        path: concat3("/zones/", zone_id.as_str(), "/dns_records"),
        body: RequestBody::Json(j),
    })
}

pub fn update_dns_record_request(rec: &DnsRecord) -> (r: Result<UpstreamRequest, RelayError>)
    ensures
        r is Ok <==> rec.id is Some && rec.zone_id is Some,
        r matches Ok(req) ==> ({
            &&& req.method == HttpMethod::Put
            &&& (rec.zone_id matches Some(z) && rec.id matches Some(rid) && req.path@ == "/zones/"@
                + z@ + "/dns_records/"@ + rid@)
            &&& (req.body matches RequestBody::Json(j) && dns_record_matches(j, *rec))
        }),
        r matches Err(e) ==> e matches RelayError::Validation(m) && (if rec.id is None {
            m@ == "Record ID is required"@
        } else {
            m@ == "Zone ID is required for updating DNS record"@
        }),
{
    let record_id = match &rec.id {
        Some(v) => v,
        None => return Err(RelayError::Validation("Record ID is required".to_owned())),
    };
    let zone_id = match &rec.zone_id {
        Some(z) => z,
        None => return Err(
            RelayError::Validation("Zone ID is required for updating DNS record".to_owned()),
        ),
    };
    let j = dns_record_to_json(rec);
    Ok(UpstreamRequest {
        method: HttpMethod::Put,
        path: concat4("/zones/", zone_id.as_str(), "/dns_records/", record_id.as_str()),
        body: RequestBody::Json(j),
    })
}

/// Shared by create and update: the reply carries the stored record.
pub fn dns_record_response(status: u16, body: JsonValue) -> (r: Result<DnsRecord, RelayError>)
    ensures
        r is Ok <==> envelope_ok(body) && dns_record_ok(envelope_result(body)),
        r matches Ok(d) ==> dns_record_matches(envelope_result(body), d),
        r matches Err(e) ==> (if !envelope_ok(body) {
            e matches RelayError::Upstream { status: s, message: m } && s == status && m@
                == spec_upstream_error_msg(body)
        } else {
            e matches RelayError::Decode(m) && m@ == "Failed to parse DNS record"@
        }),
{
    let result = match unwrap_envelope(status, body) {
        Ok(v) => v,
        Err(e) => return Err(e),
    };
    match decode_dns_record(&result) {
        Ok(d) => Ok(d),
        Err(()) => Err(RelayError::Decode("Failed to parse DNS record".to_owned())),
    }
}

pub fn delete_dns_record_request(zone_id: &str, record_id: &str) -> (r: UpstreamRequest)
    ensures
        r.method == HttpMethod::Delete,
        r.path@ == "/zones/"@ + zone_id@ + "/dns_records/"@ + record_id@,
        r.body is Empty,
{
    UpstreamRequest {
        method: HttpMethod::Delete,
        path: concat4("/zones/", zone_id, "/dns_records/", record_id),
        body: RequestBody::Empty,
    }
}

/// On success the deleted record's id is echoed back.
pub fn delete_dns_record_response(status: u16, body: JsonValue, record_id: &str) -> (r: Result<
    String,
    RelayError,
>)
    ensures
        r is Ok <==> envelope_ok(body),
        r matches Ok(s) ==> s@ == record_id@,
        r matches Err(e) ==> (e matches RelayError::Upstream { status: s, message: m } && s
            == status && m@ == spec_upstream_error_msg(body)),
{
    match unwrap_envelope(status, body) {
        Ok(_) => Ok(record_id.to_owned()),
        Err(e) => Err(e),
    }
}

} // verus!
