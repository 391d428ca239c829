//! Decoding of caller payloads into the typed requests. Identifier fields
//! are accepted under two spellings (snake_case and its camelCase twin);
//! normalization happens here, once, rather than field-by-field elsewhere.

use vstd::prelude::*;
use vstd::string::*;
use crate::credentials::CloudflareCredentials;
use crate::decode::{
    decode_match_request, decode_page_rule, decode_rl_action, match_request_matches,
    match_request_ok, page_rule_matches, page_rule_ok, rl_action_matches, rl_action_ok,
};
use crate::error::RelayError;
use crate::json::JsonValue;
use crate::types::{
    CreateD1DatabaseRequest, CreateFirewallRuleRequest, CreateKVNamespaceRequest,
    CreatePageRuleRequest, CreateRateLimitRequest, CreateWorkerRouteRequest,
    DeleteCustomCertificateRequest, DeleteD1DatabaseRequest, DeleteFirewallRuleRequest, DeleteKVKeyRequest,
    DeleteKVNamespaceRequest, DeletePageRuleRequest, DeleteRateLimitRequest, DeleteRecordRequest,
    DeleteWorkerRequest, DeleteWorkerRouteRequest, DeployWorkerRequest, DnsRecord,
    ExecuteD1QueryRequest, GetAnalyticsRequest,
    GetCustomCertificatesRequest, GetDnsRecordsRequest, GetFirewallRulesRequest,
    GetPageRulesRequest, GetRateLimitsRequest, GetSslCertificatesRequest, GetWafPackagesRequest,
    GetWafRulesRequest, GetWorkerRequest, GetWorkerRoutesRequest, GetZoneSettingsRequest,
    ListD1DatabasesRequest, ListKVKeysRequest, ListKVNamespacesRequest, ListWorkersRequest,
    OptimizeMode, OptimizeZoneRequest, PurgeCacheRequest, ReadKVValueRequest, UpdateFirewallRuleRequest,
    UpdatePageRuleRequest, UpdateRateLimitRequest, UpdateSetting, UpdateWafPackageRequest,
    UpdateWafRuleRequest, UpdateZoneSettingsRequest, UploadCustomCertificateRequest,
    UploadWorkerRequest, WriteKVValueRequest,
};

verus! {

/// The binding of a field accepted under a primary key or its alias: the
/// primary wins when present.
pub open spec fn alias_get(j: JsonValue, k1: Seq<char>, k2: Seq<char>) -> Option<JsonValue> {
    match j.spec_get(k1) {
        Some(v) => Some(v),
        None => j.spec_get(k2),
    }
}

pub open spec fn alias_str(j: JsonValue, k1: Seq<char>, k2: Seq<char>) -> Option<Seq<char>> {
    match alias_get(j, k1, k2) {
        Some(v) => v.spec_str(),
        None => None,
    }
}

pub open spec fn alias_u64(j: JsonValue, k1: Seq<char>, k2: Seq<char>) -> Option<u64> {
    match alias_get(j, k1, k2) {
        Some(v) => v.spec_u64(),
        None => None,
    }
}

pub open spec fn alias_bool(j: JsonValue, k1: Seq<char>, k2: Seq<char>) -> Option<bool> {
    match alias_get(j, k1, k2) {
        Some(v) => v.spec_bool(),
        None => None,
    }
}

fn bad_request() -> (e: RelayError)
    ensures
        e matches RelayError::Validation(m) && m@ == "Invalid request format"@,
{
    RelayError::Validation("Invalid request format".to_owned())
}

fn req_string2(j: &JsonValue, k1: &str, k2: &str) -> (r: Result<String, RelayError>)
    ensures
        r is Ok <==> alias_str(*j, k1@, k2@) is Some,
        r matches Ok(s) ==> alias_str(*j, k1@, k2@) == Some(s@),
        r matches Err(e) ==> e is Validation,
{
    match j.get(k1) {
        Some(v) => match v.as_str() {
            Some(s) => Ok(s.to_owned()),
            None => Err(bad_request()),
        },
        None => match j.get(k2) {
            Some(v) => match v.as_str() {
                Some(s) => Ok(s.to_owned()),
                None => Err(bad_request()),
            },
            None => Err(bad_request()),
        },
    }
}

fn req_string1(j: &JsonValue, k: &str) -> (r: Result<String, RelayError>)
    ensures
        r is Ok <==> j.field_str(k@) is Some,
        r matches Ok(s) ==> j.field_str(k@) == Some(s@),
        r matches Err(e) ==> e is Validation,
{
    match j.get_string(k) {
        Some(s) => Ok(s),
        None => Err(bad_request()),
    }
}

fn req_u64_2(j: &JsonValue, k1: &str, k2: &str, max: u64) -> (r: Result<u64, RelayError>)
    ensures
        r is Ok <==> (match alias_u64(*j, k1@, k2@) {
            Some(n) => n <= max,
            None => false,
        }),
        r matches Ok(n) ==> alias_u64(*j, k1@, k2@) == Some(n) && n <= max,
        r matches Err(e) ==> e is Validation,
{
    let v = match j.get(k1) {
        Some(v) => v,
        None => match j.get(k2) {
            Some(v) => v,
            None => return Err(bad_request()),
        },
    };
    match v.as_u64() {
        Some(n) => if n <= max {
            Ok(n)
        } else {
            Err(bad_request())
        },
        None => Err(bad_request()),
    }
}

/// The token is taken from the `credentials` object, under either accepted
/// spelling of the key.
pub open spec fn spec_credentials_token(j: JsonValue) -> Option<Seq<char>> {
    match j.spec_get("credentials"@) {
        Some(c) => alias_str(c, "api_token"@, "apiToken"@),
        None => None,
    }
}

pub fn parse_credentials(j: &JsonValue) -> (r: Result<CloudflareCredentials, RelayError>)
    ensures
        r is Ok <==> spec_credentials_token(*j) is Some,
        r matches Ok(c) ==> Some(c.api_token@) == spec_credentials_token(*j),
        r matches Err(e) ==> e is Validation,
{
    let c = match j.get("credentials") {
        Some(c) => c,
        None => return Err(bad_request()),
    };
    let api_token = match req_string2(c, "api_token", "apiToken") {
        Ok(t) => t,
        Err(e) => return Err(e),
    };
    Ok(CloudflareCredentials { api_token })
}

/// Both accepted spellings of the token key carry the same internal value:
/// a payload using only the primary spelling and one using only the alias
/// normalize to the same token.
pub proof fn lemma_token_spellings_agree(j1: JsonValue, j2: JsonValue, t: String)
    requires
        j1.spec_get("api_token"@) == Some(JsonValue::Str(t)),
        j2.spec_get("api_token"@) is None,
        j2.spec_get("apiToken"@) == Some(JsonValue::Str(t)),
    ensures
        alias_str(j1, "api_token"@, "apiToken"@) == Some(t@),
        alias_str(j1, "api_token"@, "apiToken"@) == alias_str(j2, "api_token"@, "apiToken"@),
{
}

pub fn parse_get_dns_records_request(j: &JsonValue) -> (r: Result<GetDnsRecordsRequest, RelayError>)
    ensures
        r is Ok <==> alias_str(*j, "zone_id"@, "zoneId"@) is Some,
        r matches Ok(q) ==> Some(q.zone_id@) == alias_str(*j, "zone_id"@, "zoneId"@),
        r matches Err(e) ==> e is Validation,
{
    let zone_id = match req_string2(j, "zone_id", "zoneId") {
        Ok(s) => s,
        Err(e) => return Err(e),
    };
    Ok(GetDnsRecordsRequest { zone_id })
}

pub fn parse_delete_record_request(j: &JsonValue) -> (r: Result<DeleteRecordRequest, RelayError>)
    ensures
        r is Ok <==> alias_str(*j, "zone_id"@, "zoneId"@) is Some && alias_str(
            *j,
            "record_id"@,
            "recordId"@,
        ) is Some,
        r matches Ok(q) ==> Some(q.zone_id@) == alias_str(*j, "zone_id"@, "zoneId"@) && Some(
            q.record_id@,
        ) == alias_str(*j, "record_id"@, "recordId"@),
        r matches Err(e) ==> e is Validation,
{
    let zone_id = match req_string2(j, "zone_id", "zoneId") {
        Ok(s) => s,
        Err(e) => return Err(e),
    };
    let record_id = match req_string2(j, "record_id", "recordId") {
        Ok(s) => s,
        Err(e) => return Err(e),
    };
    Ok(DeleteRecordRequest { zone_id, record_id })
}

/// The inbound shape of a DNS record: `type` also accepted as `recordType`,
/// `zone_id` also as `zoneId`, `ttl` defaulting to automatic and `proxied`
/// to off.
pub open spec fn inbound_dns_record_ok(j: JsonValue) -> bool {
    &&& (match j.spec_get("id"@) {
        None => true,
        Some(v) => v is Null || v is Str,
    })
    &&& (match alias_get(j, "zone_id"@, "zoneId"@) {
        None => true,
        Some(v) => v is Null || v is Str,
    })
    &&& alias_str(j, "type"@, "recordType"@) is Some
    &&& j.field_str("name"@) is Some
    &&& j.field_str("content"@) is Some
    &&& (match j.spec_get("ttl"@) {
        None => true,
        Some(v) => match v.spec_u64() {
            Some(n) => n <= 0xffff_ffff,
            None => false,
        },
    })
    &&& (match j.spec_get("proxied"@) {
        None => true,
        Some(v) => v is Bool,
    })
    &&& (match j.spec_get("priority"@) {
        None => true,
        Some(v) => v is Null || (match v.spec_u64() {
            Some(n) => n <= 0xffff,
            None => false,
        }),
    })
}

pub open spec fn inbound_dns_record_matches(j: JsonValue, d: DnsRecord) -> bool {
    &&& (match d.id {
        Some(s) => j.field_str("id"@) == Some(s@),
        None => j.field_str("id"@) is None,
    })
    &&& (match d.zone_id {
        Some(s) => (match alias_get(j, "zone_id"@, "zoneId"@) {
            Some(v) => v.spec_str() == Some(s@),
            None => false,
        }),
        None => (match alias_get(j, "zone_id"@, "zoneId"@) {
            Some(v) => v.spec_str() is None,
            None => true,
        }),
    })
    &&& Some(d.record_type@) == alias_str(j, "type"@, "recordType"@)
    &&& Some(d.name@) == j.field_str("name"@)
    &&& Some(d.content@) == j.field_str("content"@)
    &&& d.ttl as u64 == (match j.field_u64("ttl"@) {
        Some(n) => n,
        None => 1u64,
    })
    &&& d.proxied == (match j.field_bool("proxied"@) {
        Some(b) => b,
        None => false,
    })
    &&& (match d.priority {
        Some(p) => j.field_u64("priority"@) == Some(p as u64),
        None => j.field_u64("priority"@) is None,
    })
}

pub fn parse_dns_record(j: &JsonValue) -> (r: Result<DnsRecord, RelayError>)
    ensures
        r is Ok <==> inbound_dns_record_ok(*j),
        r matches Ok(d) ==> inbound_dns_record_matches(*j, d),
        r matches Err(e) ==> e is Validation,
{
    let id = match crate::decode::get_opt_string(j, "id") {
        Ok(o) => o,
        Err(()) => return Err(bad_request()),
    };
    let zone_id: Option<String> = {
        let v = match j.get("zone_id") {
            Some(v) => Some(v),
            None => j.get("zoneId"),
        };
        match v {
            None => None,
            Some(JsonValue::Null) => None,
            Some(JsonValue::Str(s)) => Some(s.clone()),
            Some(_) => return Err(bad_request()),
        }
    };
    let record_type = match req_string2(j, "type", "recordType") {
        Ok(s) => s,
        Err(e) => return Err(e),
    };
    let name = match req_string1(j, "name") {
        Ok(s) => s,
        Err(e) => return Err(e),
    };
    let content = match req_string1(j, "content") {
        Ok(s) => s,
        Err(e) => return Err(e),
    };
    let ttl64 = match crate::decode::get_u64_default_max(j, "ttl", 1, 0xffff_ffff) {
        Ok(n) => n,
        Err(()) => return Err(bad_request()),
    };
    let proxied = match crate::decode::get_bool_default(j, "proxied", false) {
        Ok(b) => b,
        Err(()) => return Err(bad_request()),
    };
    let priority64 = match crate::decode::get_opt_u64_max(j, "priority", 0xffff) {
        Ok(o) => o,
        Err(()) => return Err(bad_request()),
    };
    let priority: Option<u16> = match priority64 {
        Some(p) => Some(p as u16),
        None => None,
    };
    Ok(DnsRecord {
        id,
        zone_id,
        record_type,
        name,
        content,
        ttl: ttl64 as u32,
        proxied,
        priority,
    })
}


pub fn parse_get_firewall_rules_request(j: &JsonValue) -> (r: Result<GetFirewallRulesRequest, RelayError>)
    ensures
        r is Ok <==> alias_str(*j, "zone_id"@, "zoneId"@) is Some,
        r matches Ok(q) ==> Some(q.zone_id@) == alias_str(*j, "zone_id"@, "zoneId"@),
        r matches Err(e) ==> e is Validation,
{
    let zone_id = match req_string2(j, "zone_id", "zoneId") {
        Ok(s) => s,
        Err(e) => return Err(e),
    };
    Ok(GetFirewallRulesRequest { zone_id })
}

pub fn parse_get_worker_routes_request(j: &JsonValue) -> (r: Result<GetWorkerRoutesRequest, RelayError>)
    ensures
        r is Ok <==> alias_str(*j, "zone_id"@, "zoneId"@) is Some,
        r matches Ok(q) ==> Some(q.zone_id@) == alias_str(*j, "zone_id"@, "zoneId"@),
        r matches Err(e) ==> e is Validation,
{
    let zone_id = match req_string2(j, "zone_id", "zoneId") {
        Ok(s) => s,
        Err(e) => return Err(e),
    };
    Ok(GetWorkerRoutesRequest { zone_id })
}

pub fn parse_get_zone_settings_request(j: &JsonValue) -> (r: Result<GetZoneSettingsRequest, RelayError>)
    ensures
        r is Ok <==> alias_str(*j, "zone_id"@, "zoneId"@) is Some,
        r matches Ok(q) ==> Some(q.zone_id@) == alias_str(*j, "zone_id"@, "zoneId"@),
        r matches Err(e) ==> e is Validation,
{
    let zone_id = match req_string2(j, "zone_id", "zoneId") {
        Ok(s) => s,
        Err(e) => return Err(e),
    };
    Ok(GetZoneSettingsRequest { zone_id })
}

pub fn parse_get_page_rules_request(j: &JsonValue) -> (r: Result<GetPageRulesRequest, RelayError>)
    ensures
        r is Ok <==> alias_str(*j, "zone_id"@, "zoneId"@) is Some,
        r matches Ok(q) ==> Some(q.zone_id@) == alias_str(*j, "zone_id"@, "zoneId"@),
        r matches Err(e) ==> e is Validation,
{
    let zone_id = match req_string2(j, "zone_id", "zoneId") {
        Ok(s) => s,
        Err(e) => return Err(e),
    };
    Ok(GetPageRulesRequest { zone_id })
}

pub fn parse_get_ssl_certificates_request(j: &JsonValue) -> (r: Result<GetSslCertificatesRequest, RelayError>)
    ensures
        r is Ok <==> alias_str(*j, "zone_id"@, "zoneId"@) is Some,
        r matches Ok(q) ==> Some(q.zone_id@) == alias_str(*j, "zone_id"@, "zoneId"@),
        r matches Err(e) ==> e is Validation,
{
    let zone_id = match req_string2(j, "zone_id", "zoneId") {
        Ok(s) => s,
        Err(e) => return Err(e),
    };
    Ok(GetSslCertificatesRequest { zone_id })
}

pub fn parse_get_custom_certificates_request(j: &JsonValue) -> (r: Result<GetCustomCertificatesRequest, RelayError>)
    ensures
        r is Ok <==> alias_str(*j, "zone_id"@, "zoneId"@) is Some,
        r matches Ok(q) ==> Some(q.zone_id@) == alias_str(*j, "zone_id"@, "zoneId"@),
        r matches Err(e) ==> e is Validation,
{
    let zone_id = match req_string2(j, "zone_id", "zoneId") {
        Ok(s) => s,
        Err(e) => return Err(e),
    };
    Ok(GetCustomCertificatesRequest { zone_id })
}

pub fn parse_get_waf_packages_request(j: &JsonValue) -> (r: Result<GetWafPackagesRequest, RelayError>)
    ensures
        r is Ok <==> alias_str(*j, "zone_id"@, "zoneId"@) is Some,
        r matches Ok(q) ==> Some(q.zone_id@) == alias_str(*j, "zone_id"@, "zoneId"@),
        r matches Err(e) ==> e is Validation,
{
    let zone_id = match req_string2(j, "zone_id", "zoneId") {
        Ok(s) => s,
        Err(e) => return Err(e),
    };
    Ok(GetWafPackagesRequest { zone_id })
}

pub fn parse_get_rate_limits_request(j: &JsonValue) -> (r: Result<GetRateLimitsRequest, RelayError>)
    ensures
        r is Ok <==> alias_str(*j, "zone_id"@, "zoneId"@) is Some,
        r matches Ok(q) ==> Some(q.zone_id@) == alias_str(*j, "zone_id"@, "zoneId"@),
        r matches Err(e) ==> e is Validation,
{
    let zone_id = match req_string2(j, "zone_id", "zoneId") {
        Ok(s) => s,
        Err(e) => return Err(e),
    };
    Ok(GetRateLimitsRequest { zone_id })
}

pub fn parse_list_workers_request(j: &JsonValue) -> (r: Result<ListWorkersRequest, RelayError>)
    ensures
        r is Ok <==> alias_str(*j, "account_id"@, "accountId"@) is Some,
        r matches Ok(q) ==> Some(q.account_id@) == alias_str(*j, "account_id"@, "accountId"@),
        r matches Err(e) ==> e is Validation,
{
    let account_id = match req_string2(j, "account_id", "accountId") {
        Ok(s) => s,
        Err(e) => return Err(e),
    };
    Ok(ListWorkersRequest { account_id })
}

pub fn parse_list_kv_namespaces_request(j: &JsonValue) -> (r: Result<ListKVNamespacesRequest, RelayError>)
    ensures
        r is Ok <==> alias_str(*j, "account_id"@, "accountId"@) is Some,
        r matches Ok(q) ==> Some(q.account_id@) == alias_str(*j, "account_id"@, "accountId"@),
        r matches Err(e) ==> e is Validation,
{
    let account_id = match req_string2(j, "account_id", "accountId") {
        Ok(s) => s,
        Err(e) => return Err(e),
    };
    Ok(ListKVNamespacesRequest { account_id })
}

pub fn parse_list_d1_databases_request(j: &JsonValue) -> (r: Result<ListD1DatabasesRequest, RelayError>)
    ensures
        r is Ok <==> alias_str(*j, "account_id"@, "accountId"@) is Some,
        r matches Ok(q) ==> Some(q.account_id@) == alias_str(*j, "account_id"@, "accountId"@),
        r matches Err(e) ==> e is Validation,
{
    let account_id = match req_string2(j, "account_id", "accountId") {
        Ok(s) => s,
        Err(e) => return Err(e),
    };
    Ok(ListD1DatabasesRequest { account_id })
}

pub fn parse_delete_firewall_rule_request(j: &JsonValue) -> (r: Result<DeleteFirewallRuleRequest, RelayError>)
    ensures
        r is Ok <==> alias_str(*j, "zone_id"@, "zoneId"@) is Some && alias_str(*j, "rule_id"@, "ruleId"@) is Some,
        r matches Ok(q) ==> Some(q.zone_id@) == alias_str(*j, "zone_id"@, "zoneId"@) && Some(q.rule_id@) == alias_str(*j, "rule_id"@, "ruleId"@),
        r matches Err(e) ==> e is Validation,
{
    let zone_id = match req_string2(j, "zone_id", "zoneId") {
        Ok(s) => s,
        Err(e) => return Err(e),
    };
    let rule_id = match req_string2(j, "rule_id", "ruleId") {
        Ok(s) => s,
        Err(e) => return Err(e),
    };
    Ok(DeleteFirewallRuleRequest { zone_id, rule_id })
}

pub fn parse_delete_worker_route_request(j: &JsonValue) -> (r: Result<DeleteWorkerRouteRequest, RelayError>)
    ensures
        r is Ok <==> alias_str(*j, "zone_id"@, "zoneId"@) is Some && alias_str(*j, "route_id"@, "routeId"@) is Some,
        r matches Ok(q) ==> Some(q.zone_id@) == alias_str(*j, "zone_id"@, "zoneId"@) && Some(q.route_id@) == alias_str(*j, "route_id"@, "routeId"@),
        r matches Err(e) ==> e is Validation,
{
    let zone_id = match req_string2(j, "zone_id", "zoneId") {
        Ok(s) => s,
        Err(e) => return Err(e),
    };
    let route_id = match req_string2(j, "route_id", "routeId") {
        Ok(s) => s,
        Err(e) => return Err(e),
    };
    Ok(DeleteWorkerRouteRequest { zone_id, route_id })
}

pub fn parse_delete_page_rule_request(j: &JsonValue) -> (r: Result<DeletePageRuleRequest, RelayError>)
    ensures
        r is Ok <==> alias_str(*j, "zone_id"@, "zoneId"@) is Some && alias_str(*j, "rule_id"@, "ruleId"@) is Some,
        r matches Ok(q) ==> Some(q.zone_id@) == alias_str(*j, "zone_id"@, "zoneId"@) && Some(q.rule_id@) == alias_str(*j, "rule_id"@, "ruleId"@),
        r matches Err(e) ==> e is Validation,
{
    let zone_id = match req_string2(j, "zone_id", "zoneId") {
        Ok(s) => s,
        Err(e) => return Err(e),
    };
    let rule_id = match req_string2(j, "rule_id", "ruleId") {
        Ok(s) => s,
        Err(e) => return Err(e),
    };
    Ok(DeletePageRuleRequest { zone_id, rule_id })
}

pub fn parse_delete_custom_certificate_request(j: &JsonValue) -> (r: Result<DeleteCustomCertificateRequest, RelayError>)
    ensures
        r is Ok <==> alias_str(*j, "zone_id"@, "zoneId"@) is Some && alias_str(*j, "certificate_id"@, "certificateId"@) is Some,
        r matches Ok(q) ==> Some(q.zone_id@) == alias_str(*j, "zone_id"@, "zoneId"@) && Some(q.certificate_id@) == alias_str(*j, "certificate_id"@, "certificateId"@),
        r matches Err(e) ==> e is Validation,
{
    let zone_id = match req_string2(j, "zone_id", "zoneId") {
        Ok(s) => s,
        Err(e) => return Err(e),
    };
    let certificate_id = match req_string2(j, "certificate_id", "certificateId") {
        Ok(s) => s,
        Err(e) => return Err(e),
    };
    Ok(DeleteCustomCertificateRequest { zone_id, certificate_id })
}

pub fn parse_delete_rate_limit_request(j: &JsonValue) -> (r: Result<DeleteRateLimitRequest, RelayError>)
    ensures
        r is Ok <==> alias_str(*j, "zone_id"@, "zoneId"@) is Some && alias_str(*j, "rate_limit_id"@, "rateLimitId"@) is Some,
        r matches Ok(q) ==> Some(q.zone_id@) == alias_str(*j, "zone_id"@, "zoneId"@) && Some(q.rate_limit_id@) == alias_str(*j, "rate_limit_id"@, "rateLimitId"@),
        r matches Err(e) ==> e is Validation,
{
    let zone_id = match req_string2(j, "zone_id", "zoneId") {
        Ok(s) => s,
        Err(e) => return Err(e),
    };
    let rate_limit_id = match req_string2(j, "rate_limit_id", "rateLimitId") {
        Ok(s) => s,
        Err(e) => return Err(e),
    };
    Ok(DeleteRateLimitRequest { zone_id, rate_limit_id })
}

pub fn parse_get_waf_rules_request(j: &JsonValue) -> (r: Result<GetWafRulesRequest, RelayError>)
    ensures
        r is Ok <==> alias_str(*j, "zone_id"@, "zoneId"@) is Some && alias_str(*j, "package_id"@, "packageId"@) is Some,
        r matches Ok(q) ==> Some(q.zone_id@) == alias_str(*j, "zone_id"@, "zoneId"@) && Some(q.package_id@) == alias_str(*j, "package_id"@, "packageId"@),
        r matches Err(e) ==> e is Validation,
{
    let zone_id = match req_string2(j, "zone_id", "zoneId") {
        Ok(s) => s,
        Err(e) => return Err(e),
    };
    let package_id = match req_string2(j, "package_id", "packageId") {
        Ok(s) => s,
        Err(e) => return Err(e),
    };
    Ok(GetWafRulesRequest { zone_id, package_id })
}

pub fn parse_get_worker_request(j: &JsonValue) -> (r: Result<GetWorkerRequest, RelayError>)
    ensures
        r is Ok <==> alias_str(*j, "account_id"@, "accountId"@) is Some && alias_str(*j, "script_name"@, "scriptName"@) is Some,
        r matches Ok(q) ==> Some(q.account_id@) == alias_str(*j, "account_id"@, "accountId"@) && Some(q.script_name@) == alias_str(*j, "script_name"@, "scriptName"@),
        r matches Err(e) ==> e is Validation,
{
    let account_id = match req_string2(j, "account_id", "accountId") {
        Ok(s) => s,
        Err(e) => return Err(e),
    };
    let script_name = match req_string2(j, "script_name", "scriptName") {
        Ok(s) => s,
        Err(e) => return Err(e),
    };
    Ok(GetWorkerRequest { account_id, script_name })
}

pub fn parse_delete_worker_request(j: &JsonValue) -> (r: Result<DeleteWorkerRequest, RelayError>)
    ensures
        r is Ok <==> alias_str(*j, "account_id"@, "accountId"@) is Some && alias_str(*j, "script_name"@, "scriptName"@) is Some,
        r matches Ok(q) ==> Some(q.account_id@) == alias_str(*j, "account_id"@, "accountId"@) && Some(q.script_name@) == alias_str(*j, "script_name"@, "scriptName"@),
        r matches Err(e) ==> e is Validation,
{
    let account_id = match req_string2(j, "account_id", "accountId") {
        Ok(s) => s,
        Err(e) => return Err(e),
    };
    let script_name = match req_string2(j, "script_name", "scriptName") {
        Ok(s) => s,
        Err(e) => return Err(e),
    };
    Ok(DeleteWorkerRequest { account_id, script_name })
}

pub fn parse_delete_kv_namespace_request(j: &JsonValue) -> (r: Result<DeleteKVNamespaceRequest, RelayError>)
    ensures
        r is Ok <==> alias_str(*j, "account_id"@, "accountId"@) is Some && alias_str(*j, "namespace_id"@, "namespaceId"@) is Some,
        r matches Ok(q) ==> Some(q.account_id@) == alias_str(*j, "account_id"@, "accountId"@) && Some(q.namespace_id@) == alias_str(*j, "namespace_id"@, "namespaceId"@),
        r matches Err(e) ==> e is Validation,
{
    let account_id = match req_string2(j, "account_id", "accountId") {
        Ok(s) => s,
        Err(e) => return Err(e),
    };
    let namespace_id = match req_string2(j, "namespace_id", "namespaceId") {
        Ok(s) => s,
        Err(e) => return Err(e),
    };
    Ok(DeleteKVNamespaceRequest { account_id, namespace_id })
}

pub fn parse_delete_d1_database_request(j: &JsonValue) -> (r: Result<DeleteD1DatabaseRequest, RelayError>)
    ensures
        r is Ok <==> alias_str(*j, "account_id"@, "accountId"@) is Some && alias_str(*j, "database_id"@, "databaseId"@) is Some,
        r matches Ok(q) ==> Some(q.account_id@) == alias_str(*j, "account_id"@, "accountId"@) && Some(q.database_id@) == alias_str(*j, "database_id"@, "databaseId"@),
        r matches Err(e) ==> e is Validation,
{
    let account_id = match req_string2(j, "account_id", "accountId") {
        Ok(s) => s,
        Err(e) => return Err(e),
    };
    let database_id = match req_string2(j, "database_id", "databaseId") {
        Ok(s) => s,
        Err(e) => return Err(e),
    };
    Ok(DeleteD1DatabaseRequest { account_id, database_id })
}

pub fn parse_create_d1_database_request(j: &JsonValue) -> (r: Result<CreateD1DatabaseRequest, RelayError>)
    ensures
        r is Ok <==> alias_str(*j, "account_id"@, "accountId"@) is Some && j.field_str("name"@) is Some,
        r matches Ok(q) ==> Some(q.account_id@) == alias_str(*j, "account_id"@, "accountId"@) && Some(q.name@) == j.field_str("name"@),
        r matches Err(e) ==> e is Validation,
{
    let account_id = match req_string2(j, "account_id", "accountId") {
        Ok(s) => s,
        Err(e) => return Err(e),
    };
    let name = match req_string1(j, "name") {
        Ok(s) => s,
        Err(e) => return Err(e),
    };
    Ok(CreateD1DatabaseRequest { account_id, name })
}

pub fn parse_create_kv_namespace_request(j: &JsonValue) -> (r: Result<CreateKVNamespaceRequest, RelayError>)
    ensures
        r is Ok <==> alias_str(*j, "account_id"@, "accountId"@) is Some && j.field_str("title"@) is Some,
        r matches Ok(q) ==> Some(q.account_id@) == alias_str(*j, "account_id"@, "accountId"@) && Some(q.title@) == j.field_str("title"@),
        r matches Err(e) ==> e is Validation,
{
    let account_id = match req_string2(j, "account_id", "accountId") {
        Ok(s) => s,
        Err(e) => return Err(e),
    };
    let title = match req_string1(j, "title") {
        Ok(s) => s,
        Err(e) => return Err(e),
    };
    Ok(CreateKVNamespaceRequest { account_id, title })
}

pub fn parse_upload_worker_request(j: &JsonValue) -> (r: Result<UploadWorkerRequest, RelayError>)
    ensures
        r is Ok <==> alias_str(*j, "account_id"@, "accountId"@) is Some && alias_str(*j, "script_name"@, "scriptName"@) is Some && alias_str(*j, "script_content"@, "scriptContent"@) is Some,
        r matches Ok(q) ==> Some(q.account_id@) == alias_str(*j, "account_id"@, "accountId"@) && Some(q.script_name@) == alias_str(*j, "script_name"@, "scriptName"@) && Some(q.script_content@) == alias_str(*j, "script_content"@, "scriptContent"@),
        r matches Err(e) ==> e is Validation,
{
    let account_id = match req_string2(j, "account_id", "accountId") {
        Ok(s) => s,
        Err(e) => return Err(e),
    };
    let script_name = match req_string2(j, "script_name", "scriptName") {
        Ok(s) => s,
        Err(e) => return Err(e),
    };
    let script_content = match req_string2(j, "script_content", "scriptContent") {
        Ok(s) => s,
        Err(e) => return Err(e),
    };
    Ok(UploadWorkerRequest { account_id, script_name, script_content })
}

pub fn parse_create_worker_route_request(j: &JsonValue) -> (r: Result<CreateWorkerRouteRequest, RelayError>)
    ensures
        r is Ok <==> alias_str(*j, "zone_id"@, "zoneId"@) is Some && j.field_str("pattern"@) is Some && alias_str(*j, "script_name"@, "scriptName"@) is Some,
        r matches Ok(q) ==> Some(q.zone_id@) == alias_str(*j, "zone_id"@, "zoneId"@) && Some(q.pattern@) == j.field_str("pattern"@) && Some(q.script_name@) == alias_str(*j, "script_name"@, "scriptName"@),
        r matches Err(e) ==> e is Validation,
{
    let zone_id = match req_string2(j, "zone_id", "zoneId") {
        Ok(s) => s,
        Err(e) => return Err(e),
    };
    let pattern = match req_string1(j, "pattern") {
        Ok(s) => s,
        Err(e) => return Err(e),
    };
    let script_name = match req_string2(j, "script_name", "scriptName") {
        Ok(s) => s,
        Err(e) => return Err(e),
    };
    Ok(CreateWorkerRouteRequest { zone_id, pattern, script_name })
}

pub fn parse_update_waf_rule_request(j: &JsonValue) -> (r: Result<UpdateWafRuleRequest, RelayError>)
    ensures
        r is Ok <==> alias_str(*j, "zone_id"@, "zoneId"@) is Some && alias_str(*j, "package_id"@, "packageId"@) is Some && alias_str(*j, "rule_id"@, "ruleId"@) is Some && j.field_str("mode"@) is Some,
        r matches Ok(q) ==> Some(q.zone_id@) == alias_str(*j, "zone_id"@, "zoneId"@) && Some(q.package_id@) == alias_str(*j, "package_id"@, "packageId"@) && Some(q.rule_id@) == alias_str(*j, "rule_id"@, "ruleId"@) && Some(q.mode@) == j.field_str("mode"@),
        r matches Err(e) ==> e is Validation,
{
    let zone_id = match req_string2(j, "zone_id", "zoneId") {
        Ok(s) => s,
        Err(e) => return Err(e),
    };
    let package_id = match req_string2(j, "package_id", "packageId") {
        Ok(s) => s,
        Err(e) => return Err(e),
    };
    let rule_id = match req_string2(j, "rule_id", "ruleId") {
        Ok(s) => s,
        Err(e) => return Err(e),
    };
    let mode = match req_string1(j, "mode") {
        Ok(s) => s,
        Err(e) => return Err(e),
    };
    Ok(UpdateWafRuleRequest { zone_id, package_id, rule_id, mode })
}

pub fn parse_read_kv_value_request(j: &JsonValue) -> (r: Result<ReadKVValueRequest, RelayError>)
    ensures
        r is Ok <==> alias_str(*j, "account_id"@, "accountId"@) is Some && alias_str(*j, "namespace_id"@, "namespaceId"@) is Some && j.field_str("key"@) is Some,
        r matches Ok(q) ==> Some(q.account_id@) == alias_str(*j, "account_id"@, "accountId"@) && Some(q.namespace_id@) == alias_str(*j, "namespace_id"@, "namespaceId"@) && Some(q.key@) == j.field_str("key"@),
        r matches Err(e) ==> e is Validation,
{
    let account_id = match req_string2(j, "account_id", "accountId") {
        Ok(s) => s,
        Err(e) => return Err(e),
    };
    let namespace_id = match req_string2(j, "namespace_id", "namespaceId") {
        Ok(s) => s,
        Err(e) => return Err(e),
    };
    let key = match req_string1(j, "key") {
        Ok(s) => s,
        Err(e) => return Err(e),
    };
    Ok(ReadKVValueRequest { account_id, namespace_id, key })
}

pub fn parse_delete_kv_key_request(j: &JsonValue) -> (r: Result<DeleteKVKeyRequest, RelayError>)
    ensures
        r is Ok <==> alias_str(*j, "account_id"@, "accountId"@) is Some && alias_str(*j, "namespace_id"@, "namespaceId"@) is Some && j.field_str("key"@) is Some,
        r matches Ok(q) ==> Some(q.account_id@) == alias_str(*j, "account_id"@, "accountId"@) && Some(q.namespace_id@) == alias_str(*j, "namespace_id"@, "namespaceId"@) && Some(q.key@) == j.field_str("key"@),
        r matches Err(e) ==> e is Validation,
{
    let account_id = match req_string2(j, "account_id", "accountId") {
        Ok(s) => s,
        Err(e) => return Err(e),
    };
    let namespace_id = match req_string2(j, "namespace_id", "namespaceId") {
        Ok(s) => s,
        Err(e) => return Err(e),
    };
    let key = match req_string1(j, "key") {
        Ok(s) => s,
        Err(e) => return Err(e),
    };
    Ok(DeleteKVKeyRequest { account_id, namespace_id, key })
}

pub fn parse_execute_d1_query_request(j: &JsonValue) -> (r: Result<ExecuteD1QueryRequest, RelayError>)
    ensures
        r is Ok <==> alias_str(*j, "account_id"@, "accountId"@) is Some && alias_str(*j, "database_id"@, "databaseId"@) is Some && j.field_str("query"@) is Some,
        r matches Ok(q) ==> Some(q.account_id@) == alias_str(*j, "account_id"@, "accountId"@) && Some(q.database_id@) == alias_str(*j, "database_id"@, "databaseId"@) && Some(q.query@) == j.field_str("query"@),
        r matches Err(e) ==> e is Validation,
{
    let account_id = match req_string2(j, "account_id", "accountId") {
        Ok(s) => s,
        Err(e) => return Err(e),
    };
    let database_id = match req_string2(j, "database_id", "databaseId") {
        Ok(s) => s,
        Err(e) => return Err(e),
    };
    let query = match req_string1(j, "query") {
        Ok(s) => s,
        Err(e) => return Err(e),
    };
    Ok(ExecuteD1QueryRequest { account_id, database_id, query })
}

pub fn parse_get_analytics_request(j: &JsonValue) -> (r: Result<GetAnalyticsRequest, RelayError>)
    ensures
        r is Ok <==> alias_str(*j, "zone_id"@, "zoneId"@) is Some && alias_str(*j, "time_range"@, "timeRange"@) is Some,
        r matches Ok(q) ==> Some(q.zone_id@) == alias_str(*j, "zone_id"@, "zoneId"@) && Some(q.time_range@) == alias_str(*j, "time_range"@, "timeRange"@),
        r matches Err(e) ==> e is Validation,
{
    let zone_id = match req_string2(j, "zone_id", "zoneId") {
        Ok(s) => s,
        Err(e) => return Err(e),
    };
    let time_range = match req_string2(j, "time_range", "timeRange") {
        Ok(s) => s,
        Err(e) => return Err(e),
    };
    Ok(GetAnalyticsRequest { zone_id, time_range })
}

fn opt_string1(j: &JsonValue, k: &str) -> (r: Result<Option<String>, RelayError>)
    ensures
        r is Ok <==> crate::decode::opt_str_ok(*j, k@),
        r matches Ok(o) ==> crate::decode::opt_str_view(o) == j.field_str(k@),
        r matches Err(e) ==> e is Validation,
{
    match crate::decode::get_opt_string(j, k) {
        Ok(o) => Ok(o),
        Err(()) => Err(bad_request()),
    }
}

pub fn parse_deploy_worker_request(j: &JsonValue) -> (r: Result<DeployWorkerRequest, RelayError>)
    ensures
        r is Ok <==> ({
            &&& alias_str(*j, "zone_id"@, "zoneId"@) is Some
            &&& alias_str(*j, "script_name"@, "scriptName"@) is Some
            &&& alias_str(*j, "target_url"@, "targetUrl"@) is Some
            &&& alias_str(*j, "access_domain"@, "accessDomain"@) is Some
            &&& (match alias_u64(*j, "cache_ttl"@, "cacheTtl"@) {
                Some(n) => n <= 0xffff_ffff,
                None => false,
            })
            &&& alias_str(*j, "cdn_node"@, "cdnNode"@) is Some
        }),
        r matches Ok(q) ==> ({
            &&& Some(q.zone_id@) == alias_str(*j, "zone_id"@, "zoneId"@)
            &&& Some(q.script_name@) == alias_str(*j, "script_name"@, "scriptName"@)
            &&& Some(q.target_url@) == alias_str(*j, "target_url"@, "targetUrl"@)
            &&& Some(q.access_domain@) == alias_str(*j, "access_domain"@, "accessDomain"@)
            &&& alias_u64(*j, "cache_ttl"@, "cacheTtl"@) == Some(q.cache_ttl as u64)
            &&& Some(q.cdn_node@) == alias_str(*j, "cdn_node"@, "cdnNode"@)
        }),
        r matches Err(e) ==> e is Validation,
{
    let zone_id = match req_string2(j, "zone_id", "zoneId") {
        Ok(s) => s,
        Err(e) => return Err(e),
    };
    let script_name = match req_string2(j, "script_name", "scriptName") {
        Ok(s) => s,
        Err(e) => return Err(e),
    };
    let target_url = match req_string2(j, "target_url", "targetUrl") {
        Ok(s) => s,
        Err(e) => return Err(e),
    };
    let access_domain = match req_string2(j, "access_domain", "accessDomain") {
        Ok(s) => s,
        Err(e) => return Err(e),
    };
    let cache_ttl64 = match req_u64_2(j, "cache_ttl", "cacheTtl", 0xffff_ffff) {
        Ok(n) => n,
        Err(e) => return Err(e),
    };
    let cdn_node = match req_string2(j, "cdn_node", "cdnNode") {
        Ok(s) => s,
        Err(e) => return Err(e),
    };
    Ok(DeployWorkerRequest {
        zone_id,
        script_name,
        target_url,
        access_domain,
        cache_ttl: cache_ttl64 as u32,
        cdn_node,
    })
}

pub fn parse_upload_custom_certificate_request(j: &JsonValue) -> (r: Result<
    UploadCustomCertificateRequest,
    RelayError,
>)
    ensures
        r is Ok <==> alias_str(*j, "zone_id"@, "zoneId"@) is Some && j.field_str("certificate"@)
            is Some && j.field_str("private_key"@) is Some && crate::decode::opt_str_ok(
            *j,
            "bundle_method"@,
        ),
        r matches Ok(q) ==> ({
            &&& Some(q.zone_id@) == alias_str(*j, "zone_id"@, "zoneId"@)
            &&& Some(q.certificate@) == j.field_str("certificate"@)
            &&& Some(q.private_key@) == j.field_str("private_key"@)
            &&& crate::decode::opt_str_view(q.bundle_method) == j.field_str("bundle_method"@)
        }),
        r matches Err(e) ==> e is Validation,
{
    let zone_id = match req_string2(j, "zone_id", "zoneId") {
        Ok(s) => s,
        Err(e) => return Err(e),
    };
    let certificate = match req_string1(j, "certificate") {
        Ok(s) => s,
        Err(e) => return Err(e),
    };
    let private_key = match req_string1(j, "private_key") {
        Ok(s) => s,
        Err(e) => return Err(e),
    };
    let bundle_method = match opt_string1(j, "bundle_method") {
        Ok(o) => o,
        Err(e) => return Err(e),
    };
    Ok(UploadCustomCertificateRequest { zone_id, certificate, private_key, bundle_method })
}

pub fn parse_update_waf_package_request(j: &JsonValue) -> (r: Result<
    UpdateWafPackageRequest,
    RelayError,
>)
    ensures
        r is Ok <==> alias_str(*j, "zone_id"@, "zoneId"@) is Some && alias_str(
            *j,
            "package_id"@,
            "packageId"@,
        ) is Some && crate::decode::opt_str_ok(*j, "sensitivity"@) && crate::decode::opt_str_ok(
            *j,
            "action_mode"@,
        ),
        r matches Ok(q) ==> ({
            &&& Some(q.zone_id@) == alias_str(*j, "zone_id"@, "zoneId"@)
            &&& Some(q.package_id@) == alias_str(*j, "package_id"@, "packageId"@)
            &&& crate::decode::opt_str_view(q.sensitivity) == j.field_str("sensitivity"@)
            &&& crate::decode::opt_str_view(q.action_mode) == j.field_str("action_mode"@)
        }),
        r matches Err(e) ==> e is Validation,
{
    let zone_id = match req_string2(j, "zone_id", "zoneId") {
        Ok(s) => s,
        Err(e) => return Err(e),
    };
    let package_id = match req_string2(j, "package_id", "packageId") {
        Ok(s) => s,
        Err(e) => return Err(e),
    };
    let sensitivity = match opt_string1(j, "sensitivity") {
        Ok(o) => o,
        Err(e) => return Err(e),
    };
    let action_mode = match opt_string1(j, "action_mode") {
        Ok(o) => o,
        Err(e) => return Err(e),
    };
    Ok(UpdateWafPackageRequest { zone_id, package_id, sensitivity, action_mode })
}

/// The optimization mode, written in lowercase on the wire.
pub fn parse_optimize_zone_request(j: &JsonValue) -> (r: Result<OptimizeZoneRequest, RelayError>)
    ensures
        r is Ok <==> alias_str(*j, "zone_id"@, "zoneId"@) is Some && (j.field_str("mode"@) == Some(
            "security"@,
        ) || j.field_str("mode"@) == Some("performance"@)),
        r matches Ok(q) ==> ({
            &&& Some(q.zone_id@) == alias_str(*j, "zone_id"@, "zoneId"@)
            &&& (q.mode == OptimizeMode::Security <==> j.field_str("mode"@) == Some("security"@))
        }),
        r matches Err(e) ==> e is Validation,
{
    let zone_id = match req_string2(j, "zone_id", "zoneId") {
        Ok(s) => s,
        Err(e) => return Err(e),
    };
    let mode_s = match req_string1(j, "mode") {
        Ok(s) => s,
        Err(e) => return Err(e),
    };
    let security: String = "security".to_owned();
    let performance: String = "performance".to_owned();
    let mode = if mode_s == security {
        OptimizeMode::Security
    } else if mode_s == performance {
        OptimizeMode::Performance
    } else {
        return Err(bad_request());
    };
    proof {
        reveal_strlit("security");
        reveal_strlit("performance");
        assert("security"@.len() == 8);
        assert("performance"@.len() == 11);
    }
    Ok(OptimizeZoneRequest { zone_id, mode })
}

pub fn parse_purge_cache_request(j: &JsonValue) -> (r: Result<PurgeCacheRequest, RelayError>)
    ensures
        r is Ok <==> ({
            &&& alias_str(*j, "zone_id"@, "zoneId"@) is Some
            &&& (match alias_get(*j, "purge_everything"@, "purgeEverything"@) {
                None => true,
                Some(v) => v is Null || v is Bool,
            })
            &&& crate::decode::opt_str_list_ok(*j, "files"@)
            &&& crate::decode::opt_str_list_ok(*j, "tags"@)
        }),
        r matches Ok(q) ==> ({
            &&& Some(q.zone_id@) == alias_str(*j, "zone_id"@, "zoneId"@)
            &&& q.purge_everything == alias_bool(*j, "purge_everything"@, "purgeEverything"@)
            &&& crate::decode::opt_str_list_matches(q.files, *j, "files"@)
            &&& crate::decode::opt_str_list_matches(q.tags, *j, "tags"@)
        }),
        r matches Err(e) ==> e is Validation,
{
    let zone_id = match req_string2(j, "zone_id", "zoneId") {
        Ok(s) => s,
        Err(e) => return Err(e),
    };
    let pe_val = match j.get("purge_everything") {
        Some(v) => Some(v),
        None => j.get("purgeEverything"),
    };
    let purge_everything: Option<bool> = match pe_val {
        None => None,
        Some(JsonValue::Null) => None,
        Some(JsonValue::Bool(b)) => Some(*b),
        Some(_) => return Err(bad_request()),
    };
    let files = match crate::decode::get_opt_string_list(j, "files") {
        Ok(o) => o,
        Err(()) => return Err(bad_request()),
    };
    let tags = match crate::decode::get_opt_string_list(j, "tags") {
        Ok(o) => o,
        Err(()) => return Err(bad_request()),
    };
    Ok(PurgeCacheRequest { zone_id, purge_everything, files, tags })
}

/// One entry of a settings batch: a setting id and an arbitrary value.
pub open spec fn inbound_setting_ok(e: JsonValue) -> bool {
    e.field_str("id"@) is Some && e.spec_get("value"@) is Some
}

pub open spec fn inbound_setting_matches(e: JsonValue, s: UpdateSetting) -> bool {
    Some(s.id@) == e.field_str("id"@) && e.spec_get("value"@) == Some(s.value)
}

pub open spec fn inbound_settings_ok(items: Seq<JsonValue>) -> bool {
    forall|i: int| 0 <= i < items.len() ==> inbound_setting_ok(items[i])
}

pub open spec fn inbound_settings_match(items: Seq<JsonValue>, v: Seq<UpdateSetting>) -> bool {
    v.len() == items.len() && (forall|i: int| #![trigger v[i]]
        0 <= i < items.len() ==> inbound_setting_matches(items[i], v[i]))
}

pub fn parse_update_zone_settings_request(j: JsonValue) -> (r: Result<
    UpdateZoneSettingsRequest,
    RelayError,
>)
    ensures
        r is Ok <==> alias_str(j, "zone_id"@, "zoneId"@) is Some && (match j.field_arr(
            "settings"@,
        ) {
            Some(items) => inbound_settings_ok(items),
            None => false,
        }),
        r matches Ok(q) ==> ({
            &&& Some(q.zone_id@) == alias_str(j, "zone_id"@, "zoneId"@)
            &&& (match j.field_arr("settings"@) {
                Some(items) => inbound_settings_match(items, q.settings@),
                None => false,
            })
        }),
        r matches Err(e) ==> e is Validation,
{
    let zone_id = match req_string2(&j, "zone_id", "zoneId") {
        Ok(s) => s,
        Err(e) => return Err(e),
    };
    let items = match j.take("settings") {
        Some(v) => match v.into_arr() {
            Some(items) => items,
            None => return Err(bad_request()),
        },
        None => return Err(bad_request()),
    };
    let ghost orig = items@;
    let n = items.len();
    let mut rest = items;
    let mut settings: Vec<UpdateSetting> = Vec::new();
    let mut done: usize = 0;
    while done < n
        invariant
            j.field_arr("settings"@) == Some(orig),
            n == orig.len(),
            done <= n,
            settings@.len() == done,
            rest@ == orig.skip(done as int),
            inbound_settings_ok(orig.take(done as int)),
            inbound_settings_match(orig.take(done as int), settings@),
        decreases n - done,
    {
        let e = rest.remove(0);
        proof {
            assert(e == orig.skip(done as int)[0]);
            assert(orig.skip(done as int)[0] == orig[done as int]);
            assert(rest@ =~= orig.skip(done as int + 1));
        }
        let id = match e.get_string("id") {
            Some(s) => s,
            None => {
                proof {
                    assert(0 <= done < orig.len() && !inbound_setting_ok(orig[done as int]));
                    assert(!inbound_settings_ok(orig));
                }
                return Err(bad_request());
            },
        };
        let value = match e.take("value") {
            Some(v) => v,
            None => {
                proof {
                    assert(0 <= done < orig.len() && !inbound_setting_ok(orig[done as int]));
                    assert(!inbound_settings_ok(orig));
                }
                return Err(bad_request());
            },
        };
        let entry = UpdateSetting { id, value };
        let ghost prev = settings@;
        settings.push(entry);
        proof {
            let d = done as int;
            let tk = orig.take(d + 1);
            assert(inbound_setting_ok(orig[d]));
            assert(inbound_setting_matches(orig[d], entry));
            assert(settings@ == prev.push(entry));
            assert forall|k: int| 0 <= k < tk.len() implies inbound_setting_ok(tk[k]) by {
                assert(tk[k] == orig[k]);
                if k < d {
                    assert(orig.take(d)[k] == orig[k]);
                    assert(inbound_setting_ok(orig.take(d)[k]));
                }
            }
            assert(inbound_settings_ok(tk));
            assert forall|k: int| 0 <= k < tk.len() implies inbound_setting_matches(
                tk[k],
                settings@[k],
            ) by {
                assert(tk[k] == orig[k]);
                if k < d {
                    assert(orig.take(d)[k] == orig[k]);
                    assert(settings@[k] == prev[k]);
                    assert(inbound_setting_matches(orig.take(d)[k], prev[k]));
                } else {
                    assert(settings@[k] == entry);
                }
            }
            assert(inbound_settings_match(tk, settings@));
        }
        done += 1;
    }
    proof {
        assert(orig.take(done as int) =~= orig);
    }
    Ok(UpdateZoneSettingsRequest { zone_id, settings })
}

pub fn parse_create_firewall_rule_request(j: &JsonValue) -> (r: Result<
    CreateFirewallRuleRequest,
    RelayError,
>)
    ensures
        r is Ok <==> alias_str(*j, "zone_id"@, "zoneId"@) is Some && (match j.spec_get("rule"@) {
            Some(rj) => crate::decode::firewall_rule_ok(rj),
            None => false,
        }),
        r matches Ok(q) ==> ({
            &&& Some(q.zone_id@) == alias_str(*j, "zone_id"@, "zoneId"@)
            &&& (match j.spec_get("rule"@) {
                Some(rj) => crate::decode::firewall_rule_matches(rj, q.rule),
                None => false,
            })
        }),
        r matches Err(e) ==> e is Validation,
{
    let zone_id = match req_string2(j, "zone_id", "zoneId") {
        Ok(s) => s,
        Err(e) => return Err(e),
    };
    let rule = match j.get("rule") {
        Some(rj) => match crate::decode::decode_firewall_rule(rj) {
            Ok(fr) => fr,
            Err(()) => return Err(bad_request()),
        },
        None => return Err(bad_request()),
    };
    Ok(CreateFirewallRuleRequest { zone_id, rule })
}

pub fn parse_update_firewall_rule_request(j: &JsonValue) -> (r: Result<
    UpdateFirewallRuleRequest,
    RelayError,
>)
    ensures
        r is Ok <==> alias_str(*j, "zone_id"@, "zoneId"@) is Some && alias_str(
            *j,
            "rule_id"@,
            "ruleId"@,
        ) is Some && (match j.spec_get("rule"@) {
            Some(rj) => crate::decode::firewall_rule_ok(rj),
            None => false,
        }),
        r matches Ok(q) ==> ({
            &&& Some(q.zone_id@) == alias_str(*j, "zone_id"@, "zoneId"@)
            &&& Some(q.rule_id@) == alias_str(*j, "rule_id"@, "ruleId"@)
            &&& (match j.spec_get("rule"@) {
                Some(rj) => crate::decode::firewall_rule_matches(rj, q.rule),
                None => false,
            })
        }),
        r matches Err(e) ==> e is Validation,
{
    let zone_id = match req_string2(j, "zone_id", "zoneId") {
        Ok(s) => s,
        Err(e) => return Err(e),
    };
    let rule_id = match req_string2(j, "rule_id", "ruleId") {
        Ok(s) => s,
        Err(e) => return Err(e),
    };
    let rule = match j.get("rule") {
        Some(rj) => match crate::decode::decode_firewall_rule(rj) {
            Ok(fr) => fr,
            Err(()) => return Err(bad_request()),
        },
        None => return Err(bad_request()),
    };
    Ok(UpdateFirewallRuleRequest { zone_id, rule_id, rule })
}

pub fn parse_create_page_rule_request(j: JsonValue) -> (r: Result<
    CreatePageRuleRequest,
    RelayError,
>)
    ensures
        r is Ok <==> alias_str(j, "zone_id"@, "zoneId"@) is Some && (match j.spec_get("rule"@) {
            Some(rj) => page_rule_ok(rj),
            None => false,
        }),
        r matches Ok(q) ==> ({
            &&& Some(q.zone_id@) == alias_str(j, "zone_id"@, "zoneId"@)
            &&& (match j.spec_get("rule"@) {
                Some(rj) => page_rule_matches(rj, q.rule),
                None => false,
            })
        }),
        r matches Err(e) ==> e is Validation,
{
    let zone_id = match req_string2(&j, "zone_id", "zoneId") {
        Ok(s) => s,
        Err(e) => return Err(e),
    };
    let rule = match j.take("rule") {
        Some(rj) => match decode_page_rule(rj) {
            Ok(p) => p,
            Err(()) => return Err(bad_request()),
        },
        None => return Err(bad_request()),
    };
    Ok(CreatePageRuleRequest { zone_id, rule })
}

pub fn parse_update_page_rule_request(j: JsonValue) -> (r: Result<
    UpdatePageRuleRequest,
    RelayError,
>)
    ensures
        r is Ok <==> alias_str(j, "zone_id"@, "zoneId"@) is Some && alias_str(
            j,
            "rule_id"@,
            "ruleId"@,
        ) is Some && (match j.spec_get("rule"@) {
            Some(rj) => page_rule_ok(rj),
            None => false,
        }),
        r matches Ok(q) ==> ({
            &&& Some(q.zone_id@) == alias_str(j, "zone_id"@, "zoneId"@)
            &&& Some(q.rule_id@) == alias_str(j, "rule_id"@, "ruleId"@)
            &&& (match j.spec_get("rule"@) {
                Some(rj) => page_rule_matches(rj, q.rule),
                None => false,
            })
        }),
        r matches Err(e) ==> e is Validation,
{
    let zone_id = match req_string2(&j, "zone_id", "zoneId") {
        Ok(s) => s,
        Err(e) => return Err(e),
    };
    let rule_id = match req_string2(&j, "rule_id", "ruleId") {
        Ok(s) => s,
        Err(e) => return Err(e),
    };
    let rule = match j.take("rule") {
        Some(rj) => match decode_page_rule(rj) {
            Ok(p) => p,
            Err(()) => return Err(bad_request()),
        },
        None => return Err(bad_request()),
    };
    Ok(UpdatePageRuleRequest { zone_id, rule_id, rule })
}

pub fn parse_create_rate_limit_request(j: &JsonValue) -> (r: Result<
    CreateRateLimitRequest,
    RelayError,
>)
    ensures
        r is Ok <==> ({
            &&& alias_str(*j, "zone_id"@, "zoneId"@) is Some
            &&& j.field_bool("disabled"@) is Some
            &&& j.field_str("description"@) is Some
            &&& (match j.spec_get("match_request"@) {
                Some(m) => match_request_ok(m),
                None => false,
            })
            &&& crate::decode::req_uint_ok(*j, "threshold"@, 0xffff_ffff)
            &&& crate::decode::req_uint_ok(*j, "period"@, 0xffff_ffff)
            &&& (match j.spec_get("action"@) {
                Some(a) => rl_action_ok(a),
                None => false,
            })
        }),
        r matches Ok(q) ==> ({
            &&& Some(q.zone_id@) == alias_str(*j, "zone_id"@, "zoneId"@)
            &&& j.field_bool("disabled"@) == Some(q.disabled)
            &&& Some(q.description@) == j.field_str("description"@)
            &&& (match j.spec_get("match_request"@) {
                Some(m) => match_request_matches(m, q.match_request),
                None => false,
            })
            &&& j.field_u64("threshold"@) == Some(q.threshold as u64)
            &&& j.field_u64("period"@) == Some(q.period as u64)
            &&& (match j.spec_get("action"@) {
                Some(a) => rl_action_matches(a, q.action),
                None => false,
            })
        }),
        r matches Err(e) ==> e is Validation,
{
    let zone_id = match req_string2(j, "zone_id", "zoneId") {
        Ok(s) => s,
        Err(e) => return Err(e),
    };
    let disabled = match crate::decode::get_req_bool(j, "disabled") {
        Ok(b) => b,
        Err(()) => return Err(bad_request()),
    };
    let description = match req_string1(j, "description") {
        Ok(s) => s,
        Err(e) => return Err(e),
    };
    let match_request = match j.get("match_request") {
        Some(m) => match decode_match_request(m) {
            Ok(mr) => mr,
            Err(()) => return Err(bad_request()),
        },
        None => return Err(bad_request()),
    };
    let threshold64 = match crate::decode::get_req_u64_max(j, "threshold", 0xffff_ffff) {
        Ok(n) => n,
        Err(()) => return Err(bad_request()),
    };
    let period64 = match crate::decode::get_req_u64_max(j, "period", 0xffff_ffff) {
        Ok(n) => n,
        Err(()) => return Err(bad_request()),
    };
    let action = match j.get("action") {
        Some(a) => match decode_rl_action(a) {
            Ok(ac) => ac,
            Err(()) => return Err(bad_request()),
        },
        None => return Err(bad_request()),
    };
    Ok(CreateRateLimitRequest {
        zone_id,
        disabled,
        description,
        match_request,
        threshold: threshold64 as u32,
        period: period64 as u32,
        action,
    })
}

pub fn parse_update_rate_limit_request(j: &JsonValue) -> (r: Result<
    UpdateRateLimitRequest,
    RelayError,
>)
    ensures
        r is Ok <==> ({
            &&& alias_str(*j, "zone_id"@, "zoneId"@) is Some
            &&& alias_str(*j, "rate_limit_id"@, "rateLimitId"@) is Some
            &&& j.field_bool("disabled"@) is Some
            &&& j.field_str("description"@) is Some
            &&& (match j.spec_get("match_request"@) {
                Some(m) => match_request_ok(m),
                None => false,
            })
            &&& crate::decode::req_uint_ok(*j, "threshold"@, 0xffff_ffff)
            &&& crate::decode::req_uint_ok(*j, "period"@, 0xffff_ffff)
            &&& (match j.spec_get("action"@) {
                Some(a) => rl_action_ok(a),
                None => false,
            })
        }),
        r matches Ok(q) ==> ({
            &&& Some(q.zone_id@) == alias_str(*j, "zone_id"@, "zoneId"@)
            &&& Some(q.rate_limit_id@) == alias_str(*j, "rate_limit_id"@, "rateLimitId"@)
            &&& j.field_bool("disabled"@) == Some(q.disabled)
            &&& Some(q.description@) == j.field_str("description"@)
            &&& (match j.spec_get("match_request"@) {
                Some(m) => match_request_matches(m, q.match_request),
                None => false,
            })
            &&& j.field_u64("threshold"@) == Some(q.threshold as u64)
            &&& j.field_u64("period"@) == Some(q.period as u64)
            &&& (match j.spec_get("action"@) {
                Some(a) => rl_action_matches(a, q.action),
                None => false,
            })
        }),
        r matches Err(e) ==> e is Validation,
{
    let zone_id = match req_string2(j, "zone_id", "zoneId") {
        Ok(s) => s,
        Err(e) => return Err(e),
    };
    let rate_limit_id = match req_string2(j, "rate_limit_id", "rateLimitId") {
        Ok(s) => s,
        Err(e) => return Err(e),
    };
    let disabled = match crate::decode::get_req_bool(j, "disabled") {
        Ok(b) => b,
        Err(()) => return Err(bad_request()),
    };
    let description = match req_string1(j, "description") {
        Ok(s) => s,
        Err(e) => return Err(e),
    };
    let match_request = match j.get("match_request") {
        Some(m) => match decode_match_request(m) {
            Ok(mr) => mr,
            Err(()) => return Err(bad_request()),
        },
        None => return Err(bad_request()),
    };
    let threshold64 = match crate::decode::get_req_u64_max(j, "threshold", 0xffff_ffff) {
        Ok(n) => n,
        Err(()) => return Err(bad_request()),
    };
    let period64 = match crate::decode::get_req_u64_max(j, "period", 0xffff_ffff) {
        Ok(n) => n,
        Err(()) => return Err(bad_request()),
    };
    let action = match j.get("action") {
        Some(a) => match decode_rl_action(a) {
            Ok(ac) => ac,
            Err(()) => return Err(bad_request()),
        },
        None => return Err(bad_request()),
    };
    Ok(UpdateRateLimitRequest {
        zone_id,
        rate_limit_id,
        disabled,
        description,
        match_request,
        threshold: threshold64 as u32,
        period: period64 as u32,
        action,
    })
}

pub fn parse_list_kv_keys_request(j: &JsonValue) -> (r: Result<ListKVKeysRequest, RelayError>)
    ensures
        r is Ok <==> alias_str(*j, "account_id"@, "accountId"@) is Some && alias_str(
            *j,
            "namespace_id"@,
            "namespaceId"@,
        ) is Some && crate::decode::opt_str_ok(*j, "prefix"@),
        r matches Ok(q) ==> ({
            &&& Some(q.account_id@) == alias_str(*j, "account_id"@, "accountId"@)
            &&& Some(q.namespace_id@) == alias_str(*j, "namespace_id"@, "namespaceId"@)
            &&& crate::decode::opt_str_view(q.prefix) == j.field_str("prefix"@)
        }),
        r matches Err(e) ==> e is Validation,
{
    let account_id = match req_string2(j, "account_id", "accountId") {
        Ok(s) => s,
        Err(e) => return Err(e),
    };
    let namespace_id = match req_string2(j, "namespace_id", "namespaceId") {
        Ok(s) => s,
        Err(e) => return Err(e),
    };
    let prefix = match opt_string1(j, "prefix") {
        Ok(o) => o,
        Err(e) => return Err(e),
    };
    Ok(ListKVKeysRequest { account_id, namespace_id, prefix })
}

pub fn parse_write_kv_value_request(j: JsonValue) -> (r: Result<WriteKVValueRequest, RelayError>)
    ensures
        r is Ok <==> ({
            &&& alias_str(j, "account_id"@, "accountId"@) is Some
            &&& alias_str(j, "namespace_id"@, "namespaceId"@) is Some
            &&& j.field_str("key"@) is Some
            &&& j.field_str("value"@) is Some
            &&& (match alias_get(j, "expiration_ttl"@, "expirationTtl"@) {
                None => true,
                Some(v) => v is Null || v.spec_u64() is Some,
            })
        }),
        r matches Ok(q) ==> ({
            &&& Some(q.account_id@) == alias_str(j, "account_id"@, "accountId"@)
            &&& Some(q.namespace_id@) == alias_str(j, "namespace_id"@, "namespaceId"@)
            &&& Some(q.key@) == j.field_str("key"@)
            &&& Some(q.value@) == j.field_str("value"@)
            &&& q.expiration_ttl == alias_u64(j, "expiration_ttl"@, "expirationTtl"@)
            &&& (match q.metadata {
                Some(m) => j.spec_get("metadata"@) == Some(m) && !(m is Null),
                None => (match j.spec_get("metadata"@) {
                    None => true,
                    Some(v) => v is Null,
                }),
            })
        }),
        r matches Err(e) ==> e is Validation,
{
    let account_id = match req_string2(&j, "account_id", "accountId") {
        Ok(s) => s,
        Err(e) => return Err(e),
    };
    let namespace_id = match req_string2(&j, "namespace_id", "namespaceId") {
        Ok(s) => s,
        Err(e) => return Err(e),
    };
    let key = match req_string1(&j, "key") {
        Ok(s) => s,
        Err(e) => return Err(e),
    };
    let value = match req_string1(&j, "value") {
        Ok(s) => s,
        Err(e) => return Err(e),
    };
    let ttl_val = match j.get("expiration_ttl") {
        Some(v) => Some(v),
        None => j.get("expirationTtl"),
    };
    let expiration_ttl: Option<u64> = match ttl_val {
        None => None,
        Some(JsonValue::Null) => None,
        Some(other) => match other.as_u64() {
            Some(n) => Some(n),
            None => return Err(bad_request()),
        },
    };
    let metadata = match j.take("metadata") {
        Some(v) => match v {
            JsonValue::Null => None,
            other => Some(other),
        },
        None => None,
    };
    Ok(WriteKVValueRequest { account_id, namespace_id, key, value, expiration_ttl, metadata })
}


} // verus!
