use cloudflare_relay::credentials::{bearer_header_value, trim_str, CloudflareCredentials};
use cloudflare_relay::envelope::{unwrap_envelope, ApiResponse};
use cloudflare_relay::error::RelayError;
use cloudflare_relay::inbound::{
    parse_credentials, parse_dns_record, parse_get_dns_records_request, parse_purge_cache_request,
    parse_update_zone_settings_request,
};
use cloudflare_relay::json::JsonValue;
use cloudflare_relay::ops_cache::purge_cache_request;
use cloudflare_relay::ops_dns::{
    create_dns_record_request, delete_dns_record_response, dns_record_response,
    dns_record_to_json, get_dns_records_request,
};
use cloudflare_relay::ops_firewall::{
    create_firewall_rule_response, firewall_filter_request, firewall_filter_response,
    firewall_rule_create_request,
};
use cloudflare_relay::ops_kv::{
    list_kv_keys_request, raw_list_response, read_kv_value_response, write_kv_value_request,
};
use cloudflare_relay::ops_d1::execute_d1_query_response;
use cloudflare_relay::ops_settings::{
    performance_settings, security_settings, settings_batch_new, setting_update_response,
};
use cloudflare_relay::ops_workers::{deploy_worker_request, upload_worker_request};
use cloudflare_relay::ops_zones::get_zones_response;
use cloudflare_relay::types::{
    DeployWorkerRequest, DnsRecord, FirewallFilter, FirewallRule, PurgeCacheRequest,
};
use cloudflare_relay::upstream::{HttpMethod, RequestBody};

fn s(x: &str) -> JsonValue {
    JsonValue::Str(x.to_string())
}

fn obj(pairs: Vec<(&str, JsonValue)>) -> JsonValue {
    JsonValue::Obj(pairs.into_iter().map(|(k, v)| (k.to_string(), v)).collect())
}

fn arr(items: Vec<JsonValue>) -> JsonValue {
    JsonValue::Arr(items)
}

fn env_ok(result: JsonValue) -> JsonValue {
    obj(vec![("success", JsonValue::Bool(true)), ("result", result)])
}

fn env_fail(message: &str) -> JsonValue {
    obj(vec![
        ("success", JsonValue::Bool(false)),
        ("errors", arr(vec![obj(vec![("message", s(message))])])),
    ])
}

// --- credentials ---

#[test]
fn credentials_valid_iff_trimmed_nonempty() {
    assert!(CloudflareCredentials { api_token: "abc".to_string() }.is_valid());
    assert!(CloudflareCredentials { api_token: "  x  ".to_string() }.is_valid());
    assert!(!CloudflareCredentials { api_token: "".to_string() }.is_valid());
    assert!(!CloudflareCredentials { api_token: "   \t\n".to_string() }.is_valid());
}

#[test]
fn trim_removes_surrounding_whitespace() {
    assert_eq!(trim_str("  tok  "), "tok");
    assert_eq!(trim_str("tok"), "tok");
    assert_eq!(trim_str("   "), "");
}

#[test]
fn bearer_header_uses_trimmed_token() {
    let creds = CloudflareCredentials { api_token: "  secret-token ".to_string() };
    assert_eq!(bearer_header_value(&creds), "Bearer secret-token");
}

#[test]
fn token_spellings_map_to_same_value() {
    let j1 = obj(vec![("credentials", obj(vec![("api_token", s("t-1"))]))]);
    let j2 = obj(vec![("credentials", obj(vec![("apiToken", s("t-1"))]))]);
    let c1 = parse_credentials(&j1).unwrap();
    let c2 = parse_credentials(&j2).unwrap();
    assert_eq!(c1.api_token, c2.api_token);
    assert_eq!(c1.api_token, "t-1");
    assert!(parse_credentials(&obj(vec![])).is_err());
}

// --- envelope ---

#[test]
fn api_response_constructors() {
    let ok: ApiResponse<u32> = ApiResponse::success(7);
    assert!(ok.success);
    assert_eq!(ok.data, Some(7));
    assert!(ok.error.is_none());
    let err: ApiResponse<u32> = ApiResponse::error("boom".to_string());
    assert!(!err.success);
    assert!(err.data.is_none());
    assert_eq!(err.error, Some("boom".to_string()));
}

#[test]
fn envelope_success_yields_result() {
    let body = env_ok(s("payload"));
    match unwrap_envelope(200, body) {
        Ok(JsonValue::Str(v)) => assert_eq!(v, "payload"),
        other => panic!("unexpected: {:?}", other.is_ok()),
    }
}

#[test]
fn envelope_failure_reports_first_error_message() {
    let body = env_fail("token is bad");
    match unwrap_envelope(403, body) {
        Err(e) => assert_eq!(e.message(), "API error (403): token is bad"),
        Ok(_) => panic!("should fail"),
    }
}

#[test]
fn envelope_missing_success_is_failure() {
    let body = obj(vec![("result", s("x"))]);
    match unwrap_envelope(500, body) {
        Err(e) => assert_eq!(e.message(), "API error (500): Unknown error"),
        Ok(_) => panic!("should fail"),
    }
}

// --- DNS round trip ---

fn sample_record() -> DnsRecord {
    DnsRecord {
        id: None,
        zone_id: Some("z1".to_string()),
        record_type: "A".to_string(),
        name: "x".to_string(),
        content: "1.2.3.4".to_string(),
        ttl: 1,
        proxied: false,
        priority: None,
    }
}

#[test]
fn dns_record_round_trip_preserves_fields() {
    let rec = sample_record();
    let sent = dns_record_to_json(&rec);
    // upstream echoes the stored record back, with a server-assigned id
    let mut echoed = match sent {
        JsonValue::Obj(entries) => entries,
        _ => panic!("object expected"),
    };
    echoed.insert(0, ("id".to_string(), s("rec-9")));
    let reply = env_ok(JsonValue::Obj(echoed));
    let fetched = dns_record_response(200, reply).unwrap();
    assert_eq!(fetched.id, Some("rec-9".to_string()));
    assert_eq!(fetched.record_type, "A");
    assert_eq!(fetched.name, "x");
    assert_eq!(fetched.content, "1.2.3.4");
    assert_eq!(fetched.ttl, 1);
    assert!(!fetched.proxied);
    assert_eq!(fetched.priority, None);
}

#[test]
fn create_dns_record_requires_zone_id() {
    let mut rec = sample_record();
    let req = create_dns_record_request(&rec).unwrap();
    assert_eq!(req.method, HttpMethod::Post);
    assert_eq!(req.path, "/zones/z1/dns_records");
    rec.zone_id = None;
    match create_dns_record_request(&rec) {
        Err(e) => assert_eq!(e.message(), "Zone ID is required for creating DNS record"),
        Ok(_) => panic!("should fail"),
    }
}

#[test]
fn dns_paths() {
    let req = get_dns_records_request("zone-7");
    assert_eq!(req.path, "/zones/zone-7/dns_records");
    let del = delete_dns_record_response(200, env_ok(JsonValue::Null), "rid-1").unwrap();
    assert_eq!(del, "rid-1");
}

#[test]
fn inbound_dns_record_accepts_aliases_and_defaults() {
    let j = obj(vec![
        ("zoneId", s("z2")),
        ("recordType", s("TXT")),
        ("name", s("n")),
        ("content", s("c")),
    ]);
    let d = parse_dns_record(&j).unwrap();
    assert_eq!(d.zone_id, Some("z2".to_string()));
    assert_eq!(d.record_type, "TXT");
    assert_eq!(d.ttl, 1);
    assert!(!d.proxied);
    let q = parse_get_dns_records_request(&obj(vec![("zoneId", s("zz"))])).unwrap();
    assert_eq!(q.zone_id, "zz");
}

// --- purge limits ---

fn purge_with_files(n: usize) -> PurgeCacheRequest {
    PurgeCacheRequest {
        zone_id: "z".to_string(),
        purge_everything: None,
        files: Some((0..n).map(|i| format!("https://e.com/{}", i)).collect()),
        tags: None,
    }
}

#[test]
fn purge_thirty_one_files_rejected_locally() {
    match purge_cache_request(&purge_with_files(31)) {
        Err(RelayError::Validation(m)) => assert_eq!(m, "Maximum 30 files allowed per request"),
        _ => panic!("should be rejected"),
    }
}

#[test]
fn purge_thirty_files_forwarded() {
    let req = purge_cache_request(&purge_with_files(30)).unwrap();
    assert_eq!(req.method, HttpMethod::Post);
    assert_eq!(req.path, "/zones/z/purge_cache");
    match req.body {
        RequestBody::Json(j) => match j.get("files") {
            Some(JsonValue::Arr(items)) => assert_eq!(items.len(), 30),
            _ => panic!("files list expected"),
        },
        _ => panic!("json body expected"),
    }
}

#[test]
fn purge_thirty_one_tags_rejected() {
    let req = PurgeCacheRequest {
        zone_id: "z".to_string(),
        purge_everything: None,
        files: None,
        tags: Some((0..31).map(|i| format!("t{}", i)).collect()),
    };
    match purge_cache_request(&req) {
        Err(RelayError::Validation(m)) => assert_eq!(m, "Maximum 30 tags allowed per request"),
        _ => panic!("should be rejected"),
    }
}

#[test]
fn purge_without_selector_rejected() {
    let req = PurgeCacheRequest {
        zone_id: "z".to_string(),
        purge_everything: None,
        files: None,
        tags: None,
    };
    match purge_cache_request(&req) {
        Err(RelayError::Validation(m)) => {
            assert_eq!(m, "Must specify purge_everything, files, or tags")
        },
        _ => panic!("should be rejected"),
    }
    let every = PurgeCacheRequest {
        zone_id: "z".to_string(),
        purge_everything: Some(true),
        files: None,
        tags: None,
    };
    let u = purge_cache_request(&every).unwrap();
    match u.body {
        RequestBody::Json(j) => assert_eq!(j.get_bool("purge_everything"), Some(true)),
        _ => panic!("json body expected"),
    }
}

#[test]
fn inbound_purge_accepts_camel_case() {
    let j = obj(vec![
        ("zoneId", s("z")),
        ("purgeEverything", JsonValue::Bool(true)),
    ]);
    let q = parse_purge_cache_request(&j).unwrap();
    assert_eq!(q.purge_everything, Some(true));
}

// --- firewall two-step ---

fn sample_rule() -> FirewallRule {
    FirewallRule {
        id: None,
        filter: FirewallFilter {
            id: None,
            expression: "ip.src eq 1.1.1.1".to_string(),
            description: None,
        },
        action: "block".to_string(),
        description: Some("test rule".to_string()),
        paused: false,
    }
}

#[test]
fn firewall_filter_request_shape() {
    let req = firewall_filter_request("z9", &sample_rule());
    assert_eq!(req.method, HttpMethod::Post);
    assert_eq!(req.path, "/zones/z9/filters");
    match req.body {
        RequestBody::Json(JsonValue::Arr(items)) => {
            assert_eq!(items.len(), 1);
            assert_eq!(
                items[0].get_string("expression"),
                Some("ip.src eq 1.1.1.1".to_string())
            );
        },
        _ => panic!("array body expected"),
    }
}

#[test]
fn firewall_rule_fails_with_rule_step_error_after_filter_success() {
    // step one accepted: the filter id arrives
    let filter_reply = env_ok(arr(vec![obj(vec![("id", s("flt-1"))])]));
    let filter_id = firewall_filter_response(200, filter_reply).unwrap();
    assert_eq!(filter_id, "flt-1");
    let rule_req = firewall_rule_create_request("z9", &filter_id, &sample_rule());
    assert_eq!(rule_req.path, "/zones/z9/firewall/rules");
    // step two rejected: the operation reports the rule step's error
    let rule_reply = env_fail("rule rejected");
    match create_firewall_rule_response(400, rule_reply) {
        Err(e) => assert_eq!(e.message(), "API error (400): rule rejected"),
        Ok(_) => panic!("should fail"),
    }
}

#[test]
fn firewall_filter_without_id_fails_fast() {
    let filter_reply = env_ok(arr(vec![obj(vec![("expression", s("x"))])]));
    match firewall_filter_response(200, filter_reply) {
        Err(e) => assert_eq!(e.message(), "Failed to get filter ID"),
        Ok(_) => panic!("should fail"),
    }
}

// --- settings batch and presets ---

#[test]
fn security_preset_has_twelve_entries() {
    let v = security_settings();
    assert_eq!(v.len(), 12);
    assert_eq!(v[0].id, "security_level");
    assert_eq!(v[11].id, "browser_cache_ttl");
}

#[test]
fn performance_preset_issues_eleven_calls_and_stops_on_failure() {
    let v = performance_settings();
    assert_eq!(v.len(), 11);
    assert_eq!(v[0].id, "cache_level");
    assert_eq!(v[10].id, "0rtt");
    let mut batch = settings_batch_new("zz".to_string(), performance_settings());
    let mut issued = 0usize;
    let mut aborted = false;
    loop {
        match batch.next_request() {
            None => break,
            Some((setting_id, req)) => {
                issued += 1;
                assert_eq!(req.method, HttpMethod::Patch);
                // the sixth upstream call fails; the driver stops the batch
                let reply = if issued == 6 {
                    env_fail("bad setting")
                } else {
                    env_ok(JsonValue::Null)
                };
                match setting_update_response(200, reply, &setting_id) {
                    Ok(()) => (),
                    Err(e) => {
                        // the error names the entry that stopped the batch
                        assert_eq!(setting_id, "early_hints");
                        assert_eq!(
                            e.message(),
                            "API error (200): for setting early_hints: bad setting"
                        );
                        batch.record_failure();
                        aborted = true;
                        break;
                    },
                }
            },
        }
    }
    assert!(aborted);
    assert_eq!(issued, 6);
    assert_eq!(batch.issued, 6);
    // five entries were never issued
    assert_eq!(batch.remaining.len(), 5);
}

#[test]
fn performance_preset_patch_paths() {
    let mut batch = settings_batch_new("zone-1".to_string(), performance_settings());
    let (first_id, first) = batch.next_request().unwrap();
    assert_eq!(first_id, "cache_level");
    assert_eq!(first.path, "/zones/zone-1/settings/cache_level");
}

#[test]
fn inbound_settings_batch_parse() {
    let j = obj(vec![
        ("zoneId", s("z")),
        (
            "settings",
            arr(vec![
                obj(vec![("id", s("ssl")), ("value", s("strict"))]),
                obj(vec![("id", s("challenge_ttl")), ("value", JsonValue::Int(1800))]),
            ]),
        ),
    ]);
    let q = parse_update_zone_settings_request(j).unwrap();
    assert_eq!(q.settings.len(), 2);
    assert_eq!(q.settings[1].id, "challenge_ttl");
}

// --- workers ---

#[test]
fn generated_worker_script_embeds_configuration() {
    let req = DeployWorkerRequest {
        zone_id: "z".to_string(),
        script_name: "edge".to_string(),
        target_url: "https://origin.example".to_string(),
        access_domain: "edge.example".to_string(),
        cache_ttl: 300,
        cdn_node: "auto".to_string(),
    };
    let u = deploy_worker_request(&req);
    assert_eq!(u.path, "/accounts/workers/scripts/edge");
    match u.body {
        RequestBody::Script(script) => {
            assert!(script.contains("const targetUrl = 'https://origin.example';"));
            assert!(script.contains("const cacheTtl = 300;"));
            assert!(script.contains("caches.default"));
        },
        _ => panic!("script body expected"),
    }
}

#[test]
fn upload_worker_metadata_is_fixed() {
    let u = upload_worker_request("acc", "w1", "export default {}");
    match u.body {
        RequestBody::Multipart { metadata_part, script_part } => {
            assert_eq!(
                metadata_part,
                "{\"main_module\":\"worker.js\",\"compatibility_date\":\"2024-01-01\"}"
            );
            assert_eq!(script_part, "export default {}");
        },
        _ => panic!("multipart body expected"),
    }
}

// --- zones ---

#[test]
fn zones_response_strict_decode() {
    let reply = env_ok(arr(vec![obj(vec![
        ("id", s("z1")),
        ("name", s("example.com")),
        ("status", s("active")),
        ("name_servers", arr(vec![s("ns1"), s("ns2")])),
    ])]));
    let zones = get_zones_response(200, reply).unwrap();
    assert_eq!(zones.len(), 1);
    assert_eq!(zones[0].name, "example.com");
    assert_eq!(zones[0].name_servers, vec!["ns1".to_string(), "ns2".to_string()]);
    // an element missing a required field fails the whole list
    let bad = env_ok(arr(vec![obj(vec![("id", s("z1"))])]));
    match get_zones_response(200, bad) {
        Err(e) => assert_eq!(e.message(), "Failed to parse zones"),
        Ok(_) => panic!("should fail"),
    }
}

// --- kv ---

#[test]
fn kv_key_is_percent_encoded() {
    let u = list_kv_keys_request("acc", "ns", Some("a b/c"));
    assert_eq!(u.path, "/accounts/acc/storage/kv/namespaces/ns/keys?prefix=a%20b%2Fc");
}

#[test]
fn kv_write_ttl_query_parameter() {
    let u = write_kv_value_request("acc", "ns", "k y", "v", Some(3600), None);
    assert_eq!(
        u.path,
        "/accounts/acc/storage/kv/namespaces/ns/values/k%20y?expiration_ttl=3600"
    );
    match u.body {
        RequestBody::KvText { value, metadata_header } => {
            assert_eq!(value, "v");
            assert!(metadata_header.is_none());
        },
        _ => panic!("kv body expected"),
    }
}

#[test]
fn kv_read_checks_http_status() {
    assert_eq!(read_kv_value_response(200, "raw".to_string()).unwrap(), "raw");
    assert!(read_kv_value_response(404, "missing".to_string()).is_err());
}

#[test]
fn kv_raw_list_tolerates_non_list_result() {
    let v = raw_list_response(200, env_ok(JsonValue::Null)).unwrap();
    assert!(v.is_empty());
    let v2 = raw_list_response(200, env_ok(arr(vec![s("a")]))).unwrap();
    assert_eq!(v2.len(), 1);
}

// --- d1 ---

#[test]
fn d1_query_returns_first_result_only() {
    let reply = env_ok(arr(vec![s("first"), s("second")]));
    match execute_d1_query_response(200, reply) {
        Ok(JsonValue::Str(v)) => assert_eq!(v, "first"),
        _ => panic!("first element expected"),
    }
}

#[test]
fn d1_query_empty_result_is_no_result() {
    let reply = env_ok(arr(vec![]));
    match execute_d1_query_response(200, reply) {
        Err(e) => assert_eq!(e.message(), "No query results returned"),
        Ok(_) => panic!("should fail"),
    }
}
