use cloudflare_relay::inbound::{
    parse_deploy_worker_request, parse_get_analytics_request, parse_optimize_zone_request,
    parse_write_kv_value_request,
};
use cloudflare_relay::json::JsonValue;
use cloudflare_relay::ops_pagerules::{page_rule_response, page_rule_to_json};
use cloudflare_relay::ops_ratelimit::get_rate_limits_response;
use cloudflare_relay::ops_tls::{
    get_custom_certificates_response, get_ssl_certificates_response,
    upload_custom_certificate_request,
};
use cloudflare_relay::ops_waf::update_waf_package_request;
use cloudflare_relay::ops_workers::list_workers_response;
use cloudflare_relay::types::{OptimizeMode, PageRule, PageRuleAction, PageRuleConstraint, PageRuleTarget};
use cloudflare_relay::upstream::{HttpMethod, RequestBody};

fn s(x: &str) -> JsonValue {
    JsonValue::Str(x.to_string())
}

fn obj(pairs: Vec<(&str, JsonValue)>) -> JsonValue {
    JsonValue::Obj(pairs.into_iter().map(|(k, v)| (k.to_string(), v)).collect())
}

fn arr(items: Vec<JsonValue>) -> JsonValue {
    JsonValue::Arr(items)
}

fn env_ok(result: JsonValue) -> JsonValue {
    obj(vec![("success", JsonValue::Bool(true)), ("result", result)])
}

#[test]
fn duplicate_keys_resolve_to_first_binding() {
    let j = obj(vec![("k", s("first")), ("k", s("second"))]);
    assert_eq!(j.get_string("k"), Some("first".to_string()));
}

#[test]
fn deploy_worker_accepts_camel_case_aliases() {
    let j = obj(vec![
        ("zoneId", s("z")),
        ("scriptName", s("edge")),
        ("targetUrl", s("https://o.example")),
        ("accessDomain", s("edge.example")),
        ("cacheTtl", JsonValue::Int(600)),
        ("cdnNode", s("auto")),
    ]);
    let q = parse_deploy_worker_request(&j).unwrap();
    assert_eq!(q.script_name, "edge");
    assert_eq!(q.cache_ttl, 600);
    // a missing field is rejected
    let short = obj(vec![("zoneId", s("z"))]);
    assert!(parse_deploy_worker_request(&short).is_err());
}

#[test]
fn optimize_mode_is_lowercase_on_the_wire() {
    let j = obj(vec![("zoneId", s("z")), ("mode", s("performance"))]);
    let q = parse_optimize_zone_request(&j).unwrap();
    assert_eq!(q.mode, OptimizeMode::Performance);
    let sec = obj(vec![("zone_id", s("z")), ("mode", s("security"))]);
    assert_eq!(parse_optimize_zone_request(&sec).unwrap().mode, OptimizeMode::Security);
    let bad = obj(vec![("zone_id", s("z")), ("mode", s("Security"))]);
    assert!(parse_optimize_zone_request(&bad).is_err());
}

#[test]
fn analytics_request_accepts_time_range_alias() {
    let j = obj(vec![("zoneId", s("z")), ("timeRange", s("7d"))]);
    let q = parse_get_analytics_request(&j).unwrap();
    assert_eq!(q.time_range, "7d");
}

#[test]
fn write_kv_value_parses_ttl_and_metadata() {
    let j = obj(vec![
        ("accountId", s("a")),
        ("namespaceId", s("n")),
        ("key", s("k")),
        ("value", s("v")),
        ("expirationTtl", JsonValue::Int(60)),
        ("metadata", obj(vec![("tag", s("x"))])),
    ]);
    let q = parse_write_kv_value_request(j).unwrap();
    assert_eq!(q.expiration_ttl, Some(60));
    assert!(q.metadata.is_some());
}

#[test]
fn lenient_worker_list_keeps_malformed_elements_best_effort() {
    // second element lacks the id: it is rebuilt with an empty id instead of
    // failing the list
    let reply = env_ok(arr(vec![
        obj(vec![("id", s("w1")), ("etag", s("e1"))]),
        obj(vec![("etag", s("e2"))]),
    ]));
    let workers = list_workers_response(200, reply).unwrap();
    assert_eq!(workers.len(), 2);
    assert_eq!(workers[0].id, "w1");
    assert_eq!(workers[1].id, "");
    assert_eq!(workers[1].etag, Some("e2".to_string()));
}

#[test]
fn filtered_rate_limit_list_skips_bad_elements() {
    let good = obj(vec![
        ("id", s("rl1")),
        ("disabled", JsonValue::Bool(false)),
        ("description", s("d")),
        ("match_request", obj(vec![("url", s("*"))])),
        ("threshold", JsonValue::Int(10)),
        ("period", JsonValue::Int(60)),
        ("action", obj(vec![("mode", s("ban"))])),
    ]);
    let bad = obj(vec![("id", s("rl2"))]);
    let reply = env_ok(arr(vec![bad, good]));
    let limits = get_rate_limits_response(200, reply).unwrap();
    assert_eq!(limits.len(), 1);
    assert_eq!(limits[0].id, "rl1");
    assert_eq!(limits[0].threshold, 10);
    assert_eq!(limits[0].action.mode, "ban");
}

#[test]
fn filtered_custom_certificates_skip_bad_elements() {
    let good = obj(vec![
        ("id", s("c1")),
        ("status", s("active")),
        ("issuer", s("CA")),
        ("signature", s("SHA256WithRSA")),
        ("expires_on", s("2030-01-01")),
        ("uploaded_on", s("2024-01-01")),
        ("modified_on", s("2024-01-01")),
        ("hosts", arr(vec![s("example.com")])),
    ]);
    let reply = env_ok(arr(vec![obj(vec![("id", s("broken"))]), good]));
    let certs = get_custom_certificates_response(200, reply).unwrap();
    assert_eq!(certs.len(), 1);
    assert_eq!(certs[0].hosts, vec!["example.com".to_string()]);
}

#[test]
fn strict_ssl_list_fails_on_bad_element() {
    let reply = env_ok(arr(vec![obj(vec![("id", s("p1"))])]));
    assert!(get_ssl_certificates_response(200, reply).is_err());
    let good = env_ok(arr(vec![obj(vec![
        ("id", s("p1")),
        ("type", s("universal")),
        ("status", s("active")),
        ("hosts", arr(vec![s("example.com")])),
    ])]));
    let certs = get_ssl_certificates_response(200, good).unwrap();
    assert_eq!(certs[0].cert_type, "universal");
}

#[test]
fn upload_custom_certificate_body_shape() {
    let req = upload_custom_certificate_request("z", "CERT", "KEY", &None);
    assert_eq!(req.method, HttpMethod::Post);
    match req.body {
        RequestBody::Json(j) => {
            assert_eq!(j.get_string("certificate"), Some("CERT".to_string()));
            assert_eq!(j.get_string("private_key"), Some("KEY".to_string()));
            assert!(j.get("bundle_method").is_none());
        },
        _ => panic!("json body expected"),
    }
    let with_method =
        upload_custom_certificate_request("z", "C", "K", &Some("ubiquitous".to_string()));
    match with_method.body {
        RequestBody::Json(j) => {
            assert_eq!(j.get_string("bundle_method"), Some("ubiquitous".to_string()))
        },
        _ => panic!("json body expected"),
    }
}

#[test]
fn waf_package_update_sends_only_given_fields() {
    let req = update_waf_package_request("z", "p", &Some("high".to_string()), &None);
    assert_eq!(req.path, "/zones/z/firewall/waf/packages/p");
    match req.body {
        RequestBody::Json(j) => {
            assert_eq!(j.get_string("sensitivity"), Some("high".to_string()));
            assert!(j.get("action_mode").is_none());
        },
        _ => panic!("json body expected"),
    }
}

#[test]
fn page_rule_round_trip_through_json() {
    let rule = PageRule {
        id: None,
        targets: vec![PageRuleTarget {
            target: "url".to_string(),
            constraint: PageRuleConstraint {
                operator: "matches".to_string(),
                value: "*example.com/*".to_string(),
            },
        }],
        actions: vec![PageRuleAction {
            id: "cache_level".to_string(),
            value: s("bypass"),
        }],
        priority: Some(1),
        status: Some("active".to_string()),
    };
    let j = page_rule_to_json(rule);
    let reply = env_ok(j);
    let back = page_rule_response(200, reply).unwrap();
    assert_eq!(back.targets.len(), 1);
    assert_eq!(back.targets[0].constraint.value, "*example.com/*");
    assert_eq!(back.actions[0].id, "cache_level");
    assert_eq!(back.priority, Some(1));
    assert_eq!(back.status, Some("active".to_string()));
}
