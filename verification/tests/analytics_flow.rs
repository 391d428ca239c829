use cloudflare_relay::analytics::{
    aggregate_analytics, get_analytics_request, parse_analytics_response, resolve_time_range,
    BucketKind,
};
use cloudflare_relay::error::RelayError;
use cloudflare_relay::json::JsonValue;
use cloudflare_relay::types::BucketSum;
use cloudflare_relay::upstream::RequestBody;

fn s(x: &str) -> JsonValue {
    JsonValue::Str(x.to_string())
}

fn obj(pairs: Vec<(&str, JsonValue)>) -> JsonValue {
    JsonValue::Obj(pairs.into_iter().map(|(k, v)| (k.to_string(), v)).collect())
}

fn arr(items: Vec<JsonValue>) -> JsonValue {
    JsonValue::Arr(items)
}

fn bucket(ts: &str, requests: u64, cached: u64, bytes: u64, threats: u64) -> BucketSum {
    BucketSum { timestamp: ts.to_string(), requests, cached, bytes, threats }
}

// --- range resolution ---

#[test]
fn range_tokens_map_to_windows() {
    let now: i64 = 1_700_000_000;
    assert_eq!(resolve_time_range("24h", now), (now - 86_400, BucketKind::Hourly));
    assert_eq!(resolve_time_range("7d", now), (now - 604_800, BucketKind::Daily));
    assert_eq!(resolve_time_range("30d", now), (now - 2_592_000, BucketKind::Daily));
    // an unrecognized token silently behaves as "24h"
    assert_eq!(resolve_time_range("90d", now), (now - 86_400, BucketKind::Hourly));
}

#[test]
fn hourly_query_carries_iso_timestamps() {
    // 2024-01-01T00:00:00Z
    let now: i64 = 1_704_067_200;
    let (req, kind) = get_analytics_request("zone-1", "24h", now);
    assert_eq!(kind, BucketKind::Hourly);
    assert_eq!(req.path, "/graphql");
    match req.body {
        RequestBody::Json(j) => {
            let q = j.get_string("query").unwrap();
            assert!(q.contains("httpRequests1hGroups"));
            assert!(q.contains("datetime_geq: \"2023-12-31T00:00:00Z\""));
            assert!(q.contains("datetime_leq: \"2024-01-01T00:00:00Z\""));
            assert!(q.contains("zoneTag: \"zone-1\""));
        },
        _ => panic!("json body expected"),
    }
}

#[test]
fn daily_query_uses_dates() {
    let now: i64 = 1_704_067_200;
    let (req, kind) = get_analytics_request("z", "7d", now);
    assert_eq!(kind, BucketKind::Daily);
    match req.body {
        RequestBody::Json(j) => {
            let q = j.get_string("query").unwrap();
            assert!(q.contains("httpRequests1dGroups"));
            assert!(q.contains("date_geq: \"2023-12-25\""));
            assert!(q.contains("date_leq: \"2024-01-01\""));
        },
        _ => panic!("json body expected"),
    }
}

// --- response parsing ---

fn groups_body(groups: Vec<JsonValue>) -> JsonValue {
    obj(vec![(
        "data",
        obj(vec![(
            "viewer",
            obj(vec![(
                "zones",
                arr(vec![obj(vec![("httpRequests1hGroups", arr(groups))])]),
            )]),
        )]),
    )])
}

#[test]
fn null_data_is_reported_as_no_data() {
    let body = obj(vec![("data", JsonValue::Null)]);
    match parse_analytics_response(&body, BucketKind::Hourly) {
        Err(RelayError::NoData) => (),
        _ => panic!("NoData expected"),
    }
    let absent = obj(vec![]);
    match parse_analytics_response(&absent, BucketKind::Hourly) {
        Err(RelayError::NoData) => (),
        _ => panic!("NoData expected"),
    }
}

#[test]
fn graphql_errors_win_over_data() {
    let body = obj(vec![
        ("errors", arr(vec![obj(vec![("message", s("no access"))])])),
        ("data", JsonValue::Null),
    ]);
    match parse_analytics_response(&body, BucketKind::Hourly) {
        Err(RelayError::GraphQl(m)) => assert_eq!(m, "no access"),
        _ => panic!("GraphQl expected"),
    }
}

#[test]
fn null_errors_field_is_ignored() {
    let body = obj(vec![("errors", JsonValue::Null), ("data", JsonValue::Null)]);
    match parse_analytics_response(&body, BucketKind::Hourly) {
        Err(RelayError::NoData) => (),
        _ => panic!("NoData expected"),
    }
}

#[test]
fn missing_nesting_is_malformed() {
    let body = obj(vec![("data", obj(vec![("viewer", obj(vec![]))]))]);
    match parse_analytics_response(&body, BucketKind::Hourly) {
        Err(RelayError::MalformedResponse) => (),
        _ => panic!("MalformedResponse expected"),
    }
}

#[test]
fn buckets_are_read_in_order_with_defaults() {
    let g1 = obj(vec![
        ("dimensions", obj(vec![("datetime", s("2024-01-01T00:00:00Z"))])),
        (
            "sum",
            obj(vec![
                ("requests", JsonValue::Int(10)),
                ("cachedRequests", JsonValue::Int(4)),
                ("bytes", JsonValue::Int(1024)),
                ("threats", JsonValue::Int(1)),
            ]),
        ),
    ]);
    // second bucket missing counters: they default to zero
    let g2 = obj(vec![("dimensions", obj(vec![("datetime", s("2024-01-01T01:00:00Z"))]))]);
    let body = groups_body(vec![g1, g2]);
    let buckets = parse_analytics_response(&body, BucketKind::Hourly).unwrap();
    assert_eq!(buckets.len(), 2);
    assert_eq!(buckets[0].requests, 10);
    assert_eq!(buckets[0].cached, 4);
    assert_eq!(buckets[1].requests, 0);
    assert_eq!(buckets[1].timestamp, "2024-01-01T01:00:00Z");
}

// --- aggregation ---

#[test]
fn counters_beyond_signed_range_are_read_from_digit_text() {
    // the boundary carries a numeric literal above the signed range as its
    // digit text; such a counter must still be read, as the wire reader does
    let g = obj(vec![
        ("dimensions", obj(vec![("datetime", s("t"))])),
        (
            "sum",
            obj(vec![
                ("requests", JsonValue::NumText("9300000000000000000".to_string())),
                ("cachedRequests", JsonValue::Int(0)),
                ("bytes", JsonValue::NumText("18446744073709551615".to_string())),
                ("threats", JsonValue::NumText("18446744073709551616".to_string())),
            ]),
        ),
    ]);
    let body = groups_body(vec![g]);
    let buckets = parse_analytics_response(&body, BucketKind::Hourly).unwrap();
    assert_eq!(buckets[0].requests, 9_300_000_000_000_000_000);
    assert_eq!(buckets[0].bytes, u64::MAX);
    // one past the unsigned ceiling is not a readable counter
    assert_eq!(buckets[0].threats, 0);
    // non-integer numeric text is not a counter either
    let g2 = obj(vec![(
        "sum",
        obj(vec![("requests", JsonValue::NumText("12.5".to_string()))]),
    )]);
    let b2 = parse_analytics_response(&groups_body(vec![g2]), BucketKind::Hourly).unwrap();
    assert_eq!(b2[0].requests, 0);
}

#[test]
fn totals_and_rate() {
    let data = aggregate_analytics(vec![
        bucket("t0", 60, 10, 1_073_741_824, 2),
        bucket("t1", 40, 15, 1_073_741_824, 3),
    ]);
    assert_eq!(data.stats.total_requests, 100);
    assert_eq!(data.stats.threats, 5);
    // 25 cached of 100 requests: 25.00 percent
    assert_eq!(data.stats.cache_hit_rate_centi_pct, 2500);
    // 2 GiB: 200 hundredths
    assert_eq!(data.stats.bandwidth_centi_gib, 200);
}

#[test]
fn rate_is_zero_exactly_for_empty_total() {
    let empty = aggregate_analytics(vec![]);
    assert_eq!(empty.stats.total_requests, 0);
    assert_eq!(empty.stats.cache_hit_rate_centi_pct, 0);
    // even a huge cached count cannot push the rate above 100 percent
    let weird = aggregate_analytics(vec![bucket("t", 10, 1000, 0, 0)]);
    assert_eq!(weird.stats.cache_hit_rate_centi_pct, 10_000);
}

#[test]
fn uncached_is_clamped_at_zero() {
    let data = aggregate_analytics(vec![bucket("a", 10, 15, 0, 0), bucket("b", 10, 4, 0, 0)]);
    assert_eq!(data.timeseries.len(), 2);
    assert_eq!(data.timeseries[0].uncached, 0);
    assert_eq!(data.timeseries[1].uncached, 6);
    assert_eq!(data.timeseries[0].timestamp, "a");
}

#[test]
fn breakdowns_are_fixed_shares() {
    let data = aggregate_analytics(vec![bucket("t", 1000, 0, 10_737_418_240, 0)]);
    assert_eq!(data.status_codes.len(), 5);
    assert_eq!(data.status_codes[0].code, "200");
    assert_eq!(data.status_codes[0].count, 833);
    assert_eq!(data.status_codes[1].count, 100);
    assert_eq!(data.countries.len(), 10);
    assert_eq!(data.countries[0].requests, 400);
    assert_eq!(data.countries[9].requests, 15);
    assert_eq!(data.content.len(), 10);
    assert_eq!(data.content[0].requests, 50);
    // 10 GiB at 100 per mille is 1.0 GB
    assert_eq!(data.content[0].bandwidth, "1.0 GB");
    assert_eq!(data.content[3].bandwidth, "0.0 GB");
}

#[test]
fn error_messages_render() {
    assert_eq!(
        RelayError::InvalidCredentials.message(),
        "Invalid credentials: API Token is required"
    );
    assert_eq!(
        RelayError::Transport("timeout".to_string()).message(),
        "Request failed: timeout"
    );
    assert_eq!(RelayError::Decode("Failed to parse zones".to_string()).message(), "Failed to parse zones");
    assert_eq!(
        RelayError::Upstream { status: 502, message: "bad gateway".to_string() }.message(),
        "API error (502): bad gateway"
    );
    assert_eq!(RelayError::Validation("nope".to_string()).message(), "nope");
    assert_eq!(RelayError::GraphQl("q".to_string()).message(), "GraphQL API error: q");
    assert_eq!(
        RelayError::MalformedResponse.message(),
        "Failed to parse GraphQL response structure"
    );
    assert_eq!(RelayError::NoResult.message(), "No query results returned");
    assert!(RelayError::NoData.message().starts_with("GraphQL returned no data"));
}
