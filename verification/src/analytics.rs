//! The analytics pipeline: resolving the requested range to a time window,
//! building the GraphQL query, reading the bucketed response, and reducing
//! the buckets into totals, a timeseries, and the fixed-ratio illustrative
//! breakdowns.
//!
//! The status-code, country and content breakdowns are not measured data:
//! they are constant shares of the measured totals, kept as documented
//! placeholders.

use vstd::prelude::*;
use vstd::string::*;
use crate::error::RelayError;
use crate::json::{obj_lookup, JsonValue};
use crate::numfmt::{spec_dec, u64_to_dec};
use crate::strutil::{concat4, concat7};
use crate::timefmt::{format_epoch_date, format_epoch_datetime, iso_date_of, iso_datetime_of};
use crate::types::{
    AnalyticsData, AnalyticsStats, BucketSum, ContentStat, CountryStat, StatusCodeStat,
    TimeseriesPoint,
};
use crate::upstream::{HttpMethod, RequestBody, UpstreamRequest};

verus! {

#[derive(Clone, Copy, PartialEq, Eq, Structural, Debug)]
pub enum BucketKind {
    Hourly,
    Daily,
}

/// Seconds looked back for each recognized range token; anything else falls
/// back to the last day of hourly buckets.
pub open spec fn spec_range_seconds(range: Seq<char>) -> i64 {
    if range == "7d"@ {
        604800
    } else if range == "30d"@ {
        2592000
    } else {
        86400
    }
}

pub open spec fn spec_range_kind(range: Seq<char>) -> BucketKind {
    if range == "7d"@ || range == "30d"@ {
        BucketKind::Daily
    } else {
        BucketKind::Hourly
    }
}

/// The window start: `now` minus the range span, clamped at the bottom of
/// the representable timestamps.
pub open spec fn spec_range_since(range: Seq<char>, now: i64) -> i64 {
    if now >= i64::MIN + spec_range_seconds(range) {
        (now - spec_range_seconds(range)) as i64
    } else {
        i64::MIN
    }
}

/// Maps the range token to the window start and bucket granularity: "24h"
/// means the preceding day in hourly buckets, "7d" and "30d" the preceding
/// week or month in daily buckets, and an unrecognized token behaves as
/// "24h".
pub fn resolve_time_range(range: &str, now: i64) -> (r: (i64, BucketKind))
    ensures
        r.0 == spec_range_since(range@, now),
        r.1 == spec_range_kind(range@),
{
    let seven: String = "7d".to_owned();
    let thirty: String = "30d".to_owned();
    let owned: String = range.to_owned();
    let (secs, kind): (i64, BucketKind) = if owned == seven {
        (604800, BucketKind::Daily)
    } else if owned == thirty {
        (2592000, BucketKind::Daily)
    } else {
        (86400, BucketKind::Hourly)
    };
    let since = if now >= i64::MIN + secs {
        now - secs
    } else {
        i64::MIN
    };
    (since, kind)
}

/// The hourly and daily query shapes, as concatenations around the zone id
/// and the two window bounds.
pub open spec fn spec_hourly_query(zone_id: Seq<char>, since: Seq<char>, until: Seq<char>) -> Seq<
    char,
> {
    "query { viewer { zones(filter: {zoneTag: \""@ + zone_id
        + "\"}) { httpRequests1hGroups(limit: 168 filter: { datetime_geq: \""@ + since
        + "\" datetime_leq: \""@ + until
        + "\" }) { dimensions { datetime } sum { requests cachedRequests bytes threats } } } } }"@
}

pub open spec fn spec_daily_query(zone_id: Seq<char>, since: Seq<char>, until: Seq<char>) -> Seq<
    char,
> {
    "query { viewer { zones(filter: {zoneTag: \""@ + zone_id
        + "\"}) { httpRequests1dGroups(limit: 31 filter: { date_geq: \""@ + since
        + "\" date_leq: \""@ + until
        + "\" }) { dimensions { date } sum { requests cachedRequests bytes threats } } } } }"@
}

/// The whole analytics request: resolves the window, renders the bounds, and
/// posts `{"query": <text>}` to the query endpoint. Also hands back the
/// granularity the response must be read with.
pub fn get_analytics_request(zone_id: &str, time_range: &str, now: i64) -> (r: (
    UpstreamRequest,
    BucketKind,
))
    ensures
        r.1 == spec_range_kind(time_range@),
        r.0.method == HttpMethod::Post,
        r.0.path@ == "/graphql"@,
        r.0.body matches RequestBody::Json(j) && (match j.field_str("query"@) {
            Some(q) => ({
                let since = spec_range_since(time_range@, now);
                if spec_range_kind(time_range@) == BucketKind::Hourly {
                    q == spec_hourly_query(zone_id@, iso_datetime_of(since), iso_datetime_of(now))
                } else {
                    q == spec_daily_query(zone_id@, iso_date_of(since), iso_date_of(now))
                }
            }),
            None => false,
        }),
{
    let (since, kind) = resolve_time_range(time_range, now);
    let query: String = match kind {
        BucketKind::Hourly => {
            let since_s = format_epoch_datetime(since);
            let until_s = format_epoch_datetime(now);
            concat7(
                "query { viewer { zones(filter: {zoneTag: \"",
                zone_id,
                "\"}) { httpRequests1hGroups(limit: 168 filter: { datetime_geq: \"",
                since_s.as_str(),
                "\" datetime_leq: \"",
                until_s.as_str(),
                "\" }) { dimensions { datetime } sum { requests cachedRequests bytes threats } } } } }",
            )
        },
        BucketKind::Daily => {
            let since_s = format_epoch_date(since);
            let until_s = format_epoch_date(now);
            concat7(
                "query { viewer { zones(filter: {zoneTag: \"",
                zone_id,
                "\"}) { httpRequests1dGroups(limit: 31 filter: { date_geq: \"",
                since_s.as_str(),
                "\" date_leq: \"",
                until_s.as_str(),
                "\" }) { dimensions { date } sum { requests cachedRequests bytes threats } } } } }",
            )
        },
    };
    let mut entries: Vec<(String, JsonValue)> = Vec::new();
    entries.push(("query".to_owned(), JsonValue::Str(query)));
    let j = JsonValue::Obj(entries);
    proof {
        reveal_with_fuel(obj_lookup, 3);
    }
    (
        UpstreamRequest {
            method: HttpMethod::Post,
            path: "/graphql".to_owned(),
            body: RequestBody::Json(j),
        },
        kind,
    )
}

pub open spec fn group_key(kind: BucketKind) -> Seq<char> {
    match kind {
        BucketKind::Hourly => "httpRequests1hGroups"@,
        BucketKind::Daily => "httpRequests1dGroups"@,
    }
}

pub open spec fn time_key(kind: BucketKind) -> Seq<char> {
    match kind {
        BucketKind::Hourly => "datetime"@,
        BucketKind::Daily => "date"@,
    }
}

/// A non-null `errors` field in the query reply.
pub open spec fn graphql_has_errors(body: JsonValue) -> bool {
    match body.spec_get("errors"@) {
        Some(v) => !(v is Null),
        None => false,
    }
}

/// The first error's message, if the errors list carries one.
pub open spec fn graphql_error_msg(body: JsonValue) -> Seq<char> {
    match body.field_arr("errors"@) {
        Some(a) => if a.len() > 0 {
            match a[0].field_str("message"@) {
                Some(m) => m,
                None => "Unknown error"@,
            }
        } else {
            "Unknown error"@
        },
        None => "Unknown error"@,
    }
}

/// A null or absent `data` field.
pub open spec fn graphql_no_data(body: JsonValue) -> bool {
    match body.spec_get("data"@) {
        Some(v) => v is Null,
        None => true,
    }
}

/// The bucket list under `data.viewer.zones[0].<group>`, when that whole
/// path exists.
pub open spec fn analytics_groups(body: JsonValue, kind: BucketKind) -> Option<Seq<JsonValue>> {
    match body.spec_get("data"@) {
        Some(d) => match d.spec_get("viewer"@) {
            Some(v) => match v.field_arr("zones"@) {
                Some(zs) => if zs.len() > 0 {
                    zs[0].field_arr(group_key(kind))
                } else {
                    None
                },
                None => None,
            },
            None => None,
        },
        None => None,
    }
}

/// How one reply bucket is read: counters from `sum` with zero for anything
/// missing, the label from `dimensions`, empty when missing.
pub open spec fn bucket_matches(g: JsonValue, kind: BucketKind, b: BucketSum) -> bool {
    &&& b.timestamp@ == (match g.spec_get("dimensions"@) {
        Some(d) => match d.field_str(time_key(kind)) {
            Some(t) => t,
            None => Seq::<char>::empty(),
        },
        None => Seq::<char>::empty(),
    })
    &&& b.requests == (match g.spec_get("sum"@) {
        Some(s) => match s.field_u64("requests"@) {
            Some(n) => n,
            None => 0u64,
        },
        None => 0u64,
    })
    &&& b.cached == (match g.spec_get("sum"@) {
        Some(s) => match s.field_u64("cachedRequests"@) {
            Some(n) => n,
            None => 0u64,
        },
        None => 0u64,
    })
    &&& b.bytes == (match g.spec_get("sum"@) {
        Some(s) => match s.field_u64("bytes"@) {
            Some(n) => n,
            None => 0u64,
        },
        None => 0u64,
    })
    &&& b.threats == (match g.spec_get("sum"@) {
        Some(s) => match s.field_u64("threats"@) {
            Some(n) => n,
            None => 0u64,
        },
        None => 0u64,
    })
}

fn read_bucket(g: &JsonValue, kind: BucketKind) -> (b: BucketSum)
    ensures
        bucket_matches(*g, kind, b),
{
    let time_k: &str = match kind {
        BucketKind::Hourly => "datetime",
        BucketKind::Daily => "date",
    };
    let timestamp = match g.get("dimensions") {
        Some(d) => match d.get_string(time_k) {
            Some(t) => t,
            None => String::new(),
        },
        None => String::new(),
    };
    let (requests, cached, bytes, threats): (u64, u64, u64, u64) = match g.get("sum") {
        Some(s) => {
            let requests = match s.get_u64("requests") {
                Some(n) => n,
                None => 0,
            };
            let cached = match s.get_u64("cachedRequests") {
                Some(n) => n,
                None => 0,
            };
            let bytes = match s.get_u64("bytes") {
                Some(n) => n,
                None => 0,
            };
            let threats = match s.get_u64("threats") {
                Some(n) => n,
                None => 0,
            };
            (requests, cached, bytes, threats)
        },
        None => (0, 0, 0, 0),
    };
    BucketSum { timestamp, requests, cached, bytes, threats }
}

/// Reads the query reply: explicit query errors come first, then a missing
/// or null `data` field, then a malformed nesting; otherwise every bucket is
/// read in order.
pub fn parse_analytics_response(body: &JsonValue, kind: BucketKind) -> (r: Result<
    Vec<BucketSum>,
    RelayError,
>)
    ensures
        r is Ok <==> !graphql_has_errors(*body) && !graphql_no_data(*body) && analytics_groups(
            *body,
            kind,
        ) is Some,
        r matches Ok(v) ==> (match analytics_groups(*body, kind) {
            Some(groups) => v@.len() == groups.len() && (forall|i: int| #![trigger v@[i]]
                0 <= i < groups.len() ==> bucket_matches(groups[i], kind, v@[i])),
            None => false,
        }),
        r matches Err(e) ==> (if graphql_has_errors(*body) {
            e matches RelayError::GraphQl(m) && m@ == graphql_error_msg(*body)
        } else if graphql_no_data(*body) {
            e is NoData
        } else {
            e is MalformedResponse
        }),
{
    match body.get("errors") {
        Some(v) => {
            let is_null = match v {
                JsonValue::Null => true,
                _ => false,
            };
            if !is_null {
                let m = match body.get_arr("errors") {
                    Some(a) => {
                        if a.len() > 0 {
                            match a[0].get_string("message") {
                                Some(s) => s,
                                None => "Unknown error".to_owned(),
                            }
                        } else {
                            "Unknown error".to_owned()
                        }
                    },
                    None => "Unknown error".to_owned(),
                };
                return Err(RelayError::GraphQl(m));
            }
        },
        None => (),
    }
    let data = match body.get("data") {
        Some(d) => match d {
            JsonValue::Null => return Err(RelayError::NoData),
            other => other,
        },
        None => return Err(RelayError::NoData),
    };
    let group_k: &str = match kind {
        BucketKind::Hourly => "httpRequests1hGroups",
        BucketKind::Daily => "httpRequests1dGroups",
    };
    let groups = match data.get("viewer") {
        Some(viewer) => match viewer.get_arr("zones") {
            Some(zones) => {
                if zones.len() > 0 {
                    match zones[0].get_arr(group_k) {
                        Some(g) => g,
                        None => return Err(RelayError::MalformedResponse),
                    }
                } else {
                    return Err(RelayError::MalformedResponse);
                }
            },
            None => return Err(RelayError::MalformedResponse),
        },
        None => return Err(RelayError::MalformedResponse),
    };
    proof {
        assert(analytics_groups(*body, kind) == Some(groups@));
    }
    let n = groups.len();
    let mut out: Vec<BucketSum> = Vec::new();
    let mut i: usize = 0;
    while i < n
        invariant
            analytics_groups(*body, kind) == Some(groups@),
            n == groups@.len(),
            i <= n,
            out@.len() == i,
            forall|k: int| #![trigger out@[k]]
                0 <= k < i ==> bucket_matches(groups@[k], kind, out@[k]),
        decreases n - i,
    {
        let b = read_bucket(&groups[i], kind);
        out.push(b);
        i += 1;
    }
    Ok(out)
}

// ---------------------------------------------------------------------------
// Aggregation
// ---------------------------------------------------------------------------

pub open spec fn clamp_u64(x: int) -> u64 {
    if x > u64::MAX {
        u64::MAX
    } else if x < 0 {
        0u64
    } else {
        x as u64
    }
}

pub open spec fn sum_requests(s: Seq<BucketSum>) -> int
    decreases s.len(),
{
    if s.len() == 0 {
        0
    } else {
        sum_requests(s.drop_last()) + s.last().requests
    }
}

pub open spec fn sum_cached(s: Seq<BucketSum>) -> int
    decreases s.len(),
{
    if s.len() == 0 {
        0
    } else {
        sum_cached(s.drop_last()) + s.last().cached
    }
}

pub open spec fn sum_bytes(s: Seq<BucketSum>) -> int
    decreases s.len(),
{
    if s.len() == 0 {
        0
    } else {
        sum_bytes(s.drop_last()) + s.last().bytes
    }
}

pub open spec fn sum_threats(s: Seq<BucketSum>) -> int
    decreases s.len(),
{
    if s.len() == 0 {
        0
    } else {
        sum_threats(s.drop_last()) + s.last().threats
    }
}

pub proof fn lemma_sums_nonneg(s: Seq<BucketSum>)
    ensures
        sum_requests(s) >= 0,
        sum_cached(s) >= 0,
        sum_bytes(s) >= 0,
        sum_threats(s) >= 0,
    decreases s.len(),
{
    if s.len() > 0 {
        lemma_sums_nonneg(s.drop_last());
    }
}

/// The cache-hit rate in hundredths of a percent: cached over total, scaled
/// to 10000, zero for an empty total, and never above 10000 even if the
/// reported cached count exceeds the total.
pub open spec fn hit_rate_centi_pct(cached: u64, total: u64) -> u64 {
    if total == 0 {
        0u64
    } else if cached * 10000 / (total as int) > 10000 {
        10000u64
    } else {
        (cached * 10000 / (total as int)) as u64
    }
}

/// Total bytes expressed in hundredths of a gibibyte.
pub open spec fn centi_gib(bytes: u64) -> u64 {
    ((bytes * 100) / 0x40000000) as u64
}

/// A fixed per-mille share of a total.
pub open spec fn share(total: u64, permille: u64) -> u64 {
    ((total * permille) / 1000) as u64
}

/// A fixed per-mille share of the byte total, rendered as tenths of a
/// gibibyte: "<whole>.<tenth> GB".
pub open spec fn gb_tenths(bytes: u64, permille: u64) -> int {
    (bytes * permille) / 107374182400
}

pub open spec fn gb_string(bytes: u64, permille: u64) -> Seq<char> {
    spec_dec((gb_tenths(bytes, permille) / 10) as u64) + seq!['.'] + spec_dec(
        (gb_tenths(bytes, permille) % 10) as u64,
    ) + seq![' ', 'G', 'B']
}

fn share_calc(total: u64, permille: u64) -> (r: u64)
    requires
        permille <= 1000,
    ensures
        r == share(total, permille),
        r <= total,
{
    proof {
        assert(total * permille <= total * 1000) by (nonlinear_arith)
            requires
                permille <= 1000,
        ;
        assert((total * permille) / 1000 <= total) by (nonlinear_arith)
            requires
                total * permille <= total * 1000,
        ;
    }
    let x: u128 = (total as u128) * (permille as u128) / 1000;
    x as u64
}

fn centi_gib_calc(bytes: u64) -> (r: u64)
    ensures
        r == centi_gib(bytes),
{
    proof {
        assert((bytes * 100) / 0x40000000 <= bytes) by (nonlinear_arith);
    }
    let x: u128 = (bytes as u128) * 100 / 0x40000000;
    x as u64
}

fn hit_rate_calc(cached: u64, total: u64) -> (r: u64)
    ensures
        r == hit_rate_centi_pct(cached, total),
{
    if total == 0 {
        return 0;
    }
    let x: u128 = (cached as u128) * 10000 / (total as u128);
    proof {
        assert(cached * 10000 / (total as int) >= 0) by (nonlinear_arith)
            requires
                total > 0,
        ;
    }
    if x > 10000 {
        10000
    } else {
        x as u64
    }
}

fn gb_string_calc(bytes: u64, permille: u64) -> (r: String)
    requires
        permille <= 1000,
    ensures
        r@ == gb_string(bytes, permille),
{
    proof {
        assert((bytes * permille) / 107374182400 <= bytes) by (nonlinear_arith)
            requires
                permille <= 1000,
        ;
        assert((bytes * permille) / 107374182400 >= 0) by (nonlinear_arith)
            requires
                permille <= 1000,
        ;
    }
    let t: u128 = (bytes as u128) * (permille as u128) / 107374182400;
    let whole: u64 = (t / 10) as u64;
    let tenth: u64 = (t % 10) as u64;
    let ws = u64_to_dec(whole);
    let ts = u64_to_dec(tenth);
    let r = concat4(ws.as_str(), ".", ts.as_str(), " GB");
    proof {
        reveal_strlit(".");
        reveal_strlit(" GB");
        assert("."@ =~= seq!['.']);
        assert(" GB"@ =~= seq![' ', 'G', 'B']);
    }
    r
}

/// How one timeseries point reflects its bucket: the uncached count is the
/// difference, floored at zero when the reported cached count exceeds the
/// request count.
pub open spec fn ts_point_matches(b: BucketSum, p: TimeseriesPoint) -> bool {
    &&& p.timestamp == b.timestamp
    &&& p.requests == b.requests
    &&& p.cached == b.cached
    &&& p.uncached == (if b.cached <= b.requests {
        (b.requests - b.cached) as u64
    } else {
        0u64
    })
}

/// A timeseries point never reports a negative uncached count: it is capped
/// by the request count, and a bucket whose cached count exceeds its request
/// count yields zero.
pub proof fn lemma_uncached_never_negative(b: BucketSum, p: TimeseriesPoint)
    requires
        ts_point_matches(b, p),
    ensures
        p.uncached <= p.requests,
        b.cached > b.requests ==> p.uncached == 0,
{
}

/// The cache-hit rate always lies between 0 and 100 percent, and an empty
/// total always yields zero, whatever the cached count reports.
pub proof fn lemma_hit_rate_bounds(cached: u64, total: u64)
    ensures
        hit_rate_centi_pct(cached, total) <= 10000,
        total == 0 ==> hit_rate_centi_pct(cached, total) == 0,
        hit_rate_centi_pct(cached, total) == 0 && total > 0 ==> cached * 10000 < total,
{
    if total > 0 {
        assert(cached * 10000 / (total as int) >= 0) by (nonlinear_arith)
            requires
                total > 0,
        ;
        if hit_rate_centi_pct(cached, total) == 0 {
            assert(cached * 10000 / (total as int) == 0);
            assert(cached * 10000 < total) by (nonlinear_arith)
                requires
                    total > 0,
                    cached * 10000 / (total as int) == 0,
            ;
        }
    }
}

pub open spec fn status_row(s: StatusCodeStat, code: Seq<char>, description: Seq<char>, permille: u32, total: u64) -> bool {
    &&& s.code@ == code
    &&& s.description@ == description
    &&& s.permille == permille
    &&& s.count == share(total, permille as u64)
}

pub open spec fn country_row(c: CountryStat, rank: u32, country: Seq<char>, permille: u32, total: u64) -> bool {
    &&& c.rank == rank
    &&& c.country@ == country
    &&& c.permille == permille
    &&& c.requests == share(total, permille as u64)
}

pub open spec fn content_row(c: ContentStat, rank: u32, url: Seq<char>, req_permille: u64, bw_permille: u64, total: u64, bytes: u64) -> bool {
    &&& c.rank == rank
    &&& c.url@ == url
    &&& c.requests == share(total, req_permille)
    &&& c.bandwidth@ == gb_string(bytes, bw_permille)
}

fn status_stat(code: &str, description: &str, permille: u32, total: u64) -> (s: StatusCodeStat)
    requires
        permille <= 1000,
    ensures
        status_row(s, code@, description@, permille, total),
{
    StatusCodeStat {
        code: code.to_owned(),
        description: description.to_owned(),
        count: share_calc(total, permille as u64),
        permille,
    }
}

fn country_stat(rank: u32, country: &str, permille: u32, total: u64) -> (c: CountryStat)
    requires
        permille <= 1000,
    ensures
        country_row(c, rank, country@, permille, total),
{
    CountryStat {
        rank,
        country: country.to_owned(),
        requests: share_calc(total, permille as u64),
        permille,
    }
}

fn content_stat(rank: u32, url: &str, req_permille: u64, bw_permille: u64, total: u64, bytes: u64) -> (c: ContentStat)
    requires
        req_permille <= 1000,
        bw_permille <= 1000,
    ensures
        content_row(c, rank, url@, req_permille, bw_permille, total, bytes),
{
    ContentStat {
        rank,
        url: url.to_owned(),
        requests: share_calc(total, req_permille),
        bandwidth: gb_string_calc(bytes, bw_permille),
    }
}

/// Reduces the buckets into totals (saturating at the integer ceiling), the
/// derived rate and bandwidth, the per-bucket timeseries, and the fixed
/// illustrative breakdowns.
pub fn aggregate_analytics(buckets: Vec<BucketSum>) -> (r: AnalyticsData)
    ensures
        r.stats.total_requests == clamp_u64(sum_requests(buckets@)),
        r.stats.threats == clamp_u64(sum_threats(buckets@)),
        r.stats.cache_hit_rate_centi_pct == hit_rate_centi_pct(
            clamp_u64(sum_cached(buckets@)),
            clamp_u64(sum_requests(buckets@)),
        ),
        r.stats.bandwidth_centi_gib == centi_gib(clamp_u64(sum_bytes(buckets@))),
        r.timeseries@.len() == buckets@.len(),
        forall|i: int| #![trigger r.timeseries@[i]]
            0 <= i < buckets@.len() ==> ts_point_matches(buckets@[i], r.timeseries@[i]),
        ({
            let total = clamp_u64(sum_requests(buckets@));
            let bytes = clamp_u64(sum_bytes(buckets@));
            &&& r.status_codes@.len() == 5
            &&& status_row(r.status_codes@[0], "200"@, "OK"@, 833, total)
            &&& status_row(r.status_codes@[1], "304"@, "Not Modified"@, 100, total)
            &&& status_row(r.status_codes@[2], "404"@, "Not Found"@, 40, total)
            &&& status_row(r.status_codes@[3], "500"@, "Internal Server Error"@, 10, total)
            &&& status_row(r.status_codes@[4], "Other"@, "Other"@, 17, total)
            &&& r.countries@.len() == 10
            &&& country_row(r.countries@[0], 1, "China"@, 400, total)
            &&& country_row(r.countries@[1], 2, "United States"@, 200, total)
            &&& country_row(r.countries@[2], 3, "Japan"@, 100, total)
            &&& country_row(r.countries@[3], 4, "Germany"@, 60, total)
            &&& country_row(r.countries@[4], 5, "United Kingdom"@, 50, total)
            &&& country_row(r.countries@[5], 6, "France"@, 40, total)
            &&& country_row(r.countries@[6], 7, "Canada"@, 30, total)
            &&& country_row(r.countries@[7], 8, "Australia"@, 25, total)
            &&& country_row(r.countries@[8], 9, "South Korea"@, 20, total)
            &&& country_row(r.countries@[9], 10, "Singapore"@, 15, total)
            &&& r.content@.len() == 10
            &&& content_row(r.content@[0], 1, "/images/banner.jpg"@, 50, 100, total, bytes)
            &&& content_row(r.content@[1], 2, "/css/style.css"@, 40, 8, total, bytes)
            &&& content_row(r.content@[2], 3, "/js/app.js"@, 35, 36, total, bytes)
            &&& content_row(r.content@[3], 4, "/index.html"@, 30, 3, total, bytes)
            &&& content_row(r.content@[4], 5, "/api/data"@, 25, 26, total, bytes)
            &&& content_row(r.content@[5], 6, "/images/logo.png"@, 20, 4, total, bytes)
            &&& content_row(r.content@[6], 7, "/fonts/main.woff2"@, 18, 18, total, bytes)
            &&& content_row(r.content@[7], 8, "/about.html"@, 15, 2, total, bytes)
            &&& content_row(r.content@[8], 9, "/contact.html"@, 13, 1, total, bytes)
            &&& content_row(r.content@[9], 10, "/products.html"@, 10, 1, total, bytes)
        }),
{
    let n = buckets.len();
    let mut total_requests: u64 = 0;
    let mut total_cached: u64 = 0;
    let mut total_bytes: u64 = 0;
    let mut total_threats: u64 = 0;
    let mut i: usize = 0;
    while i < n
        invariant
            n == buckets@.len(),
            i <= n,
            total_requests == clamp_u64(sum_requests(buckets@.take(i as int))),
            total_cached == clamp_u64(sum_cached(buckets@.take(i as int))),
            total_bytes == clamp_u64(sum_bytes(buckets@.take(i as int))),
            total_threats == clamp_u64(sum_threats(buckets@.take(i as int))),
        decreases n - i,
    {
        proof {
            assert(buckets@.take(i as int + 1).drop_last() =~= buckets@.take(i as int));
            assert(buckets@.take(i as int + 1).last() == buckets@[i as int]);
            lemma_sums_nonneg(buckets@.take(i as int));
            lemma_sums_nonneg(buckets@.take(i as int + 1));
        }
        let b = &buckets[i];
        total_requests = if total_requests > u64::MAX - b.requests {
            u64::MAX
        } else {
            total_requests + b.requests
        };
        total_cached = if total_cached > u64::MAX - b.cached {
            u64::MAX
        } else {
            total_cached + b.cached
        };
        total_bytes = if total_bytes > u64::MAX - b.bytes {
            u64::MAX
        } else {
            total_bytes + b.bytes
        };
        total_threats = if total_threats > u64::MAX - b.threats {
            u64::MAX
        } else {
            total_threats + b.threats
        };
        i += 1;
    }
    proof {
        assert(buckets@.take(n as int) =~= buckets@);
    }
    let cache_hit_rate_centi_pct = hit_rate_calc(total_cached, total_requests);
    let bandwidth_centi_gib = centi_gib_calc(total_bytes);
    let stats = AnalyticsStats {
        total_requests,
        cache_hit_rate_centi_pct,
        bandwidth_centi_gib,
        threats: total_threats,
    };
    let ghost borig = buckets@;
    let mut rest = buckets;
    let mut timeseries: Vec<TimeseriesPoint> = Vec::new();
    let mut done: usize = 0;
    while done < n
        invariant
            n == borig.len(),
            done <= n,
            timeseries@.len() == done,
            rest@ == borig.skip(done as int),
            forall|k: int| #![trigger timeseries@[k]]
                0 <= k < done ==> ts_point_matches(borig[k], timeseries@[k]),
        decreases n - done,
    {
        let b = rest.remove(0);
        proof {
            assert(b == borig.skip(done as int)[0]);
            assert(borig.skip(done as int)[0] == borig[done as int]);
            assert(rest@ =~= borig.skip(done as int + 1));
        }
        let uncached = if b.cached <= b.requests {
            b.requests - b.cached
        } else {
            0
        };
        let p = TimeseriesPoint {
            timestamp: b.timestamp,
            requests: b.requests,
            cached: b.cached,
            uncached,
        };
        timeseries.push(p);
        done += 1;
    }
    let mut status_codes: Vec<StatusCodeStat> = Vec::new();
    status_codes.push(status_stat("200", "OK", 833, total_requests));
    status_codes.push(status_stat("304", "Not Modified", 100, total_requests));
    status_codes.push(status_stat("404", "Not Found", 40, total_requests));
    status_codes.push(status_stat("500", "Internal Server Error", 10, total_requests));
    status_codes.push(status_stat("Other", "Other", 17, total_requests));
    let mut countries: Vec<CountryStat> = Vec::new();
    countries.push(country_stat(1, "China", 400, total_requests));
    countries.push(country_stat(2, "United States", 200, total_requests));
    countries.push(country_stat(3, "Japan", 100, total_requests));
    countries.push(country_stat(4, "Germany", 60, total_requests));
    countries.push(country_stat(5, "United Kingdom", 50, total_requests));
    countries.push(country_stat(6, "France", 40, total_requests));
    countries.push(country_stat(7, "Canada", 30, total_requests));
    countries.push(country_stat(8, "Australia", 25, total_requests));
    countries.push(country_stat(9, "South Korea", 20, total_requests));
    countries.push(country_stat(10, "Singapore", 15, total_requests));
    let mut content: Vec<ContentStat> = Vec::new();
    content.push(content_stat(1, "/images/banner.jpg", 50, 100, total_requests, total_bytes));
    content.push(content_stat(2, "/css/style.css", 40, 8, total_requests, total_bytes));
    content.push(content_stat(3, "/js/app.js", 35, 36, total_requests, total_bytes));
    content.push(content_stat(4, "/index.html", 30, 3, total_requests, total_bytes));
    content.push(content_stat(5, "/api/data", 25, 26, total_requests, total_bytes));
    content.push(content_stat(6, "/images/logo.png", 20, 4, total_requests, total_bytes));
    content.push(content_stat(7, "/fonts/main.woff2", 18, 18, total_requests, total_bytes));
    content.push(content_stat(8, "/about.html", 15, 2, total_requests, total_bytes));
    content.push(content_stat(9, "/contact.html", 13, 1, total_requests, total_bytes));
    content.push(content_stat(10, "/products.html", 10, 1, total_requests, total_bytes));
    AnalyticsData { stats, timeseries, status_codes, countries, content }
}

} // verus!
