//! The caller-facing data model: one plain record per upstream resource and
//! one record per operation's input. Identifier fields accept two spellings
//! on the wire (snake_case and camelCase); the parsers in `inbound` normalize
//! them into these types.

use vstd::prelude::*;
use crate::json::JsonValue;

verus! {

pub use crate::credentials::CloudflareCredentials;

/// Every inbound call carries credentials next to its operation fields.
pub struct CloudflareRequest<T> {
    pub credentials: CloudflareCredentials,
    pub data: T,
}

pub struct CloudflareAccount {
    pub id: String,
    pub name: String,
    pub settings: Option<JsonValue>,
}

pub struct Zone {
    pub id: String,
    pub name: String,
    pub status: String,
    pub name_servers: Vec<String>,
}

pub struct DnsRecord {
    pub id: Option<String>,
    pub zone_id: Option<String>,
    pub record_type: String,
    pub name: String,
    pub content: String,
    pub ttl: u32,
    pub proxied: bool,
    pub priority: Option<u16>,
}

/// The `ttl` a record gets when none is supplied: 1, meaning "automatic".
pub fn default_ttl() -> (r: u32)
    ensures
        r == 1,
{
    1
}

pub fn default_false() -> (r: bool)
    ensures
        !r,
{
    false
}

pub struct GetDnsRecordsRequest {
    pub zone_id: String,
}

pub struct DeleteRecordRequest {
    pub zone_id: String,
    pub record_id: String,
}

pub struct FirewallFilter {
    pub id: Option<String>,
    pub expression: String,
    pub description: Option<String>,
}

pub struct FirewallRule {
    pub id: Option<String>,
    pub filter: FirewallFilter,
    pub action: String,
    pub description: Option<String>,
    pub paused: bool,
}

pub struct GetFirewallRulesRequest {
    pub zone_id: String,
}

pub struct DeleteFirewallRuleRequest {
    pub zone_id: String,
    pub rule_id: String,
}

pub struct CreateFirewallRuleRequest {
    pub zone_id: String,
    pub rule: FirewallRule,
}

pub struct UpdateFirewallRuleRequest {
    pub zone_id: String,
    pub rule_id: String,
    pub rule: FirewallRule,
}

pub struct DeployWorkerRequest {
    pub zone_id: String,
    pub script_name: String,
    pub target_url: String,
    pub access_domain: String,
    pub cache_ttl: u32,
    pub cdn_node: String,
}

pub struct ListWorkersRequest {
    pub account_id: String,
}

pub struct Worker {
    pub id: String,
    pub etag: Option<String>,
    pub created_on: Option<String>,
    pub modified_on: Option<String>,
}

pub struct GetWorkerRequest {
    pub account_id: String,
    pub script_name: String,
}

pub struct DeleteWorkerRequest {
    pub account_id: String,
    pub script_name: String,
}

pub struct UploadWorkerRequest {
    pub account_id: String,
    pub script_name: String,
    pub script_content: String,
}

pub struct GetWorkerRoutesRequest {
    pub zone_id: String,
}

pub struct WorkerRoute {
    pub id: String,
    pub pattern: String,
    pub script: Option<String>,
}

pub struct CreateWorkerRouteRequest {
    pub zone_id: String,
    pub pattern: String,
    pub script_name: String,
}

pub struct DeleteWorkerRouteRequest {
    pub zone_id: String,
    pub route_id: String,
}

pub struct GetZoneSettingsRequest {
    pub zone_id: String,
}

pub struct ZoneSetting {
    pub id: String,
    pub value: JsonValue,
    pub modified_on: Option<String>,
}

pub struct UpdateSetting {
    pub id: String,
    pub value: JsonValue,
}

pub struct UpdateZoneSettingsRequest {
    pub zone_id: String,
    pub settings: Vec<UpdateSetting>,
}

pub struct OptimizeZoneRequest {
    pub zone_id: String,
    pub mode: OptimizeMode,
}

#[derive(Clone, Copy, PartialEq, Eq, Structural, Debug)]
pub enum OptimizeMode {
    Security,
    Performance,
}

pub struct GetAnalyticsRequest {
    pub zone_id: String,
    pub time_range: String,
}

/// One aggregated bucket as reported by the analytics endpoint.
pub struct BucketSum {
    pub timestamp: String,
    pub requests: u64,
    pub cached: u64,
    pub bytes: u64,
    pub threats: u64,
}

pub struct AnalyticsData {
    pub stats: AnalyticsStats,
    pub timeseries: Vec<TimeseriesPoint>,
    pub status_codes: Vec<StatusCodeStat>,
    pub countries: Vec<CountryStat>,
    pub content: Vec<ContentStat>,
}

/// Aggregate counters. The cache-hit rate is carried in hundredths of a
/// percent and the bandwidth in hundredths of a gibibyte, so that both stay
/// exact integers.
pub struct AnalyticsStats {
    pub total_requests: u64,
    pub cache_hit_rate_centi_pct: u64,
    pub bandwidth_centi_gib: u64,
    pub threats: u64,
}

pub struct TimeseriesPoint {
    pub timestamp: String,
    pub requests: u64,
    pub cached: u64,
    pub uncached: u64,
}

/// Illustrative status-code breakdown: a fixed share of the total, carried
/// in tenths of a percent.
pub struct StatusCodeStat {
    pub code: String,
    pub description: String,
    pub count: u64,
    pub permille: u32,
}

pub struct CountryStat {
    pub rank: u32,
    pub country: String,
    pub requests: u64,
    pub permille: u32,
}

pub struct ContentStat {
    pub rank: u32,
    pub url: String,
    pub requests: u64,
    pub bandwidth: String,
}

pub struct PurgeCacheRequest {
    pub zone_id: String,
    pub purge_everything: Option<bool>,
    pub files: Option<Vec<String>>,
    pub tags: Option<Vec<String>>,
}

pub struct PurgeCacheResponse {
    pub id: String,
}

pub struct GetPageRulesRequest {
    pub zone_id: String,
}

pub struct PageRuleConstraint {
    pub operator: String,
    pub value: String,
}

pub struct PageRuleTarget {
    pub target: String,
    pub constraint: PageRuleConstraint,
}

pub struct PageRuleAction {
    pub id: String,
    pub value: JsonValue,
}

pub struct PageRule {
    pub id: Option<String>,
    pub targets: Vec<PageRuleTarget>,
    pub actions: Vec<PageRuleAction>,
    pub priority: Option<u32>,
    pub status: Option<String>,
}

pub struct CreatePageRuleRequest {
    pub zone_id: String,
    pub rule: PageRule,
}

pub struct UpdatePageRuleRequest {
    pub zone_id: String,
    pub rule_id: String,
    pub rule: PageRule,
}

pub struct DeletePageRuleRequest {
    pub zone_id: String,
    pub rule_id: String,
}

pub struct GetSslCertificatesRequest {
    pub zone_id: String,
}

pub struct SslCertificate {
    pub id: String,
    pub cert_type: String,
    pub status: String,
    pub primary_certificate: Option<String>,
    pub certificates: Option<Vec<CertificateDetail>>,
    pub hosts: Option<Vec<String>>,
}

pub struct CertificateDetail {
    pub id: String,
    pub status: String,
    pub issuer: String,
    pub signature: String,
    pub serial_number: String,
    pub expires_on: String,
    pub uploaded_on: String,
}

pub struct UploadCustomCertificateRequest {
    pub zone_id: String,
    pub certificate: String,
    pub private_key: String,
    pub bundle_method: Option<String>,
}

pub struct GetCustomCertificatesRequest {
    pub zone_id: String,
}

pub struct CustomCertificate {
    pub id: String,
    pub status: String,
    pub issuer: String,
    pub signature: String,
    pub expires_on: String,
    pub uploaded_on: String,
    pub modified_on: String,
    pub hosts: Vec<String>,
    pub bundle_method: Option<String>,
}

pub struct DeleteCustomCertificateRequest {
    pub zone_id: String,
    pub certificate_id: String,
}

pub struct GetWafPackagesRequest {
    pub zone_id: String,
}

pub struct WafPackage {
    pub id: String,
    pub name: String,
    pub description: String,
    pub detection_mode: String,
    pub sensitivity: Option<String>,
    pub action_mode: Option<String>,
}

pub struct GetWafRulesRequest {
    pub zone_id: String,
    pub package_id: String,
}

pub struct WafRuleGroup {
    pub id: String,
    pub name: String,
}

pub struct WafRule {
    pub id: String,
    pub description: String,
    pub priority: String,
    pub group: WafRuleGroup,
    pub mode: String,
    pub allowed_modes: Vec<String>,
}

pub struct UpdateWafRuleRequest {
    pub zone_id: String,
    pub package_id: String,
    pub rule_id: String,
    pub mode: String,
}

pub struct UpdateWafPackageRequest {
    pub zone_id: String,
    pub package_id: String,
    pub sensitivity: Option<String>,
    pub action_mode: Option<String>,
}

pub struct GetRateLimitsRequest {
    pub zone_id: String,
}

pub struct MatchRequest {
    pub url: String,
    pub methods: Option<Vec<String>>,
    pub schemes: Option<Vec<String>>,
}

pub struct RateLimitResponse {
    pub content_type: String,
    pub body: String,
}

pub struct RateLimitAction {
    pub mode: String,
    pub timeout: Option<u32>,
    pub response: Option<RateLimitResponse>,
}

pub struct RateLimit {
    pub id: String,
    pub disabled: bool,
    pub description: String,
    pub match_request: MatchRequest,
    pub threshold: u32,
    pub period: u32,
    pub action: RateLimitAction,
}

pub struct CreateRateLimitRequest {
    pub zone_id: String,
    pub disabled: bool,
    pub description: String,
    pub match_request: MatchRequest,
    pub threshold: u32,
    pub period: u32,
    pub action: RateLimitAction,
}

pub struct UpdateRateLimitRequest {
    pub zone_id: String,
    pub rate_limit_id: String,
    pub disabled: bool,
    pub description: String,
    pub match_request: MatchRequest,
    pub threshold: u32,
    pub period: u32,
    pub action: RateLimitAction,
}

pub struct DeleteRateLimitRequest {
    pub zone_id: String,
    pub rate_limit_id: String,
}

pub struct ListKVNamespacesRequest {
    pub account_id: String,
}

pub struct CreateKVNamespaceRequest {
    pub account_id: String,
    pub title: String,
}

pub struct DeleteKVNamespaceRequest {
    pub account_id: String,
    pub namespace_id: String,
}

pub struct ListKVKeysRequest {
    pub account_id: String,
    pub namespace_id: String,
    pub prefix: Option<String>,
}

pub struct ReadKVValueRequest {
    pub account_id: String,
    pub namespace_id: String,
    pub key: String,
}

pub struct WriteKVValueRequest {
    pub account_id: String,
    pub namespace_id: String,
    pub key: String,
    pub value: String,
    pub expiration_ttl: Option<u64>,
    pub metadata: Option<JsonValue>,
}

pub struct DeleteKVKeyRequest {
    pub account_id: String,
    pub namespace_id: String,
    pub key: String,
}

pub struct ListD1DatabasesRequest {
    pub account_id: String,
}

pub struct CreateD1DatabaseRequest {
    pub account_id: String,
    pub name: String,
}

pub struct DeleteD1DatabaseRequest {
    pub account_id: String,
    pub database_id: String,
}

pub struct ExecuteD1QueryRequest {
    pub account_id: String,
    pub database_id: String,
    pub query: String,
}

} // verus!
