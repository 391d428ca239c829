//! Verified core of a management-API relay: it models the JSON payloads the
//! relay accepts, plans the upstream HTTP calls each operation makes, and
//! unwraps the upstream responses, with contracts on every step.
//!
//! The surrounding binary performs the actual HTTP traffic; everything here is
//! pure computation over plain values.

pub mod analytics;
pub mod credentials;
pub mod decode;
pub mod envelope;
pub mod error;
pub mod inbound;
pub mod json;
pub mod numfmt;
pub mod ops_cache;
pub mod ops_dns;
pub mod ops_d1;
pub mod ops_firewall;
pub mod ops_kv;
pub mod ops_pagerules;
pub mod ops_ratelimit;
pub mod ops_tls;
pub mod ops_waf;
pub mod ops_settings;
pub mod ops_workers;
pub mod ops_zones;
pub mod strutil;
pub mod timefmt;
pub mod types;
pub mod upstream;
pub mod urlenc;
