//! Zone-setting operations: reading the settings, the one-call-per-entry
//! batch update, and the two optimization presets.

use vstd::prelude::*;
use vstd::string::*;
use crate::decode::{decode_zone_setting_list, zone_setting_list_matches, zone_setting_list_ok};
use crate::envelope::{
    envelope_ok, envelope_result, spec_upstream_error_msg, unwrap_envelope,
    upstream_error_message,
};
use crate::error::RelayError;
use crate::json::{obj_lookup, JsonValue};
use crate::strutil::{concat3, concat4};
use crate::types::{OptimizeMode, UpdateSetting, ZoneSetting};
use crate::upstream::{HttpMethod, RequestBody, UpstreamRequest};

verus! {

pub fn get_zone_settings_request(zone_id: &str) -> (r: UpstreamRequest)
    ensures
        r.method == HttpMethod::Get,
        r.path@ == "/zones/"@ + zone_id@ + "/settings"@,
        r.body is Empty,
{
    UpstreamRequest {
        method: HttpMethod::Get,
        path: concat3("/zones/", zone_id, "/settings"),
        body: RequestBody::Empty,
    }
}

pub fn get_zone_settings_response(status: u16, body: JsonValue) -> (r: Result<
    Vec<ZoneSetting>,
    RelayError,
>)
    ensures
        r is Ok <==> envelope_ok(body) && (match envelope_result(body).spec_arr() {
            Some(items) => zone_setting_list_ok(items),
            None => false,
        }),
        r matches Ok(v) ==> (match envelope_result(body).spec_arr() {
            Some(items) => zone_setting_list_matches(items, v@),
            None => false,
        }),
        r matches Err(e) ==> (if !envelope_ok(body) {
            e matches RelayError::Upstream { status: s, message: m } && s == status && m@
                == spec_upstream_error_msg(body)
        } else {
            e matches RelayError::Decode(m) && m@ == "Failed to parse zone settings"@
        }),
{
    let result = match unwrap_envelope(status, body) {
        Ok(v) => v,
        Err(e) => return Err(e),
    };
    let items = match result.into_arr() {
        Some(v) => v,
        None => return Err(RelayError::Decode("Failed to parse zone settings".to_owned())),
    };
    match decode_zone_setting_list(items) {
        Ok(v) => Ok(v),
        Err(()) => Err(RelayError::Decode("Failed to parse zone settings".to_owned())),
    }
}

/// The PATCH for one entry of the batch: `{"value": <value>}` against the
/// setting's own endpoint.
pub fn setting_update_request(zone_id: &str, setting: UpdateSetting) -> (r: UpstreamRequest)
    ensures
        r.method == HttpMethod::Patch,
        r.path@ == "/zones/"@ + zone_id@ + "/settings/"@ + setting.id@,
        r.body matches RequestBody::Json(j) && j.spec_get("value"@) == Some(setting.value),
{
    let path = concat4("/zones/", zone_id, "/settings/", setting.id.as_str());
    let mut entries: Vec<(String, JsonValue)> = Vec::new();
    entries.push(("value".to_owned(), setting.value));
    let j = JsonValue::Obj(entries);
    proof {
        reveal_with_fuel(obj_lookup, 3);
    }
    UpstreamRequest { method: HttpMethod::Patch, path, body: RequestBody::Json(j) }
}

/// A failed entry is reported with the setting it was for, so the caller of
/// a batch learns which entry stopped it.
pub fn setting_update_response(status: u16, body: JsonValue, setting_id: &str) -> (r: Result<
    (),
    RelayError,
>)
    ensures
        r is Ok <==> envelope_ok(body),
        r matches Err(e) ==> (e matches RelayError::Upstream { status: s, message: m } && s
            == status && m@ == "for setting "@ + setting_id@ + ": "@ + spec_upstream_error_msg(
            body,
        )),
{
    let ok = match body.get_bool("success") {
        Some(b) => b,
        None => false,
    };
    if ok {
        Ok(())
    } else {
        let detail = upstream_error_message(&body);
        let message = concat4("for setting ", setting_id, ": ", detail.as_str());
        Err(RelayError::Upstream { status, message })
    }
}

/// The state of a batch update. Entries are issued strictly in order, one
/// upstream call each; after a failure is recorded no further entry can be
/// issued, so a failure on entry k leaves entries k+1.. untouched.
pub struct SettingsBatch {
    pub zone_id: String,
    pub remaining: Vec<UpdateSetting>,
    pub issued: usize,
    pub failed: bool,
}

pub fn settings_batch_new(zone_id: String, settings: Vec<UpdateSetting>) -> (b: SettingsBatch)
    ensures
        b.zone_id == zone_id,
        b.remaining == settings,
        b.issued == 0,
        !b.failed,
{
    SettingsBatch { zone_id, remaining: settings, issued: 0, failed: false }
}

impl SettingsBatch {
    /// Issues the next entry's request together with that entry's setting
    /// id, or reports the batch finished.
    pub fn next_request(&mut self) -> (r: Option<(String, UpstreamRequest)>)
        requires
            !old(self).failed,
            old(self).issued + old(self).remaining@.len() < usize::MAX,
        ensures
            final(self).zone_id == old(self).zone_id,
            final(self).failed == old(self).failed,
            old(self).remaining@.len() == 0 ==> r is None && *final(self) == *old(self),
            old(self).remaining@.len() > 0 ==> ({
                &&& r matches Some(p)
                &&& p.0@ == old(self).remaining@[0].id@
                &&& p.1.method == HttpMethod::Patch
                &&& p.1.path@ == "/zones/"@ + old(self).zone_id@ + "/settings/"@
                    + old(self).remaining@[0].id@
                &&& (p.1.body matches RequestBody::Json(j) && j.spec_get("value"@) == Some(
                    old(self).remaining@[0].value,
                ))
                &&& final(self).remaining@ == old(self).remaining@.skip(1)
                &&& final(self).issued == old(self).issued + 1
            }),
    {
        if self.remaining.len() == 0 {
            return None;
        }
        let setting = self.remaining.remove(0);
        self.issued = self.issued + 1;
        proof {
            assert(self.remaining@ =~= old(self).remaining@.skip(1));
        }
        let setting_id = setting.id.clone();
        Some((setting_id, setting_update_request(self.zone_id.as_str(), setting)))
    }

    /// Records that the entry just issued failed upstream; the batch stops.
    pub fn record_failure(&mut self)
        ensures
            final(self).failed,
            final(self).zone_id == old(self).zone_id,
            final(self).remaining == old(self).remaining,
            final(self).issued == old(self).issued,
    {
        self.failed = true;
    }
}

/// The message reported when every entry went through.
pub fn settings_batch_done_message() -> (r: String)
    ensures
        r@ == "Settings updated successfully"@,
{
    "Settings updated successfully".to_owned()
}

fn str_setting(id: &str, value: &str) -> (s: UpdateSetting)
    ensures
        s.id@ == id@,
        s.value.spec_str() == Some(value@),
{
    UpdateSetting { id: id.to_owned(), value: JsonValue::Str(value.to_owned()) }
}

fn int_setting(id: &str, value: i64) -> (s: UpdateSetting)
    ensures
        s.id@ == id@,
        s.value.spec_i64() == Some(value),
{
    UpdateSetting { id: id.to_owned(), value: JsonValue::Int(value) }
}

/// The hardening preset: twelve fixed setting writes.
pub fn security_settings() -> (v: Vec<UpdateSetting>)
    ensures
        v@.len() == 12,
        v@[0].id@ == "security_level"@ && v@[0].value.spec_str() == Some("high"@),
        v@[1].id@ == "ssl"@ && v@[1].value.spec_str() == Some("strict"@),
        v@[2].id@ == "always_use_https"@ && v@[2].value.spec_str() == Some("on"@),
        v@[3].id@ == "automatic_https_rewrites"@ && v@[3].value.spec_str() == Some("on"@),
        v@[4].id@ == "min_tls_version"@ && v@[4].value.spec_str() == Some("1.2"@),
        v@[5].id@ == "tls_1_3"@ && v@[5].value.spec_str() == Some("on"@),
        v@[6].id@ == "opportunistic_encryption"@ && v@[6].value.spec_str() == Some("on"@),
        v@[7].id@ == "browser_check"@ && v@[7].value.spec_str() == Some("on"@),
        v@[8].id@ == "challenge_ttl"@ && v@[8].value.spec_i64() == Some(1800i64),
        v@[9].id@ == "hotlink_protection"@ && v@[9].value.spec_str() == Some("on"@),
        v@[10].id@ == "cache_level"@ && v@[10].value.spec_str() == Some("basic"@),
        v@[11].id@ == "browser_cache_ttl"@ && v@[11].value.spec_i64() == Some(14400i64),
{
    let mut v: Vec<UpdateSetting> = Vec::new();
    v.push(str_setting("security_level", "high"));
    v.push(str_setting("ssl", "strict"));
    v.push(str_setting("always_use_https", "on"));
    v.push(str_setting("automatic_https_rewrites", "on"));
    v.push(str_setting("min_tls_version", "1.2"));
    v.push(str_setting("tls_1_3", "on"));
    v.push(str_setting("opportunistic_encryption", "on"));
    v.push(str_setting("browser_check", "on"));
    v.push(int_setting("challenge_ttl", 1800));
    v.push(str_setting("hotlink_protection", "on"));
    v.push(str_setting("cache_level", "basic"));
    v.push(int_setting("browser_cache_ttl", 14400));
    v
}

/// The speed preset: eleven fixed setting writes, one of them the nested
/// minify document.
pub fn performance_settings() -> (v: Vec<UpdateSetting>)
    ensures
        v@.len() == 11,
        v@[0].id@ == "cache_level"@ && v@[0].value.spec_str() == Some("aggressive"@),
        v@[1].id@ == "browser_cache_ttl"@ && v@[1].value.spec_i64() == Some(31536000i64),
        v@[2].id@ == "minify"@ && v@[2].value.field_str("css"@) == Some("on"@)
            && v@[2].value.field_str("html"@) == Some("on"@) && v@[2].value.field_str("js"@)
            == Some("on"@),
        v@[3].id@ == "brotli"@ && v@[3].value.spec_str() == Some("on"@),
        v@[4].id@ == "http3"@ && v@[4].value.spec_str() == Some("on"@),
        v@[5].id@ == "early_hints"@ && v@[5].value.spec_str() == Some("on"@),
        v@[6].id@ == "polish"@ && v@[6].value.spec_str() == Some("lossless"@),
        v@[7].id@ == "security_level"@ && v@[7].value.spec_str() == Some("low"@),
        v@[8].id@ == "ssl"@ && v@[8].value.spec_str() == Some("flexible"@),
        v@[9].id@ == "rocket_loader"@ && v@[9].value.spec_str() == Some("on"@),
        v@[10].id@ == "0rtt"@ && v@[10].value.spec_str() == Some("on"@),
{
    let mut v: Vec<UpdateSetting> = Vec::new();
    v.push(str_setting("cache_level", "aggressive"));
    v.push(int_setting("browser_cache_ttl", 31536000));
    let mut minify: Vec<(String, JsonValue)> = Vec::new();
    minify.push(("css".to_owned(), JsonValue::Str("on".to_owned())));
    minify.push(("html".to_owned(), JsonValue::Str("on".to_owned())));
    minify.push(("js".to_owned(), JsonValue::Str("on".to_owned())));
    let minify_value = JsonValue::Obj(minify);
    proof {
        reveal_with_fuel(obj_lookup, 5);
        reveal_strlit("css");
        reveal_strlit("html");
        reveal_strlit("js");
        assert("css"@.len() == 3);
        assert("html"@.len() == 4);
        assert("js"@.len() == 2);
        assert(minify_value.field_str("css"@) == Some("on"@));
        assert(minify_value.field_str("html"@) == Some("on"@));
        assert(minify_value.field_str("js"@) == Some("on"@));
    }
    v.push(UpdateSetting { id: "minify".to_owned(), value: minify_value });
    v.push(str_setting("brotli", "on"));
    v.push(str_setting("http3", "on"));
    v.push(str_setting("early_hints", "on"));
    v.push(str_setting("polish", "lossless"));
    v.push(str_setting("security_level", "low"));
    v.push(str_setting("ssl", "flexible"));
    v.push(str_setting("rocket_loader", "on"));
    v.push(str_setting("0rtt", "on"));
    v
}

/// The preset a mode selects.
pub fn optimize_zone_settings(mode: &OptimizeMode) -> (v: Vec<UpdateSetting>)
    ensures
        *mode == OptimizeMode::Security ==> v@.len() == 12,
        *mode == OptimizeMode::Performance ==> v@.len() == 11,
        *mode == OptimizeMode::Performance ==> v@[10].id@ == "0rtt"@,
        *mode == OptimizeMode::Security ==> v@[0].id@ == "security_level"@,
{
    match mode {
        OptimizeMode::Security => security_settings(),
        OptimizeMode::Performance => performance_settings(),
    }
}

} // verus!
