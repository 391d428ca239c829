//! Cache purging. The 30-item limits on file and tag purges are enforced
//! locally, before any upstream call is planned.

use vstd::prelude::*;
use vstd::string::*;
use crate::decode::str_list_matches;
use crate::envelope::{envelope_ok, envelope_result, spec_upstream_error_msg, unwrap_envelope};
use crate::error::RelayError;
use crate::json::{lemma_obj_lookup_some_key, obj_lookup, JsonValue};
use crate::strutil::concat3;
use crate::types::{PurgeCacheRequest, PurgeCacheResponse};
use crate::upstream::{HttpMethod, RequestBody, UpstreamRequest};

verus! {

/// The most files or tags a single purge call may carry.
pub const PURGE_ITEM_LIMIT: usize = 30;

fn json_string_array(v: &Vec<String>) -> (r: JsonValue)
    ensures
        r.spec_arr() matches Some(a) && str_list_matches(v@, a),
{
    let n = v.len();
    let mut items: Vec<JsonValue> = Vec::new();
    let mut i: usize = 0;
    while i < n
        invariant
            n == v@.len(),
            i <= n,
            items@.len() == i,
            forall|k: int| 0 <= k < i ==> items@[k] is Str && Some(v@[k]@) == items@[k].spec_str(),
        decreases n - i,
    {
        items.push(JsonValue::Str(v[i].clone()));
        i += 1;
    }
    JsonValue::Arr(items)
}

/// Whether the purge request is accepted locally: purge-everything, or at
/// most thirty files, or at most thirty tags.
pub open spec fn purge_accepted(req: PurgeCacheRequest) -> bool {
    if req.purge_everything == Some(true) {
        true
    } else if req.files is Some {
        req.files->0@.len() <= 30
    } else if req.tags is Some {
        req.tags->0@.len() <= 30
    } else {
        false
    }
}

pub fn purge_cache_request(req: &PurgeCacheRequest) -> (r: Result<UpstreamRequest, RelayError>)
    ensures
        r is Ok <==> purge_accepted(*req),
        r matches Ok(u) ==> ({
            &&& u.method == HttpMethod::Post
            &&& u.path@ == "/zones/"@ + req.zone_id@ + "/purge_cache"@
            &&& (u.body matches RequestBody::Json(j) && (if req.purge_everything == Some(true) {
                j.field_bool("purge_everything"@) == Some(true) && j.keys_among(
                    set!["purge_everything"@],
                )
            } else if req.files is Some {
                (match j.field_arr("files"@) {
                    Some(a) => str_list_matches(req.files->0@, a),
                    None => false,
                }) && j.keys_among(set!["files"@])
            } else {
                (match j.field_arr("tags"@) {
                    Some(a) => str_list_matches(req.tags->0@, a),
                    None => false,
                }) && j.keys_among(set!["tags"@])
            }))
        }),
        r matches Err(e) ==> e matches RelayError::Validation(m) && (if req.purge_everything
            != Some(true) && req.files is Some {
            m@ == "Maximum 30 files allowed per request"@
        } else if req.purge_everything != Some(true) && req.tags is Some {
            m@ == "Maximum 30 tags allowed per request"@
        } else {
            m@ == "Must specify purge_everything, files, or tags"@
        }),
{
    let path = concat3("/zones/", req.zone_id.as_str(), "/purge_cache");
    let purge_everything = match req.purge_everything {
        Some(b) => b,
        None => false,
    };
    let mut entries: Vec<(String, JsonValue)> = Vec::new();
    if purge_everything {
        entries.push(("purge_everything".to_owned(), JsonValue::Bool(true)));
    } else if let Some(files) = &req.files {
        if files.len() > PURGE_ITEM_LIMIT {
            return Err(RelayError::Validation("Maximum 30 files allowed per request".to_owned()));
        }
        entries.push(("files".to_owned(), json_string_array(files)));
    } else if let Some(tags) = &req.tags {
        if tags.len() > PURGE_ITEM_LIMIT {
            return Err(RelayError::Validation("Maximum 30 tags allowed per request".to_owned()));
        }
        entries.push(("tags".to_owned(), json_string_array(tags)));
    } else {
        return Err(RelayError::Validation("Must specify purge_everything, files, or tags".to_owned()));
    }
    let ghost eseq = entries@;
    let j = JsonValue::Obj(entries);
    proof {
        reveal_with_fuel(obj_lookup, 3);
        assert forall|k: Seq<char>| j.spec_get(k) is Some implies k == eseq[0].0@ by {
            lemma_obj_lookup_some_key(eseq, k);
        }
        if purge_everything {
            assert(j.keys_among(set!["purge_everything"@]));
        } else if req.files.is_some() {
            assert(j.keys_among(set!["files"@]));
        } else {
            assert(j.keys_among(set!["tags"@]));
        }
    }
    Ok(UpstreamRequest { method: HttpMethod::Post, path, body: RequestBody::Json(j) })
}

/// The purge reply carries an id when upstream assigns one; otherwise the
/// fixed word is used.
pub fn purge_cache_response(status: u16, body: JsonValue) -> (r: Result<
    PurgeCacheResponse,
    RelayError,
>)
    ensures
        r is Ok <==> envelope_ok(body),
        r matches Ok(p) ==> p.id@ == (match envelope_result(body).field_str("id"@) {
            Some(s) => s,
            None => "success"@,
        }),
        r matches Err(e) ==> (e matches RelayError::Upstream { status: s, message: m } && s
            == status && m@ == spec_upstream_error_msg(body)),
{
    let result = match unwrap_envelope(status, body) {
        Ok(v) => v,
        Err(e) => return Err(e),
    };
    let id = match result.get_string("id") {
        Some(s) => s,
        None => "success".to_owned(),
    };
    Ok(PurgeCacheResponse { id })
}

} // verus!
