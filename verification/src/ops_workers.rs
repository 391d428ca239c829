//! Edge-function (worker) operations: script generation and upload, listing,
//! deletion, and route management.

use vstd::prelude::*;
use vstd::string::*;
use crate::decode::{
    decode_route, decode_route_list, decode_worker_list, route_list_matches, route_matches,
    route_ok, worker_list_matches,
};
use crate::envelope::{envelope_ok, envelope_result, spec_upstream_error_msg, unwrap_envelope};
use crate::error::RelayError;
use crate::json::{obj_lookup, JsonValue};
use crate::numfmt::{spec_dec, u64_to_dec};
use crate::strutil::{concat2, concat3, concat4};
use crate::types::{DeployWorkerRequest, Worker, WorkerRoute};
use crate::upstream::{HttpMethod, RequestBody, UpstreamRequest};

verus! {

/// The generated reverse-proxy script as a function of the deployment
/// parameters: it rewrites the request's hostname to the target origin,
/// serves from the edge cache keyed by the rewritten URL, and on a miss
/// fetches the origin, marks the response cacheable when the configured TTL
/// is positive, and fills the cache without blocking.
pub open spec fn spec_worker_script(target_url: Seq<char>, cdn_node: Seq<char>, cache_ttl: u64) -> Seq<char> {
    "
addEventListener('fetch', event => {
    event.respondWith(handleRequest(event.request))
})

async function handleRequest(request) {
    const targetUrl = '"@ + target_url + "';
    const cdnNode = '"@ + cdn_node + "';
    const cacheTtl = "@ + spec_dec(cache_ttl) + ";

    const url = new URL(request.url);
    url.hostname = new URL(targetUrl).hostname;

    const modifiedRequest = new Request(url.toString(), {
        method: request.method,
        headers: request.headers,
        body: request.body,
    });

    const cacheKey = new Request(url.toString(), modifiedRequest);
    const cache = caches.default;

    let response = await cache.match(cacheKey);

    if (!response) {
        response = await fetch(modifiedRequest);

        if (response.ok && cacheTtl > 0) {
            const newHeaders = new Headers(response.headers);
            newHeaders.set('Cache-Control', `public, max-age=${cacheTtl}`);

            response = new Response(response.body, {
                status: response.status,
                statusText: response.statusText,
                headers: newHeaders
            });

            event.waitUntil(cache.put(cacheKey, response.clone()));
        }
    }

    return response;
}
"@
}

pub fn generate_worker_script(req: &DeployWorkerRequest) -> (r: String)
    ensures
        r@ == spec_worker_script(req.target_url@, req.cdn_node@, req.cache_ttl as u64),
{
    let ttl = u64_to_dec(req.cache_ttl as u64);
    let head = concat2(
        "
addEventListener('fetch', event => {
    event.respondWith(handleRequest(event.request))
})

async function handleRequest(request) {
    const targetUrl = '",
        req.target_url.as_str(),
    );
    let mid = concat4("';
    const cdnNode = '", req.cdn_node.as_str(), "';
    const cacheTtl = ", ttl.as_str());
    let tail = ";

    const url = new URL(request.url);
    url.hostname = new URL(targetUrl).hostname;

    const modifiedRequest = new Request(url.toString(), {
        method: request.method,
        headers: request.headers,
        body: request.body,
    });

    const cacheKey = new Request(url.toString(), modifiedRequest);
    const cache = caches.default;

    let response = await cache.match(cacheKey);

    if (!response) {
        response = await fetch(modifiedRequest);

        if (response.ok && cacheTtl > 0) {
            const newHeaders = new Headers(response.headers);
            newHeaders.set('Cache-Control', `public, max-age=${cacheTtl}`);

            response = new Response(response.body, {
                status: response.status,
                statusText: response.statusText,
                headers: newHeaders
            });

            event.waitUntil(cache.put(cacheKey, response.clone()));
        }
    }

    return response;
}
";
    concat3(head.as_str(), mid.as_str(), tail)
}

/// The deploy convenience call uploads the generated script under the script
/// name, as a plain javascript body. Note: unlike the per-account worker
/// calls, this path carries no account id, because the deploy request itself
/// carries none.
pub fn deploy_worker_request(req: &DeployWorkerRequest) -> (r: UpstreamRequest)
    ensures
        r.method == HttpMethod::Put,
        r.path@ == "/accounts/workers/scripts/"@ + req.script_name@,
        r.body matches RequestBody::Script(s) && s@ == spec_worker_script(
            req.target_url@,
            req.cdn_node@,
            req.cache_ttl as u64,
        ),
{
    let script = generate_worker_script(req);
    let path = concat2("/accounts/workers/scripts/", req.script_name.as_str());
    UpstreamRequest { method: HttpMethod::Put, path, body: RequestBody::Script(script) }
}

pub fn deploy_worker_response(status: u16, body: JsonValue, script_name: &str) -> (r: Result<
    String,
    RelayError,
>)
    ensures
        r is Ok <==> envelope_ok(body),
        r matches Ok(s) ==> s@ == "Worker "@ + script_name@ + " deployed successfully"@,
        r matches Err(e) ==> (e matches RelayError::Upstream { status: s, message: m } && s
            == status && m@ == spec_upstream_error_msg(body)),
{
    match unwrap_envelope(status, body) {
        Ok(_) => Ok(concat3("Worker ", script_name, " deployed successfully")),
        Err(e) => Err(e),
    }
}

pub fn list_workers_request(account_id: &str) -> (r: UpstreamRequest)
    ensures
        r.method == HttpMethod::Get,
        r.path@ == "/accounts/"@ + account_id@ + "/workers/scripts"@,
        r.body is Empty,
{
    UpstreamRequest {
        method: HttpMethod::Get,
        path: concat3("/accounts/", account_id, "/workers/scripts"),
        body: RequestBody::Empty,
    }
}

pub fn list_workers_response(status: u16, body: JsonValue) -> (r: Result<Vec<Worker>, RelayError>)
    ensures
        r is Ok <==> envelope_ok(body) && envelope_result(body).spec_arr() is Some,
        r matches Ok(v) ==> (match envelope_result(body).spec_arr() {
            Some(items) => worker_list_matches(items, v@),
            None => false,
        }),
        r matches Err(e) ==> (if !envelope_ok(body) {
            e matches RelayError::Upstream { status: s, message: m } && s == status && m@
                == spec_upstream_error_msg(body)
        } else {
            e matches RelayError::Decode(m) && m@ == "Invalid result format"@
        }),
{
    let result = match unwrap_envelope(status, body) {
        Ok(v) => v,
        Err(e) => return Err(e),
    };
    let items = match result.into_arr() {
        Some(v) => v,
        None => return Err(RelayError::Decode("Invalid result format".to_owned())),
    };
    Ok(decode_worker_list(&items))
}

pub fn get_worker_request(account_id: &str, script_name: &str) -> (r: UpstreamRequest)
    ensures
        r.method == HttpMethod::Get,
        r.path@ == "/accounts/"@ + account_id@ + "/workers/scripts/"@ + script_name@,
        r.body is Empty,
{
    UpstreamRequest {
        method: HttpMethod::Get,
        path: concat4("/accounts/", account_id, "/workers/scripts/", script_name),
        body: RequestBody::Empty,
    }
}

pub fn delete_worker_request(account_id: &str, script_name: &str) -> (r: UpstreamRequest)
    ensures
        r.method == HttpMethod::Delete,
        r.path@ == "/accounts/"@ + account_id@ + "/workers/scripts/"@ + script_name@,
        r.body is Empty,
{
    UpstreamRequest {
        method: HttpMethod::Delete,
        path: concat4("/accounts/", account_id, "/workers/scripts/", script_name),
        body: RequestBody::Empty,
    }
}

pub fn delete_worker_response(status: u16, body: JsonValue, script_name: &str) -> (r: Result<
    String,
    RelayError,
>)
    ensures
        r is Ok <==> envelope_ok(body),
        r matches Ok(s) ==> s@ == "Worker "@ + script_name@ + " deleted successfully"@,
        r matches Err(e) ==> (e matches RelayError::Upstream { status: s, message: m } && s
            == status && m@ == spec_upstream_error_msg(body)),
{
    match unwrap_envelope(status, body) {
        Ok(_) => Ok(concat3("Worker ", script_name, " deleted successfully")),
        Err(e) => Err(e),
    }
}

/// The fixed metadata part of a module upload.
pub fn upload_worker_request(account_id: &str, script_name: &str, script_content: &str) -> (r:
    UpstreamRequest)
    ensures
        r.method == HttpMethod::Put,
        r.path@ == "/accounts/"@ + account_id@ + "/workers/scripts/"@ + script_name@,
        r.body matches RequestBody::Multipart { metadata_part, script_part } && metadata_part@
            == "{\"main_module\":\"worker.js\",\"compatibility_date\":\"2024-01-01\"}"@
            && script_part@ == script_content@,
{
    UpstreamRequest {
        method: HttpMethod::Put,
        path: concat4("/accounts/", account_id, "/workers/scripts/", script_name),
        body: RequestBody::Multipart {
            metadata_part:
                "{\"main_module\":\"worker.js\",\"compatibility_date\":\"2024-01-01\"}".to_owned(),
            script_part: script_content.to_owned(),
        },
    }
}

pub fn upload_worker_response(status: u16, body: JsonValue) -> (r: Result<JsonValue, RelayError>)
    ensures
        r is Ok <==> envelope_ok(body),
        r matches Ok(v) ==> v == envelope_result(body),
        r matches Err(e) ==> (e matches RelayError::Upstream { status: s, message: m } && s
            == status && m@ == spec_upstream_error_msg(body)),
{
    unwrap_envelope(status, body)
}

pub fn get_worker_routes_request(zone_id: &str) -> (r: UpstreamRequest)
    ensures
        r.method == HttpMethod::Get,
        r.path@ == "/zones/"@ + zone_id@ + "/workers/routes"@,
        r.body is Empty,
{
    UpstreamRequest {
        method: HttpMethod::Get,
        path: concat3("/zones/", zone_id, "/workers/routes"),
        body: RequestBody::Empty,
    }
}

pub fn get_worker_routes_response(status: u16, body: JsonValue) -> (r: Result<
    Vec<WorkerRoute>,
    RelayError,
>)
    ensures
        r is Ok <==> envelope_ok(body) && envelope_result(body).spec_arr() is Some,
        r matches Ok(v) ==> (match envelope_result(body).spec_arr() {
            Some(items) => route_list_matches(items, v@),
            None => false,
        }),
        r matches Err(e) ==> (if !envelope_ok(body) {
            e matches RelayError::Upstream { status: s, message: m } && s == status && m@
                == spec_upstream_error_msg(body)
        } else {
            e matches RelayError::Decode(m) && m@ == "Invalid result format"@
        }),
{
    let result = match unwrap_envelope(status, body) {
        Ok(v) => v,
        Err(e) => return Err(e),
    };
    let items = match result.into_arr() {
        Some(v) => v,
        None => return Err(RelayError::Decode("Invalid result format".to_owned())),
    };
    Ok(decode_route_list(&items))
}

pub fn create_worker_route_request(zone_id: &str, pattern: &str, script_name: &str) -> (r:
    UpstreamRequest)
    ensures
        r.method == HttpMethod::Post,
        r.path@ == "/zones/"@ + zone_id@ + "/workers/routes"@,
        r.body matches RequestBody::Json(j) && j.field_str("pattern"@) == Some(pattern@)
            && j.field_str("script"@) == Some(script_name@),
{
    let mut entries: Vec<(String, JsonValue)> = Vec::new();
    entries.push(("pattern".to_owned(), JsonValue::Str(pattern.to_owned())));
    entries.push(("script".to_owned(), JsonValue::Str(script_name.to_owned())));
    let j = JsonValue::Obj(entries);
    proof {
        reveal_with_fuel(obj_lookup, 4);
        reveal_strlit("pattern");
        reveal_strlit("script");
        assert("pattern"@.len() == 7);
        assert("script"@.len() == 6);
        assert("pattern"@ != "script"@);
        assert(j.field_str("pattern"@) == Some(pattern@));
        assert(j.field_str("script"@) == Some(script_name@));
    }
    UpstreamRequest {
        method: HttpMethod::Post,
        path: concat3("/zones/", zone_id, "/workers/routes"),
        body: RequestBody::Json(j),
    }
}

pub fn create_worker_route_response(status: u16, body: JsonValue) -> (r: Result<
    WorkerRoute,
    RelayError,
>)
    ensures
        r is Ok <==> envelope_ok(body) && route_ok(envelope_result(body)),
        r matches Ok(w) ==> route_matches(envelope_result(body), w),
        r matches Err(e) ==> (if !envelope_ok(body) {
            e matches RelayError::Upstream { status: s, message: m } && s == status && m@
                == spec_upstream_error_msg(body)
        } else {
            e matches RelayError::Decode(m) && m@ == "Failed to parse route"@
        }),
{
    let result = match unwrap_envelope(status, body) {
        Ok(v) => v,
        Err(e) => return Err(e),
    };
    match decode_route(&result) {
        Ok(w) => Ok(w),
        Err(()) => Err(RelayError::Decode("Failed to parse route".to_owned())),
    }
}

pub fn delete_worker_route_request(zone_id: &str, route_id: &str) -> (r: UpstreamRequest)
    ensures
        r.method == HttpMethod::Delete,
        r.path@ == "/zones/"@ + zone_id@ + "/workers/routes/"@ + route_id@,
        r.body is Empty,
{
    UpstreamRequest {
        method: HttpMethod::Delete,
        path: concat4("/zones/", zone_id, "/workers/routes/", route_id),
        body: RequestBody::Empty,
    }
}

pub fn delete_worker_route_response(status: u16, body: JsonValue) -> (r: Result<
    String,
    RelayError,
>)
    ensures
        r is Ok <==> envelope_ok(body),
        r matches Ok(s) ==> s@ == "Route deleted successfully"@,
        r matches Err(e) ==> (e matches RelayError::Upstream { status: s, message: m } && s
            == status && m@ == spec_upstream_error_msg(body)),
{
    match unwrap_envelope(status, body) {
        Ok(_) => Ok("Route deleted successfully".to_owned()),
        Err(e) => Err(e),
    }
}

} // verus!
