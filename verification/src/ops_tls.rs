//! TLS certificate operations: managed certificate packs and custom
//! certificates.

use vstd::prelude::*;
use vstd::string::*;
use crate::decode::{
    custom_cert_matches, custom_cert_ok, custom_certs_filtered, decode_custom_certificate,
    decode_custom_certificate_list, decode_ssl_certificate_list, ssl_cert_list_matches,
    ssl_cert_list_ok,
};
use crate::envelope::{envelope_ok, envelope_result, spec_upstream_error_msg, unwrap_envelope};
use crate::error::RelayError;
use crate::json::{obj_lookup, JsonValue};
use crate::strutil::{concat3, concat4};
use crate::types::{CustomCertificate, SslCertificate};
use crate::upstream::{HttpMethod, RequestBody, UpstreamRequest};

verus! {

pub fn get_ssl_certificates_request(zone_id: &str) -> (r: UpstreamRequest)
    ensures
        r.method == HttpMethod::Get,
        r.path@ == "/zones/"@ + zone_id@ + "/ssl/certificate_packs"@,
        r.body is Empty,
{
    UpstreamRequest {
        method: HttpMethod::Get,
        path: concat3("/zones/", zone_id, "/ssl/certificate_packs"),
        body: RequestBody::Empty,
    }
}

pub fn get_ssl_certificates_response(status: u16, body: JsonValue) -> (r: Result<
    Vec<SslCertificate>,
    RelayError,
>)
    ensures
        r is Ok <==> envelope_ok(body) && (match envelope_result(body).spec_arr() {
            Some(items) => ssl_cert_list_ok(items),
            None => false,
        }),
        r matches Ok(v) ==> (match envelope_result(body).spec_arr() {
            Some(items) => ssl_cert_list_matches(items, v@),
            None => false,
        }),
        r matches Err(e) ==> (if !envelope_ok(body) {
            e matches RelayError::Upstream { status: s, message: m } && s == status && m@
                == spec_upstream_error_msg(body)
        } else {
            e matches RelayError::Decode(m) && m@ == "Failed to parse SSL certificates"@
        }),
{
    let result = match unwrap_envelope(status, body) {
        Ok(v) => v,
        Err(e) => return Err(e),
    };
    let items = match result.into_arr() {
        Some(v) => v,
        None => return Err(RelayError::Decode("Failed to parse SSL certificates".to_owned())),
    };
    match decode_ssl_certificate_list(&items) {
        Ok(v) => Ok(v),
        Err(()) => Err(RelayError::Decode("Failed to parse SSL certificates".to_owned())),
    }
}

pub fn get_custom_certificates_request(zone_id: &str) -> (r: UpstreamRequest)
    ensures
        r.method == HttpMethod::Get,
        r.path@ == "/zones/"@ + zone_id@ + "/custom_certificates"@,
        r.body is Empty,
{
    UpstreamRequest {
        method: HttpMethod::Get,
        path: concat3("/zones/", zone_id, "/custom_certificates"),
        body: RequestBody::Empty,
    }
}

/// Elements that do not fit the strict certificate shape are skipped rather
/// than failing the whole list.
pub fn get_custom_certificates_response(status: u16, body: JsonValue) -> (r: Result<
    Vec<CustomCertificate>,
    RelayError,
>)
    ensures
        r is Ok <==> envelope_ok(body) && envelope_result(body).spec_arr() is Some,
        r matches Ok(v) ==> (match envelope_result(body).spec_arr() {
            Some(items) => custom_certs_filtered(items, v@),
            None => false,
        }),
        r matches Err(e) ==> (if !envelope_ok(body) {
            e matches RelayError::Upstream { status: s, message: m } && s == status && m@
                == spec_upstream_error_msg(body)
        } else {
            e matches RelayError::Decode(m) && m@ == "Invalid result format"@
        }),
{
    let result = match unwrap_envelope(status, body) {
        Ok(v) => v,
        Err(e) => return Err(e),
    };
    let items = match result.into_arr() {
        Some(v) => v,
        None => return Err(RelayError::Decode("Invalid result format".to_owned())),
    };
    Ok(decode_custom_certificate_list(&items))
}

/// The upload body: the PEM pair, plus the bundle method only when given.
pub fn upload_custom_certificate_request(
    zone_id: &str,
    certificate: &str,
    private_key: &str,
    bundle_method: &Option<String>,
) -> (r: UpstreamRequest)
    ensures
        r.method == HttpMethod::Post,
        r.path@ == "/zones/"@ + zone_id@ + "/custom_certificates"@,
        r.body matches RequestBody::Json(j) && ({
            &&& j.field_str("certificate"@) == Some(certificate@)
            &&& j.field_str("private_key"@) == Some(private_key@)
            &&& (match bundle_method {
                Some(m) => j.field_str("bundle_method"@) == Some(m@),
                None => j.spec_get("bundle_method"@) is None,
            })
        }),
{
    let mut entries: Vec<(String, JsonValue)> = Vec::new();
    entries.push(("certificate".to_owned(), JsonValue::Str(certificate.to_owned())));
    entries.push(("private_key".to_owned(), JsonValue::Str(private_key.to_owned())));
    match bundle_method {
        Some(m) => entries.push(("bundle_method".to_owned(), JsonValue::Str(m.clone()))),
        None => (),
    }
    let j = JsonValue::Obj(entries);
    proof {
        reveal_with_fuel(obj_lookup, 5);
        reveal_strlit("certificate");
        reveal_strlit("private_key");
        reveal_strlit("bundle_method");
        assert("certificate"@.len() == 11);
        assert("private_key"@.len() == 11);
        assert("bundle_method"@.len() == 13);
        assert("certificate"@[0] == 'c');
        assert("private_key"@[0] == 'p');
    }
    UpstreamRequest {
        method: HttpMethod::Post,
        path: concat3("/zones/", zone_id, "/custom_certificates"),
        body: RequestBody::Json(j),
    }
}

pub fn upload_custom_certificate_response(status: u16, body: JsonValue) -> (r: Result<
    CustomCertificate,
    RelayError,
>)
    ensures
        r is Ok <==> envelope_ok(body) && custom_cert_ok(envelope_result(body)),
        r matches Ok(c) ==> custom_cert_matches(envelope_result(body), c),
        r matches Err(e) ==> (if !envelope_ok(body) {
            e matches RelayError::Upstream { status: s, message: m } && s == status && m@
                == spec_upstream_error_msg(body)
        } else {
            e matches RelayError::Decode(m) && m@ == "Failed to parse certificate"@
        }),
{
    let result = match unwrap_envelope(status, body) {
        Ok(v) => v,
        Err(e) => return Err(e),
    };
    match decode_custom_certificate(&result) {
        Ok(c) => Ok(c),
        Err(()) => Err(RelayError::Decode("Failed to parse certificate".to_owned())),
    }
}

pub fn delete_custom_certificate_request(zone_id: &str, certificate_id: &str) -> (r:
    UpstreamRequest)
    ensures
        r.method == HttpMethod::Delete,
        r.path@ == "/zones/"@ + zone_id@ + "/custom_certificates/"@ + certificate_id@,
        r.body is Empty,
{
    UpstreamRequest {
        method: HttpMethod::Delete,
        path: concat4("/zones/", zone_id, "/custom_certificates/", certificate_id),
        body: RequestBody::Empty,
    }
}

pub fn delete_custom_certificate_response(status: u16, body: JsonValue) -> (r: Result<
    String,
    RelayError,
>)
    ensures
        r is Ok <==> envelope_ok(body),
        r matches Ok(s) ==> s@ == "Certificate deleted successfully"@,
        r matches Err(e) ==> (e matches RelayError::Upstream { status: s, message: m } && s
            == status && m@ == spec_upstream_error_msg(body)),
{
    match unwrap_envelope(status, body) {
        Ok(_) => Ok("Certificate deleted successfully".to_owned()),
        Err(e) => Err(e),
    }
}

} // verus!
