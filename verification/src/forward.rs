//! Translation between inbound and outbound messages.
//!
//! The proxy is transparent: the outbound request keeps the inbound
//! method, headers, and body exactly, and the response written back to the
//! client keeps the upstream status, headers, and body exactly. Only the
//! request's authority changes, to the fixed upstream target.

use vstd::prelude::*;

use crate::msg::HttpResponse;
use crate::msg::InboundRequest;
use crate::msg::OutboundRequest;
use crate::msg::ProxyError;
use crate::target::build_target_url;
use crate::target::uri_ok;

verus! {

/// Builds the outbound request for one inbound request: same method,
/// headers (order and multiplicity kept), and body; the URI is the
/// upstream base with the inbound path+query appended. Fails, with no
/// upstream contact, exactly when that concatenation is not a valid URL.
pub fn build_outbound_request(req: InboundRequest, base: &Vec<u8>) -> (r: Result<
    OutboundRequest,
    ProxyError,
>)
    ensures
        match r {
            Ok(o) => o@.method == req@.method && o@.headers == req@.headers && o@.body == req@.body
                && o@.uri == base@ + req@.path_query && uri_ok(base@ + req@.path_query),
            Err(e) => e == ProxyError::InvalidTargetUrl && !uri_ok(base@ + req@.path_query),
        },
{
    match build_target_url(base, &req.path_query) {
        Ok(uri) => Ok(
            OutboundRequest { method: req.method, uri, headers: req.headers, body: req.body },
        ),
        Err(e) => Err(e),
    }
}

/// Builds the response written back to the client from the upstream
/// response: status, headers, and body are copied verbatim.
pub fn relay_response(resp: HttpResponse) -> (r: HttpResponse)
    ensures
        r@ == resp@,
{
    HttpResponse { status: resp.status, headers: resp.headers, body: resp.body }
}

} // verus!
