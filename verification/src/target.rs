//! Construction of the outbound target URL.
//!
//! The target is the fixed upstream base URL with the inbound path+query
//! appended, byte for byte, with no further transformation. Whether the
//! concatenation is a valid URL is decided by the same parser the outbound
//! leg uses.

use vstd::prelude::*;

use crate::msg::ProxyError;

verus! {

/// Whether `hyper`'s URI parser accepts these bytes. The result depends on
/// the bytes alone.
pub uninterp spec fn uri_ok(s: Seq<u8>) -> bool;

/// Relies on `hyper::Uri::try_from` (http's byte parser): acceptance is a
/// function of the bytes alone.
#[verifier::external_body]
fn parse_accepts(b: &Vec<u8>) -> (r: bool)
    ensures
        r == uri_ok(b@),
{
    hyper::Uri::try_from(b.as_slice()).is_ok()
}

/// Appends `b` to `a`, byte for byte.
pub fn concat_bytes(a: &Vec<u8>, b: &Vec<u8>) -> (r: Vec<u8>)
    ensures
        r@ == a@ + b@,
{
    let mut r: Vec<u8> = Vec::new();
    let mut i: usize = 0;
    while i < a.len()
        invariant
            i <= a.len(),
            r@ == a@.subrange(0, i as int),
        decreases a.len() - i,
    {
        r.push(a[i]);
        i = i + 1;
    }
    let mut j: usize = 0;
    while j < b.len()
        invariant
            j <= b.len(),
            r@ == a@ + b@.subrange(0, j as int),
        decreases b.len() - j,
    {
        r.push(b[j]);
        j = j + 1;
    }
    proof {
        assert(r@ =~= a@ + b@);
    }
    r
}

/// Concatenates the upstream base URL with the inbound path+query and
/// checks that the result is a URL the outbound leg will accept. On
/// rejection the request fails with no upstream contact.
pub fn build_target_url(base: &Vec<u8>, path_query: &Vec<u8>) -> (r: Result<Vec<u8>, ProxyError>)
    ensures
        match r {
            Ok(u) => u@ == base@ + path_query@ && uri_ok(base@ + path_query@),
            Err(e) => e == ProxyError::InvalidTargetUrl && !uri_ok(base@ + path_query@),
        },
{
    let url = concat_bytes(base, path_query);
    if parse_accepts(&url) {
        Ok(url)
    } else {
        Err(ProxyError::InvalidTargetUrl)
    }
}

} // verus!
