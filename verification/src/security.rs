//! The security headers put on every response.
use std::rc::Rc;
use vstd::prelude::*;
use vstd::string::*;

verus! {

/// Middleware factory that puts hardened security headers on every response.
#[derive(Debug, Clone, Copy, Default)]
pub struct SecurityHeaders;

/// The per-request service of [`SecurityHeaders`], wrapping the next service.
pub struct SecurityHeadersMiddleware<S> {
    pub service: Rc<S>,
}

/// The headers, by name and value, in the order they are set.
pub open spec fn security_header_pairs() -> Seq<(Seq<char>, Seq<char>)> {
    seq![
        ("content-security-policy"@, "default-src 'self'"@),
        ("strict-transport-security"@, "max-age=31536000; includeSubDomains"@),
        ("x-frame-options"@, "DENY"@),
        ("x-content-type-options"@, "nosniff"@),
        ("referrer-policy"@, "strict-origin-when-cross-origin"@),
        ("permissions-policy"@, "camera=(), microphone=(), geolocation=()"@),
    ]
}

pub open spec fn pair_view(p: (String, String)) -> (Seq<char>, Seq<char>) {
    (p.0@, p.1@)
}

fn pair(name: &str, value: &str) -> (r: (String, String))
    ensures
        pair_view(r) == (name@, value@),
{
    (String::from_str(name), String::from_str(value))
}

impl SecurityHeaders {
    /// The headers put on every response: same-origin resources only,
    /// HTTPS for a year with subdomains, no framing, no MIME sniffing,
    /// origin-only cross-origin referrers, and no camera, microphone or
    /// geolocation.
    pub fn header_pairs(&self) -> (r: Vec<(String, String)>)
        ensures
            r@.map_values(|p: (String, String)| pair_view(p)) == security_header_pairs(),
    {
        let mut r: Vec<(String, String)> = Vec::new();
        r.push(pair("content-security-policy", "default-src 'self'"));
        r.push(pair("strict-transport-security", "max-age=31536000; includeSubDomains"));
        r.push(pair("x-frame-options", "DENY"));
        r.push(pair("x-content-type-options", "nosniff"));
        r.push(pair("referrer-policy", "strict-origin-when-cross-origin"));
        r.push(pair("permissions-policy", "camera=(), microphone=(), geolocation=()"));
        assert(r@.map_values(|p: (String, String)| pair_view(p)) =~= security_header_pairs());
        r
    }
}

impl<S> SecurityHeadersMiddleware<S> {
    /// The middleware around `service`.
    pub fn new(service: S) -> (r: Self)
        ensures
            *r.service == service,
    {
        SecurityHeadersMiddleware { service: Rc::new(service) }
    }
}

} // verus!
