//! The request middlewares other than rate limiting: the CSRF token check
//! and the two request metrics recorders.

use vstd::prelude::*;
use std::rc::Rc;
use crate::text::{chars_of, chars_eq, decimal, decimal_exec, string_of};

verus! {

// ---------------------------------------------------------------------------
// CSRF token
// ---------------------------------------------------------------------------

/// Requires the `X-CSRF-Token` header to equal the configured token.
pub struct CsrfCheck;

/// The CSRF check wrapped around a service.
pub struct CsrfCheckMiddleware<S> {
    pub service: Rc<S>,
}

/// Whether a request passes the CSRF check: where a token is configured,
/// the request's header must hold exactly that token.
pub open spec fn csrf_passes(expected: Option<Seq<char>>, provided: Option<Seq<char>>) -> bool {
    match expected {
        Some(e) => provided == Some(e),
        None => true,
    }
}

impl CsrfCheck {
    /// Wraps a service in the CSRF check.
    pub fn new_transform<S>(&self, service: S) -> (r: CsrfCheckMiddleware<S>)
        ensures
            *r.service == service,
    {
        CsrfCheckMiddleware { service: Rc::new(service) }
    }
}

impl<S> CsrfCheckMiddleware<S> {
    /// Whether a request with the given header value passes; a rejected
    /// request is answered 403 "Invalid CSRF token".
    pub fn passes(expected: Option<&str>, provided: Option<&str>) -> (r: bool)
        ensures
            r == csrf_passes(
                match expected { Some(e) => Some(e@), None => None },
                match provided { Some(p) => Some(p@), None => None },
            ),
    {
        match expected {
            Some(e) => match provided {
                Some(p) => chars_eq(&chars_of(p), &chars_of(e)),
                None => false,
            },
            None => true,
        }
    }
}

// ---------------------------------------------------------------------------
// Request metrics
// ---------------------------------------------------------------------------

/// The labels a request is recorded under: method, endpoint, status.
pub struct RequestLabels {
    pub method: String,
    pub endpoint: String,
    pub status: String,
}

/// The endpoint a request is recorded under: the route pattern it matched,
/// else its path.
pub open spec fn endpoint_of(pattern: Option<Seq<char>>, path: Seq<char>) -> Seq<char> {
    match pattern {
        Some(p) => p,
        None => path,
    }
}

fn request_labels(method: &str, pattern: Option<&str>, path: &str, status: u16) -> (r: RequestLabels)
    ensures
        r.method@ == method@,
        r.endpoint@ == endpoint_of(match pattern { Some(p) => Some(p@), None => None }, path@),
        r.status@ == decimal(status as nat),
{
    let endpoint = match pattern {
        Some(p) => p.to_owned(),
        None => path.to_owned(),
    };
    RequestLabels {
        method: method.to_owned(),
        endpoint,
        status: string_of(&decimal_exec(status as u64)),
    }
}

/// Counts requests and their durations per method, endpoint and status
/// (`http_requests_total`).
pub struct Metrics;

/// The metrics recorder wrapped around a service.
pub struct MetricsMiddleware<S> {
    pub service: Rc<S>,
}

impl Metrics {
    /// Wraps a service in the metrics recorder.
    pub fn new_transform<S>(&self, service: S) -> (r: MetricsMiddleware<S>)
        ensures
            *r.service == service,
    {
        MetricsMiddleware { service: Rc::new(service) }
    }
}

impl<S> MetricsMiddleware<S> {
    /// The labels a finished request is recorded under.
    pub fn labels(method: &str, pattern: Option<&str>, path: &str, status: u16) -> (r: RequestLabels)
        ensures
            r.method@ == method@,
            r.endpoint@ == endpoint_of(match pattern { Some(p) => Some(p@), None => None }, path@),
            r.status@ == decimal(status as nat),
    {
        request_labels(method, pattern, path, status)
    }
}

/// Counts requests and their durations per method, path and status
/// (`request_count`).
pub struct RequestMetrics;

/// The request recorder wrapped around a service.
pub struct RequestMetricsMiddleware<S> {
    pub service: Rc<S>,
}

impl RequestMetrics {
    /// Wraps a service in the request recorder.
    pub fn new_transform<S>(&self, service: S) -> (r: RequestMetricsMiddleware<S>)
        ensures
            *r.service == service,
    {
        RequestMetricsMiddleware { service: Rc::new(service) }
    }
}

impl<S> RequestMetricsMiddleware<S> {
    /// The labels a finished request is recorded under.
    pub fn labels(method: &str, pattern: Option<&str>, path: &str, status: u16) -> (r: RequestLabels)
        ensures
            r.method@ == method@,
            r.endpoint@ == endpoint_of(match pattern { Some(p) => Some(p@), None => None }, path@),
            r.status@ == decimal(status as nat),
    {
        request_labels(method, pattern, path, status)
    }
}

} // verus!
