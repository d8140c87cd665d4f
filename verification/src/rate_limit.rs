use vstd::prelude::*;
use vstd::string::StringExecFns;
use crate::errors::DomainError;

verus! {

/// The rate limiter's verdict on a request.
#[derive(Debug, Clone, Copy, PartialEq, Eq, Structural)]
pub struct RateLimitStatus {
    pub allowed: bool,
    pub remaining: u64,
    pub limit: u64,
    pub reset_after: u64,
}

impl RateLimitStatus {
    /// The verdict that the token-bucket script answers: remaining tokens,
    /// seconds until the bucket is full, and 1 when the request is allowed.
    pub fn from_script(limit: u64, result: &Vec<i64>) -> (r: Self)
        requires
            result@.len() >= 3,
        ensures
            r.allowed == (result@[2] == 1),
            r.remaining == result@[0] as u64,
            r.limit == limit,
            r.reset_after == result@[1] as u64,
    {
        RateLimitStatus {
            allowed: result[2] == 1,
            remaining: result[0] as u64,
            limit,
            reset_after: result[1] as u64,
        }
    }
}

/// What the rate-limit layer does with a request: refuse it (429) or pass it
/// on, and the headers it adds to the answer either way.
#[derive(Debug)]
pub struct RateLimitDecision {
    pub blocked: bool,
    pub headers: Vec<(String, u64)>,
}

/// The headers of an answer under a rate limit of `limit` requests.
pub open spec fn limit_headers(limit: u64, status: RateLimitStatus) -> Seq<(Seq<char>, u64)> {
    let base = seq![
        ("X-RateLimit-Limit"@, limit),
        ("X-RateLimit-Remaining"@, status.remaining),
        ("X-RateLimit-Reset"@, status.reset_after),
    ];
    if status.allowed { base } else { base.push(("Retry-After"@, status.reset_after)) }
}

/// The views of a list of headers.
pub open spec fn header_views(h: Seq<(String, u64)>) -> Seq<(Seq<char>, u64)> {
    h.map_values(|p: (String, u64)| (p.0@, p.1))
}

/// The rate-limit layer's decision for a verdict under a limit of `limit`
/// requests: refused exactly when not allowed; the limit, the remaining
/// requests and the reset time are always told, the time to retry when
/// refused.
pub fn decide(limit: u64, status: &RateLimitStatus) -> (d: RateLimitDecision)
    ensures
        d.blocked == !status.allowed,
        header_views(d.headers@) == limit_headers(limit, *status),
{
    let mut headers: Vec<(String, u64)> = Vec::new();
    headers.push((String::from_str("X-RateLimit-Limit"), limit));
    headers.push((String::from_str("X-RateLimit-Remaining"), status.remaining));
    headers.push((String::from_str("X-RateLimit-Reset"), status.reset_after));
    if !status.allowed {
        headers.push((String::from_str("Retry-After"), status.reset_after));
    }
    let d = RateLimitDecision { blocked: !status.allowed, headers };
    assert(header_views(d.headers@) =~= limit_headers(limit, *status));
    d
}

/// The rate-limit layer's decision when the limiter may fail: a failing
/// limiter lets the request through untouched (`None`), else as `decide`.
pub fn decide_or_pass(limit: u64, checked: &Result<RateLimitStatus, DomainError>) -> (d: Option<RateLimitDecision>)
    ensures
        match checked {
            Ok(status) => d matches Some(x) && x.blocked == !status.allowed
                && header_views(x.headers@) == limit_headers(limit, *status),
            Err(_) => d is None,
        },
{
    match checked {
        Ok(status) => Some(decide(limit, status)),
        Err(_) => None,
    }
}

/// A refused request is always told when to retry, and an allowed one never
/// is.
pub proof fn law_retry_after_iff_blocked(limit: u64, status: RateLimitStatus)
    ensures
        !status.allowed ==> limit_headers(limit, status).last() == ("Retry-After"@, status.reset_after),
        limit_headers(limit, status).len() == (if status.allowed { 3int } else { 4int }),
{
}

} // verus!
