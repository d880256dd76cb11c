//! Request rate limiting.
//!
//! A request is counted against its organisation (from a valid JWT) or its
//! API key. Counting happens in Redis: at most `MAX_REQUESTS` requests per
//! key in a window of `WINDOW_SECONDS`. Where Redis cannot be reached, the
//! configured fallback decides: deny, allow, or count in memory.

use vstd::prelude::*;
use std::rc::Rc;
use crate::text::{chars_of, string_of, append_chars, starts_with, starts_with_exec, copy_range,
    lowercase, lowercase_chars, chars_eq};

verus! {

/// The length of a counting window, in seconds.
pub const WINDOW_SECONDS: u64 = 60;

/// The most requests allowed per key in one window.
pub const MAX_REQUESTS: u32 = 100;

/// The length of a counting window, in nanoseconds.
pub const WINDOW_NANOS: u64 = 60_000_000_000;

// ---------------------------------------------------------------------------
// The in-memory counter
// ---------------------------------------------------------------------------

/// A concurrent hash map of the `dashmap` crate.
#[verifier::external_type_specification]
#[verifier::external_body]
#[verifier::reject_recursive_types(K)]
#[verifier::reject_recursive_types(V)]
#[verifier::reject_recursive_types(S)]
pub struct ExDashMap<K, V, S>(dashmap::DashMap<K, V, S>);

/// A map from keys to their counting windows: the number of requests
/// counted and the instant (in nanoseconds) the window started.
pub type WindowMap = dashmap::DashMap<String, (u32, u64)>;

/// The entries of a map of counting windows: for each key, the number of
/// requests counted and the instant (in nanoseconds) the window started.
pub uninterp spec fn window_entries(m: WindowMap) -> Map<Seq<char>, (u32, u64)>;

/// No counting windows at all.
pub open spec fn no_windows() -> Map<Seq<char>, (u32, u64)> {
    Map::empty()
}

/// An empty map (`dashmap::DashMap::new`).
#[verifier::external_body]
fn new_window_map() -> (r: WindowMap)
    ensures
        window_entries(r) == no_windows(),
{
    dashmap::DashMap::new()
}

/// The entry of a key, copied out (`dashmap::DashMap::get`).
#[verifier::external_body]
fn window_of(m: &WindowMap, key: &str) -> (r: Option<(u32, u64)>)
    ensures
        match r {
            Some(e) => window_entries(*m).contains_key(key@) && window_entries(*m)[key@] == e,
            None => !window_entries(*m).contains_key(key@),
        },
{
    m.get(key).map(|e| *e.value())
}

/// Sets the entry of a key (`dashmap::DashMap::insert`).
#[verifier::external_body]
fn set_window(m: &mut WindowMap, key: String, e: (u32, u64))
    ensures
        window_entries(*final(m)) == window_entries(*old(m)).insert(key@, e),
{
    m.insert(key, e);
}

/// The time from `start` to `now`, or zero where `now` is earlier
/// (`Instant::duration_since` saturates).
pub open spec fn elapsed(now: u64, start: u64) -> int {
    if now >= start {
        now - start
    } else {
        0
    }
}

/// `x + 1`, or `u32::MAX` where that overflows.
pub open spec fn bump(x: u32) -> u32 {
    if x < u32::MAX {
        (x + 1) as u32
    } else {
        x
    }
}

/// One request for `key` at `now`: the key's new entry, and whether the
/// request is allowed. A key seen for the first time starts a window now;
/// a window older than `WINDOW_SECONDS` starts over with this request;
/// otherwise the request is counted and allowed up to `MAX_REQUESTS`.
pub open spec fn limit_step(m: Map<Seq<char>, (u32, u64)>, key: Seq<char>, now: u64) -> ((u32, u64), bool) {
    let e = if m.contains_key(key) {
        m[key]
    } else {
        (0u32, now)
    };
    if elapsed(now, e.1) > WINDOW_NANOS {
        ((1u32, now), true)
    } else {
        ((bump(e.0), e.1), bump(e.0) <= MAX_REQUESTS)
    }
}

/// The counting windows of the in-memory fallback.
pub struct MemoryLimiter {
    entries: WindowMap,
}

impl View for MemoryLimiter {
    type V = Map<Seq<char>, (u32, u64)>;

    closed spec fn view(&self) -> Map<Seq<char>, (u32, u64)> {
        window_entries(self.entries)
    }
}

impl MemoryLimiter {
    /// A limiter that has counted nothing.
    pub fn new() -> (r: MemoryLimiter)
        ensures
            r@ == no_windows(),
    {
        MemoryLimiter { entries: new_window_map() }
    }
}

/// Counts a request for `key` at `now` (nanoseconds of a monotonic clock)
/// and tells whether it is allowed.
pub fn check_memory_limit(limiter: &mut MemoryLimiter, key: &str, now: u64) -> (r: bool)
    ensures
        final(limiter)@ == old(limiter)@.insert(key@, limit_step(old(limiter)@, key@, now).0),
        r == limit_step(old(limiter)@, key@, now).1,
{
    let e = match window_of(&limiter.entries, key) {
        Some(e) => e,
        None => (0u32, now),
    };
    let since = if now >= e.1 {
        now - e.1
    } else {
        0
    };
    if since > WINDOW_NANOS {
        set_window(&mut limiter.entries, key.to_owned(), (1u32, now));
        true
    } else {
        let count = e.0.saturating_add(1);
        set_window(&mut limiter.entries, key.to_owned(), (count, e.1));
        count <= MAX_REQUESTS
    }
}


/// A run of requests for one key at the given instants: the entries after
/// them, and how many were allowed.
pub open spec fn limit_run(m: Map<Seq<char>, (u32, u64)>, key: Seq<char>, times: Seq<u64>) -> (Map<Seq<char>, (u32, u64)>, nat)
    decreases times.len(),
{
    if times.len() == 0 {
        (m, 0)
    } else {
        let prev = limit_run(m, key, times.drop_last());
        let st = limit_step(prev.0, key, times.last());
        (prev.0.insert(key, st.0), prev.1 + if st.1 { 1nat } else { 0nat })
    }
}

/// The smaller of a count and `MAX_REQUESTS`.
pub open spec fn capped(c: u32) -> int {
    if c <= MAX_REQUESTS {
        c as int
    } else {
        MAX_REQUESTS as int
    }
}

proof fn lemma_run_within_window(m: Map<Seq<char>, (u32, u64)>, key: Seq<char>, times: Seq<u64>)
    requires
        m.contains_key(key),
        forall|i: int| 0 <= i < times.len() ==> elapsed(#[trigger] times[i], m[key].1) <= WINDOW_NANOS,
    ensures
        limit_run(m, key, times).0.contains_key(key),
        limit_run(m, key, times).0[key].1 == m[key].1,
        limit_run(m, key, times).0[key].0 >= m[key].0,
        limit_run(m, key, times).1 <= capped(limit_run(m, key, times).0[key].0) - capped(m[key].0),
    decreases times.len(),
{
    if times.len() > 0 {
        let shorter = times.drop_last();
        assert forall|i: int| 0 <= i < shorter.len() implies elapsed(#[trigger] shorter[i], m[key].1) <= WINDOW_NANOS by {
            assert(shorter[i] == times[i]);
        }
        lemma_run_within_window(m, key, shorter);
        assert(elapsed(times[times.len() - 1], m[key].1) <= WINDOW_NANOS);
    }
}

/// Within one counting window a key is allowed at most `MAX_REQUESTS`
/// requests, however many it makes: a run of requests for a key that is
/// counted already, all of them no later than one window after that
/// window began, is allowed at most `MAX_REQUESTS` less what was counted.
pub proof fn lemma_limit_holds_within_window(m: Map<Seq<char>, (u32, u64)>, key: Seq<char>, times: Seq<u64>)
    requires
        m.contains_key(key),
        forall|i: int| 0 <= i < times.len() ==> elapsed(#[trigger] times[i], m[key].1) <= WINDOW_NANOS,
    ensures
        limit_run(m, key, times).1 + capped(m[key].0) <= MAX_REQUESTS,
{
    lemma_run_within_window(m, key, times);
}

/// The same bound from a key's first request: a key not counted yet is
/// allowed at most `MAX_REQUESTS` requests from its first one until one
/// window later.
pub proof fn lemma_limit_holds_from_first_request(m: Map<Seq<char>, (u32, u64)>, key: Seq<char>, times: Seq<u64>)
    requires
        !m.contains_key(key),
        times.len() > 0,
        forall|i: int| 0 <= i < times.len() ==> elapsed(#[trigger] times[i], times[0]) <= WINDOW_NANOS,
    ensures
        limit_run(m, key, times).1 <= MAX_REQUESTS,
{
    let first = times.take(1);
    let rest = times.skip(1);
    assert(first.drop_last() =~= Seq::<u64>::empty());
    assert(first.last() == times[0]);
    assert(limit_run(m, key, first.drop_last()) == (m, 0nat));
    assert(limit_step(m, key, times[0]) == ((1u32, times[0]), true));
    assert(limit_run(m, key, first) == (m.insert(key, (1u32, times[0])), 1nat));
    let m1 = limit_run(m, key, first).0;
    assert(m1.contains_key(key) && m1[key] == (1u32, times[0]));
    assert forall|i: int| 0 <= i < rest.len() implies elapsed(#[trigger] rest[i], m1[key].1) <= WINDOW_NANOS by {
        assert(rest[i] == times[i + 1]);
    }
    lemma_run_within_window(m1, key, rest);
    lemma_run_split(m, key, first, rest);
    assert(first + rest =~= times);
}

proof fn lemma_run_all_allowed(m: Map<Seq<char>, (u32, u64)>, key: Seq<char>, times: Seq<u64>)
    requires
        m.contains_key(key),
        m[key].0 + times.len() <= MAX_REQUESTS,
        forall|i: int| 0 <= i < times.len() ==> elapsed(#[trigger] times[i], m[key].1) <= WINDOW_NANOS,
    ensures
        limit_run(m, key, times).0.contains_key(key),
        limit_run(m, key, times).0[key] == ((m[key].0 + times.len()) as u32, m[key].1),
        limit_run(m, key, times).1 == times.len(),
    decreases times.len(),
{
    if times.len() > 0 {
        let shorter = times.drop_last();
        assert forall|i: int| 0 <= i < shorter.len() implies elapsed(#[trigger] shorter[i], m[key].1) <= WINDOW_NANOS by {
            assert(shorter[i] == times[i]);
        }
        lemma_run_all_allowed(m, key, shorter);
        assert(elapsed(times[times.len() - 1], m[key].1) <= WINDOW_NANOS);
    }
}

/// Below the limit every request is allowed: a run of requests for a key
/// that is counted already, all of them no later than one window after
/// that window began, is allowed in full while the count it reaches is at
/// most `MAX_REQUESTS`.
pub proof fn lemma_requests_allowed_below_limit(m: Map<Seq<char>, (u32, u64)>, key: Seq<char>, times: Seq<u64>)
    requires
        m.contains_key(key),
        m[key].0 + times.len() <= MAX_REQUESTS,
        forall|i: int| 0 <= i < times.len() ==> elapsed(#[trigger] times[i], m[key].1) <= WINDOW_NANOS,
    ensures
        limit_run(m, key, times).1 == times.len(),
{
    lemma_run_all_allowed(m, key, times);
}

/// The first `MAX_REQUESTS` requests of a key are all allowed: a key not
/// counted yet is allowed every one of up to `MAX_REQUESTS` requests made
/// from its first one until one window later.
pub proof fn lemma_first_requests_allowed(m: Map<Seq<char>, (u32, u64)>, key: Seq<char>, times: Seq<u64>)
    requires
        !m.contains_key(key),
        0 < times.len() <= MAX_REQUESTS,
        forall|i: int| 0 <= i < times.len() ==> elapsed(#[trigger] times[i], times[0]) <= WINDOW_NANOS,
    ensures
        limit_run(m, key, times).1 == times.len(),
{
    let first = times.take(1);
    let rest = times.skip(1);
    assert(first.drop_last() =~= Seq::<u64>::empty());
    assert(first.last() == times[0]);
    assert(limit_run(m, key, first.drop_last()) == (m, 0nat));
    assert(limit_step(m, key, times[0]) == ((1u32, times[0]), true));
    assert(limit_run(m, key, first) == (m.insert(key, (1u32, times[0])), 1nat));
    let m1 = limit_run(m, key, first).0;
    assert(m1.contains_key(key) && m1[key] == (1u32, times[0]));
    assert forall|i: int| 0 <= i < rest.len() implies elapsed(#[trigger] rest[i], m1[key].1) <= WINDOW_NANOS by {
        assert(rest[i] == times[i + 1]);
    }
    lemma_run_all_allowed(m1, key, rest);
    lemma_run_split(m, key, first, rest);
    assert(first + rest =~= times);
}

proof fn lemma_run_split(m: Map<Seq<char>, (u32, u64)>, key: Seq<char>, a: Seq<u64>, b: Seq<u64>)
    ensures
        limit_run(m, key, a + b).0 == limit_run(limit_run(m, key, a).0, key, b).0,
        limit_run(m, key, a + b).1 == limit_run(m, key, a).1 + limit_run(limit_run(m, key, a).0, key, b).1,
    decreases b.len(),
{
    if b.len() == 0 {
        assert(a + b =~= a);
    } else {
        lemma_run_split(m, key, a, b.drop_last());
        assert((a + b).drop_last() =~= a + b.drop_last());
        assert((a + b).last() == b.last());
    }
}


// ---------------------------------------------------------------------------
// Which key a request is counted against
// ---------------------------------------------------------------------------

/// The token of an `Authorization` header value `Bearer <token>`.
pub open spec fn bearer_of(header: Seq<char>) -> Option<Seq<char>> {
    if starts_with(header, "Bearer "@) {
        Some(header.subrange(7, header.len() as int))
    } else {
        None
    }
}

/// The JWT that a request carries: the bearer token of its `Authorization`
/// header, else its `token` cookie.
pub open spec fn jwt_of(authorization: Option<Seq<char>>, cookie: Option<Seq<char>>) -> Option<Seq<char>> {
    match authorization {
        Some(h) => match bearer_of(h) {
            Some(t) => Some(t),
            None => cookie,
        },
        None => cookie,
    }
}

/// The key a request is counted against: its organisation where its JWT
/// verified, else its API key where that is not empty.
pub open spec fn key_of(jwt_org: Option<Seq<char>>, api_key: Option<Seq<char>>) -> Option<Seq<char>> {
    match jwt_org {
        Some(org) => Some("rate_limit:org_id:"@ + org),
        None => match api_key {
            Some(k) => if k.len() > 0 {
                Some("rate_limit:api_key:"@ + k)
            } else {
                None
            },
            None => None,
        },
    }
}

/// The text of an optional string.
pub open spec fn opt_chars(o: Option<String>) -> Option<Seq<char>> {
    match o {
        Some(s) => Some(s@),
        None => None,
    }
}

fn prefixed(prefix: &str, rest: &[char]) -> (r: String)
    ensures
        r@ == prefix@ + rest@,
{
    let mut v = chars_of(prefix);
    append_chars(&mut v, rest);
    string_of(&v)
}

/// What the rate limiter counts, and how it decides.
pub struct RateLimit;

/// The rate limiter wrapped around a service.
pub struct RateLimitMiddleware<S> {
    pub service: Rc<S>,
}

/// What the rate limiter does with a request once Redis answered.
pub enum RateDecision {
    /// Pass the request on.
    Allow,
    /// Answer 429 Too Many Requests.
    Deny,
    /// Count the request in memory and decide by that count.
    CheckMemory,
}

/// The fallback for when Redis cannot be reached: the configured mode in
/// lower case, "memory" where none is set.
pub open spec fn fallback_of(setting: Option<Seq<char>>) -> Seq<char> {
    match setting {
        Some(m) => lowercase(m),
        None => "memory"@,
    }
}

/// The decision for a request counted in Redis (`Some(count)`, the count
/// after this request) or not counted because Redis failed (`None`).
pub open spec fn decision_of(reply: Option<u32>, fallback: Seq<char>) -> RateDecision {
    match reply {
        Some(count) => if count > MAX_REQUESTS {
            RateDecision::Deny
        } else {
            RateDecision::Allow
        },
        None => if fallback == "deny"@ {
            RateDecision::Deny
        } else if fallback == "memory"@ {
            RateDecision::CheckMemory
        } else {
            RateDecision::Allow
        },
    }
}

/// What the rate limiter found out so far about a request.
pub struct RateFacts {
    /// Redis's answer to counting the request: the count after it, or
    /// `None` where Redis failed.
    pub redis_reply: Option<Option<u32>>,
    /// Whether the in-memory count allowed the request.
    pub memory_allowed: Option<bool>,
}

/// The next step of rate limiting a request.
pub enum RateStep {
    /// Pass the request on to the wrapped service.
    Forward,
    /// Count the request in Redis under this key.
    CountInRedis(String),
    /// Count the request in memory under this key.
    CountInMemory(String),
    /// Answer 429 Too Many Requests.
    Refuse,
}

/// The mathematical form of a step of rate limiting.
pub enum RateStepView {
    Forward,
    CountInRedis(Seq<char>),
    CountInMemory(Seq<char>),
    Refuse,
}

/// The view of a step of rate limiting.
pub open spec fn rate_step_view(s: RateStep) -> RateStepView {
    match s {
        RateStep::Forward => RateStepView::Forward,
        RateStep::CountInRedis(k) => RateStepView::CountInRedis(k@),
        RateStep::CountInMemory(k) => RateStepView::CountInMemory(k@),
        RateStep::Refuse => RateStepView::Refuse,
    }
}

/// The next step of rate limiting a request with the given key (`None`
/// where the request names no organisation or API key): a request with no
/// key is passed on and counted nowhere; one with a key is counted in
/// Redis, then passed on or refused as the count and the fallback decide.
pub open spec fn rate_step_of(key: Option<Seq<char>>, fallback: Seq<char>, facts: RateFacts) -> RateStepView {
    match key {
        None => RateStepView::Forward,
        Some(k) => match facts.redis_reply {
            None => RateStepView::CountInRedis(k),
            Some(reply) => match decision_of(reply, fallback) {
                RateDecision::Allow => RateStepView::Forward,
                RateDecision::Deny => RateStepView::Refuse,
                RateDecision::CheckMemory => match facts.memory_allowed {
                    None => RateStepView::CountInMemory(k),
                    Some(true) => RateStepView::Forward,
                    Some(false) => RateStepView::Refuse,
                },
            },
        },
    }
}

/// A request that names no organisation or API key is never limited:
/// whatever else is known, it is passed on and counted nowhere.
pub proof fn lemma_unidentified_request_passes(fallback: Seq<char>, facts: RateFacts)
    ensures
        rate_step_of(None, fallback, facts) == RateStepView::Forward,
{
}

impl RateLimit {
    /// Wraps a service in the rate limiter.
    pub fn new_transform<S>(&self, service: S) -> (r: RateLimitMiddleware<S>)
        ensures
            *r.service == service,
    {
        RateLimitMiddleware { service: Rc::new(service) }
    }
}

impl<S> RateLimitMiddleware<S> {
    /// The JWT a request carries, from its `Authorization` header value and
    /// its `token` cookie.
    pub fn jwt_token(authorization: Option<&str>, cookie: Option<&str>) -> (r: Option<String>)
        ensures
            opt_chars(r) == jwt_of(
                match authorization { Some(a) => Some(a@), None => None },
                match cookie { Some(c) => Some(c@), None => None },
            ),
    {
        let from_header = match authorization {
            Some(h) => {
                let hc = chars_of(h);
                let prefix = chars_of("Bearer ");
                proof {
                    reveal_strlit("Bearer ");
                }
                if starts_with_exec(&hc, &prefix) {
                    Some(string_of(&copy_range(&hc, 7, hc.len())))
                } else {
                    None
                }
            },
            None => None,
        };
        match from_header {
            Some(t) => Some(t),
            None => match cookie {
                Some(c) => Some(c.to_owned()),
                None => None,
            },
        }
    }

    /// The key a request is counted against, from the organisation of its
    /// verified JWT and its `X-API-Key` header value.
    pub fn identifier_key(jwt_org: Option<&str>, api_key: Option<&str>) -> (r: Option<String>)
        ensures
            opt_chars(r) == key_of(
                match jwt_org { Some(a) => Some(a@), None => None },
                match api_key { Some(k) => Some(k@), None => None },
            ),
    {
        match jwt_org {
            Some(org) => Some(prefixed("rate_limit:org_id:", &chars_of(org))),
            None => match api_key {
                Some(k) => {
                    let kc = chars_of(k);
                    if kc.len() > 0 {
                        Some(prefixed("rate_limit:api_key:", &kc))
                    } else {
                        None
                    }
                },
                None => None,
            },
        }
    }

    /// Whether the key's window must be given its expiry: the count is the
    /// first of the window.
    pub fn needs_expiry(count: u32) -> (r: bool)
        ensures
            r == (count == 1),
    {
        count == 1
    }

    /// The fallback mode, from the `REDIS_RATE_LIMIT_FALLBACK` setting.
    pub fn fallback_mode(setting: Option<&str>) -> (r: String)
        ensures
            r@ == fallback_of(match setting { Some(m) => Some(m@), None => None }),
    {
        match setting {
            Some(m) => string_of(&lowercase_chars(&chars_of(m))),
            None => "memory".to_owned(),
        }
    }

    /// The decision for a request, from Redis's count (`None` where Redis
    /// failed) and the fallback mode.
    pub fn decide(reply: Option<u32>, fallback: &str) -> (r: RateDecision)
        ensures
            r == decision_of(reply, fallback@),
    {
        match reply {
            Some(count) => if count > MAX_REQUESTS {
                RateDecision::Deny
            } else {
                RateDecision::Allow
            },
            None => {
                let f = chars_of(fallback);
                if chars_eq(&f, &chars_of("deny")) {
                    RateDecision::Deny
                } else if chars_eq(&f, &chars_of("memory")) {
                    RateDecision::CheckMemory
                } else {
                    RateDecision::Allow
                }
            },
        }
    }

    /// The next step of rate limiting a request, from the organisation of
    /// its verified JWT, its `X-API-Key` header value, the fallback mode,
    /// and what was found out so far.
    pub fn next_step(jwt_org: Option<&str>, api_key: Option<&str>, fallback: &str, facts: &RateFacts) -> (r: RateStep)
        ensures
            rate_step_view(r) == rate_step_of(
                key_of(
                    match jwt_org { Some(a) => Some(a@), None => None },
                    match api_key { Some(k) => Some(k@), None => None },
                ),
                fallback@,
                *facts,
            ),
    {
        let key = match Self::identifier_key(jwt_org, api_key) {
            Some(k) => k,
            None => {
                return RateStep::Forward;
            },
        };
        match facts.redis_reply {
            None => RateStep::CountInRedis(key),
            Some(reply) => match Self::decide(reply, fallback) {
                RateDecision::Allow => RateStep::Forward,
                RateDecision::Deny => RateStep::Refuse,
                RateDecision::CheckMemory => match facts.memory_allowed {
                    None => RateStep::CountInMemory(key),
                    Some(true) => RateStep::Forward,
                    Some(false) => RateStep::Refuse,
                },
            },
        }
    }
}

} // verus!
