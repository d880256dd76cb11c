use crpipeline::middleware::{CsrfCheck, CsrfCheckMiddleware, MetricsMiddleware, RequestMetricsMiddleware};
use crpipeline::rate_limit::{check_memory_limit, MemoryLimiter, RateDecision, RateFacts, RateLimit, RateLimitMiddleware, RateStep,
    MAX_REQUESTS, WINDOW_NANOS};

type M = RateLimitMiddleware<()>;

#[test]
fn memory_limit_allows_up_to_max_then_denies() {
    let mut l = MemoryLimiter::new();
    for i in 0..MAX_REQUESTS {
        assert!(check_memory_limit(&mut l, "k", 1000 + i as u64), "request {} refused", i);
    }
    assert!(!check_memory_limit(&mut l, "k", 2000));
    assert!(check_memory_limit(&mut l, "other", 2000));
}

#[test]
fn memory_limit_window_starts_over() {
    let mut l = MemoryLimiter::new();
    for _ in 0..=MAX_REQUESTS {
        check_memory_limit(&mut l, "k", 0);
    }
    assert!(!check_memory_limit(&mut l, "k", WINDOW_NANOS));
    assert!(check_memory_limit(&mut l, "k", WINDOW_NANOS + 1));
    assert!(check_memory_limit(&mut l, "k", WINDOW_NANOS + 2));
}

#[test]
fn bearer_header_preferred_over_cookie() {
    assert_eq!(M::jwt_token(Some("Bearer abc"), Some("cookie")), Some("abc".to_string()));
    assert_eq!(M::jwt_token(Some("Basic abc"), Some("cookie")), Some("cookie".to_string()));
    assert_eq!(M::jwt_token(None, None), None);
}

#[test]
fn rate_key_from_org_or_api_key() {
    assert_eq!(M::identifier_key(Some("o1"), Some("k")), Some("rate_limit:org_id:o1".to_string()));
    assert_eq!(M::identifier_key(None, Some("k")), Some("rate_limit:api_key:k".to_string()));
    assert_eq!(M::identifier_key(None, Some("")), None);
    assert_eq!(M::identifier_key(None, None), None);
}

#[test]
fn redis_count_decides() {
    assert!(matches!(M::decide(Some(100), "deny"), RateDecision::Allow));
    assert!(matches!(M::decide(Some(101), "memory"), RateDecision::Deny));
    assert!(matches!(M::decide(None, "deny"), RateDecision::Deny));
    assert!(matches!(M::decide(None, "memory"), RateDecision::CheckMemory));
    assert!(matches!(M::decide(None, "allow"), RateDecision::Allow));
    assert!(M::needs_expiry(1));
    assert!(!M::needs_expiry(2));
}

#[test]
fn fallback_mode_lowercased_or_memory() {
    assert_eq!(M::fallback_mode(Some("DENY")), "deny");
    assert_eq!(M::fallback_mode(None), "memory");
}

#[test]
fn rate_limit_wraps_service() {
    let m = RateLimit.new_transform(5u8);
    assert_eq!(*m.service, 5);
}

#[test]
fn csrf_token_must_match() {
    type C = CsrfCheckMiddleware<()>;
    assert!(C::passes(None, None));
    assert!(C::passes(Some("t"), Some("t")));
    assert!(!C::passes(Some("t"), Some("u")));
    assert!(!C::passes(Some("t"), None));
    let w = CsrfCheck.new_transform(1u8);
    assert_eq!(*w.service, 1);
}

#[test]
fn metrics_labels_use_pattern_or_path() {
    let l = MetricsMiddleware::<()>::labels("GET", Some("/jobs/{id}"), "/jobs/1", 200);
    assert_eq!((l.method.as_str(), l.endpoint.as_str(), l.status.as_str()), ("GET", "/jobs/{id}", "200"));
    let l = RequestMetricsMiddleware::<()>::labels("POST", None, "/x", 404);
    assert_eq!((l.endpoint.as_str(), l.status.as_str()), ("/x", "404"));
}

#[test]
fn unidentified_request_is_forwarded_uncounted() {
    type M = RateLimitMiddleware<()>;
    let fresh = RateFacts { redis_reply: None, memory_allowed: None };
    assert!(matches!(M::next_step(None, None, "memory", &fresh), RateStep::Forward));
    assert!(matches!(M::next_step(None, Some(""), "deny", &fresh), RateStep::Forward));
    assert!(matches!(M::next_step(Some("o1"), None, "memory", &fresh), RateStep::CountInRedis(k) if k == "rate_limit:org_id:o1"));
    let over = RateFacts { redis_reply: Some(Some(101)), memory_allowed: None };
    assert!(matches!(M::next_step(Some("o1"), None, "memory", &over), RateStep::Refuse));
    let down = RateFacts { redis_reply: Some(None), memory_allowed: None };
    assert!(matches!(M::next_step(None, Some("k"), "memory", &down), RateStep::CountInMemory(k) if k == "rate_limit:api_key:k"));
    let counted = RateFacts { redis_reply: Some(None), memory_allowed: Some(true) };
    assert!(matches!(M::next_step(None, Some("k"), "memory", &counted), RateStep::Forward));
    assert!(matches!(M::next_step(None, Some("k"), "deny", &down), RateStep::Refuse));
}
