use crpipeline::email::{deliver_email, enqueue_email, start_email_worker, Delivery, EmailQueue};
use crpipeline::json::{get_member, object_insert, JsonValue};
use crpipeline::session::{from_request, AuthUser, SessionFacts, SessionStep};
use crpipeline::text::{chars_of, count_matches_exec, decimal_exec, lines_exec, parse_u64, replace_all_exec, string_of,
    trim_str};
use crpipeline::worker::{ai_service, resolve_setting};

#[test]
fn text_helpers() {
    assert_eq!(string_of(&trim_str("  a b \n")), "a b");
    assert_eq!(count_matches_exec(&chars_of("aaaa"), &chars_of("aa")), 2);
    assert_eq!(count_matches_exec(&chars_of("ab"), &chars_of("")), 3);
    assert_eq!(string_of(&replace_all_exec(&chars_of("a-b-c"), &chars_of("-"), &chars_of("+"))), "a+b+c");
    let ls: Vec<String> = lines_exec(&chars_of("a\r\nb\n\nc")).iter().map(|l| string_of(l)).collect();
    assert_eq!(ls, vec!["a", "b", "", "c"]);
    assert_eq!(string_of(&decimal_exec(9100)), "9100");
    assert_eq!(parse_u64(&chars_of("+12")), Some(12));
    assert_eq!(parse_u64(&chars_of("18446744073709551616")), None);
    assert_eq!(parse_u64(&chars_of("1 2")), None);
}

#[test]
fn object_insert_replaces_or_appends() {
    let mut m = vec![("a".to_string(), JsonValue::Null)];
    object_insert(&mut m, "a".to_string(), JsonValue::Bool(true));
    object_insert(&mut m, "b".to_string(), JsonValue::Bool(false));
    assert_eq!(m.len(), 2);
    let v = JsonValue::Object(m);
    assert!(matches!(get_member(&v, "a"), Some(JsonValue::Bool(true))));
    assert!(get_member(&v, "c").is_none());
}

fn user(id: &str) -> AuthUser {
    AuthUser { user_id: id.to_string(), org_id: "o".to_string(), role: "user".to_string() }
}

#[test]
fn session_prefers_header_then_cookie() {
    let none = SessionFacts { header_user: None, cookie_user: None };
    assert!(matches!(from_request(Some("Bearer t1"), Some("t2"), &none), SessionStep::VerifyHeaderToken(t) if t == "t1"));
    let failed_header = SessionFacts { header_user: Some(None), cookie_user: None };
    assert!(matches!(from_request(Some("Bearer t1"), Some("t2"), &failed_header), SessionStep::VerifyCookieToken(t) if t == "t2"));
    let ok = SessionFacts { header_user: Some(Some(user("u1"))), cookie_user: None };
    assert!(matches!(from_request(Some("Bearer t1"), None, &ok), SessionStep::Authenticated(u) if u.user_id == "u1"));
    let cookie_bad = SessionFacts { header_user: None, cookie_user: Some(None) };
    assert!(matches!(from_request(None, Some("t2"), &cookie_bad), SessionStep::Unauthorized));
    assert!(matches!(from_request(None, None, &none), SessionStep::Unauthorized));
    let both = SessionFacts { header_user: Some(Some(user("u1"))), cookie_user: Some(Some(user("u2"))) };
    assert!(matches!(from_request(Some("Bearer t1"), Some("t2"), &both), SessionStep::Authenticated(u) if u.user_id == "u1"));
    let cookie_only = SessionFacts { header_user: Some(None), cookie_user: Some(Some(user("u2"))) };
    assert!(matches!(from_request(Some("Bearer t1"), Some("t2"), &cookie_only), SessionStep::Authenticated(u) if u.user_id == "u2"));
}

#[test]
fn email_routes() {
    assert!(enqueue_email(true, true) == EmailQueue::Channel);
    assert!(enqueue_email(false, true) == EmailQueue::Redis);
    assert!(enqueue_email(false, false) == EmailQueue::Direct);
    assert!(deliver_email(true, true) == Delivery::Http);
    assert!(deliver_email(false, true) == Delivery::Smtp);
    assert!(deliver_email(false, false) == Delivery::LogOnly);
    assert!(start_email_worker("redis"));
    assert!(!start_email_worker("memory"));
}

#[test]
fn service_settings() {
    assert_eq!(resolve_setting(None, Some("org"), None), "org");
    assert!(ai_service(Some(""), None, Some("env"), None).is_err());
}
