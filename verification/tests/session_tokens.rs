use crpipeline::session::{create_jwt, verify_jwt, EXPIRY_LEEWAY, TOKEN_LIFETIME};

const SECRET: &[u8] = b"a test secret";
const NOW: u64 = 1_700_000_000;

#[test]
fn token_round_trips_its_claims() {
    let token = create_jwt("user-1", "org-1", "admin", NOW, SECRET);
    let claims = verify_jwt(&token, SECRET, NOW).expect("fresh token verifies");
    assert_eq!(claims.sub, "user-1");
    assert_eq!(claims.org_id, "org-1");
    assert_eq!(claims.role, "admin");
    assert_eq!(claims.exp, NOW + 86400);
    assert_eq!(TOKEN_LIFETIME, 86400);
}

#[test]
fn token_is_valid_through_the_leeway_and_not_after() {
    let token = create_jwt("u", "o", "user", NOW, SECRET);
    let last = NOW + TOKEN_LIFETIME + EXPIRY_LEEWAY;
    assert!(verify_jwt(&token, SECRET, last).is_some());
    assert!(verify_jwt(&token, SECRET, last + 1).is_none());
}

#[test]
fn token_signed_with_another_secret_is_refused() {
    let token = create_jwt("u", "o", "user", NOW, SECRET);
    assert!(verify_jwt(&token, b"another secret", NOW).is_none());
}

#[test]
fn garbage_token_is_refused() {
    assert!(verify_jwt("not.a.token", SECRET, NOW).is_none());
    assert!(verify_jwt("", SECRET, NOW).is_none());
}
