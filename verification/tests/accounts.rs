use crpipeline::auth::{confirm_reply, hash_password, login, register_outcome, registration_role, reset_mail, reset_password_reply,
    try_verify_password, CreateUserResult, LoginFacts, LoginStep, LoginUser};
use crpipeline::invites::{invite_user, invite_user_to_organization, CreateInvited, InviteFacts, InviteStep,
    InviteUserPayload};
use crpipeline::org::{create_org, get_organization_users, org_user_action, OrgAction, OrgActionFacts, OrgActionStep,
    OrgInput, OrgInviteUserPayload, OrgTarget};
use crpipeline::json::JsonValue;
use crpipeline::session::verify_jwt;
use crpipeline::reply::Reply;

fn error_of(r: &Reply) -> String {
    match &r.body {
        JsonValue::Object(m) => match m.iter().find(|(k, _)| k == "error") {
            Some((_, JsonValue::String(s))) => s.clone(),
            _ => panic!("no error"),
        },
        _ => panic!("no object"),
    }
}

fn user(active: bool, confirmed: bool) -> Option<Result<Option<LoginUser>, ()>> {
    Some(Ok(Some(LoginUser {
        user_id: "u1".to_string(),
        org_id: "o1".to_string(),
        role: "user".to_string(),
        is_active: active,
        confirmed,
    })))
}

#[test]
fn login_flow() {
    const NOW: u64 = 1_700_000_000;
    const SECRET: &[u8] = b"secret";
    let login = |base: &str, f: &LoginFacts| login(base, NOW, SECRET, f);
    let mut f = LoginFacts { user: None, password_ok: None };
    assert!(matches!(login("https://x", &f), LoginStep::FetchUser));
    f.user = Some(Ok(None));
    match login("x", &f) {
        LoginStep::Refuse { reply, reason } => {
            assert_eq!((reply.status, error_of(&reply).as_str()), (401, "Invalid email or password."));
            assert_eq!(reason.as_deref(), Some("user_not_found"));
        },
        _ => panic!("refuse"),
    }
    f.user = user(false, true);
    assert!(matches!(login("x", &f), LoginStep::Refuse { reason: Some(r), .. } if r == "inactive"));
    f.user = user(true, false);
    assert!(matches!(login("x", &f), LoginStep::VerifyPassword));
    f.password_ok = Some(false);
    assert!(matches!(login("x", &f), LoginStep::Refuse { reason: Some(r), .. } if r == "invalid_password"));
    f.password_ok = Some(true);
    assert!(matches!(login("x", &f), LoginStep::Refuse { reason: Some(r), .. } if r == "unconfirmed"));
    f.user = user(true, true);
    match login("https://site", &f) {
        LoginStep::SignedIn { token, secure } => {
            assert!(secure);
            let c = verify_jwt(&token, SECRET, NOW).expect("the sign-in token verifies");
            assert_eq!((c.sub.as_str(), c.org_id.as_str(), c.role.as_str(), c.exp), ("u1", "o1", "user", NOW + 86400));
        },
        _ => panic!("signed in"),
    }
    assert!(matches!(login("http://site", &f), LoginStep::SignedIn { secure: false, .. }));
}

#[test]
fn password_hash_must_parse() {
    assert_eq!(try_verify_password("not a hash", "pw"), None);
    let hash = "$argon2id$v=19$m=19456,t=2,p=1$c29tZXNhbHQxMjM0$Ti1fiN/5gNjebO7e9RHE6gbDS9AeUW/ru8b+bcrrKdA";
    let r = try_verify_password(hash, "wrong");
    assert!(r == Some(false) || r == None);
}

#[test]
fn registration_outcomes() {
    assert_eq!(registration_role(None), "user");
    let o = register_outcome("http://b", true, &CreateUserResult::Created { email: "e".to_string(), token: "t".to_string() });
    assert_eq!(o.reply.status, 200);
    assert_eq!(o.mail.unwrap().2, "http://b/api/confirm/t");
    let o = register_outcome("b", true, &CreateUserResult::EmailTaken);
    assert_eq!(error_of(&o.reply), "Email address already in use.");
    assert_eq!(register_outcome("b", false, &CreateUserResult::EmailTaken).reply.status, 500);
    assert_eq!(confirm_reply(Ok(false)), (400, Some("Invalid token".to_string())));
    assert_eq!(reset_mail("e", "http://b", "t").2, "http://b/reset?token=t");
    assert_eq!(reset_password_reply(true, Ok(true)), (200, None));
    assert_eq!(reset_password_reply(false, Ok(true)).0, 500);
}

#[test]
fn org_creation_checks() {
    assert_eq!(create_org("admin", &OrgInput { name: "  Acme ".to_string() }).ok().unwrap().name, "Acme");
    assert_eq!(create_org("user", &OrgInput { name: "Acme".to_string() }).err().unwrap().status, 403);
    assert_eq!(error_of(&create_org("admin", &OrgInput { name: "  ".to_string() }).err().unwrap()), "Organization name cannot be empty.");
    assert!(get_organization_users("admin", "o").is_none());
    assert_eq!(get_organization_users("user", "o").unwrap().status, 403);
    assert_eq!(get_organization_users("org_admin", "00000000-0000-0000-0000-000000000000").unwrap().status, 400);
}

fn target(org: &str, role: &str, active: bool) -> Option<Result<Option<OrgTarget>, ()>> {
    Some(Ok(Some(OrgTarget {
        org_id: org.to_string(),
        role: role.to_string(),
        email: "u@x".to_string(),
        is_active: active,
        confirmed: false,
    })))
}

#[test]
fn org_admin_acts_only_in_own_org() {
    let mut f = OrgActionFacts { target: None, rows_updated: None, org_name: None, mail_sent: None };
    let step = |f: &OrgActionFacts| org_user_action(OrgAction::Deactivate, "org_admin", "me", "o1", "u", "http://b", "t", f);
    assert!(matches!(step(&f), OrgActionStep::FetchTarget));
    f.target = target("o2", "user", true);
    assert!(matches!(step(&f), OrgActionStep::Respond(r) if error_of(&r) == "This user does not belong to your organization."));
    f.target = target("o1", "org_admin", true);
    assert!(matches!(step(&f), OrgActionStep::Respond(r) if r.status == 403));
    f.target = target("o1", "user", false);
    assert!(matches!(step(&f), OrgActionStep::Respond(r) if error_of(&r) == "User is already deactivated."));
    f.target = target("o1", "user", true);
    assert!(matches!(step(&f), OrgActionStep::Update));
    f.rows_updated = Some(Ok(0));
    assert!(matches!(step(&f), OrgActionStep::Respond(r) if r.status == 500));
    let own = org_user_action(OrgAction::Remove, "org_admin", "me", "o1", "me", "b", "t", &f);
    assert!(matches!(own, OrgActionStep::Respond(r) if r.status == 403));
}

#[test]
fn org_resend_confirmation_mail() {
    let f = OrgActionFacts {
        target: target("o1", "user", true),
        rows_updated: Some(Ok(1)),
        org_name: Some(Err(())),
        mail_sent: None,
    };
    match org_user_action(OrgAction::ResendConfirmation, "org_admin", "me", "o1", "u", "http://b", "t", &f) {
        OrgActionStep::SendMail { subject, body, .. } => {
            assert_eq!(subject, "Confirm your email for Your Organization on crPipeline");
            assert!(body.starts_with("Hello u@x,\n\nPlease confirm your email address for the organization 'Your Organization'"));
            assert!(body.contains("http://b/api/confirm/t"));
        },
        _ => panic!("mail"),
    }
}

fn no_invite() -> InviteFacts {
    InviteFacts { existing: None, hashed: None, created: None, org_name: None, mail_sent: None }
}

#[test]
fn org_invitation_flow() {
    let p = OrgInviteUserPayload { email: " New@X.io ".to_string() };
    let mut f = no_invite();
    assert!(matches!(invite_user_to_organization("user", "o1", &p, "b", &f), InviteStep::Respond(r) if r.status == 403));
    assert!(matches!(invite_user_to_organization("org_admin", "o1", &p, "b", &f), InviteStep::CheckEmail(e) if e == "new@x.io"));
    f.existing = Some(Ok(Some("o1".to_string())));
    assert!(matches!(invite_user_to_organization("org_admin", "o1", &p, "b", &f),
        InviteStep::Respond(r) if error_of(&r) == "This user is already a member of your organization."));
    f.existing = Some(Ok(None));
    assert!(matches!(invite_user_to_organization("org_admin", "o1", &p, "b", &f), InviteStep::HashPassword));
    f.hashed = Some(true);
    assert!(matches!(invite_user_to_organization("org_admin", "o1", &p, "b", &f),
        InviteStep::CreateUser { role, confirmed: false, .. } if role == "user"));
    f.created = Some(CreateInvited::Created { user_id: "id1".to_string(), token: "tok".to_string() });
    f.org_name = Some(Ok("Acme".to_string()));
    assert!(matches!(invite_user_to_organization("org_admin", "o1", &p, "http://b", &f),
        InviteStep::SendMail { subject, .. } if subject == "You're invited to join Acme on crPipeline"));
    f.mail_sent = Some(false);
    assert!(matches!(invite_user_to_organization("org_admin", "o1", &p, "b", &f), InviteStep::Respond(r) if r.status == 202));
    let bad = OrgInviteUserPayload { email: "no-at".to_string() };
    assert!(matches!(invite_user_to_organization("org_admin", "o1", &bad, "b", &no_invite()),
        InviteStep::Respond(r) if error_of(&r) == "Invalid email address provided."));
}

#[test]
fn admin_invitation_flow() {
    let p = InviteUserPayload { email: "A@B.c".to_string(), org_id: "o9".to_string(), role: None };
    let mut f = no_invite();
    assert!(matches!(invite_user("admin", &p, "b", &f), InviteStep::CheckEmail(e) if e == "a@b.c"));
    f.existing = Some(Ok(None));
    f.hashed = Some(true);
    assert!(matches!(invite_user("admin", &p, "b", &f),
        InviteStep::CreateUser { org_id, role, confirmed: false, .. } if org_id == "o9" && role == "user"));
    f.created = Some(CreateInvited::Created { user_id: "id".to_string(), token: "t".to_string() });
    assert!(matches!(invite_user("admin", &p, "http://b", &f),
        InviteStep::SendMail { body, .. } if body.ends_with("http://b/api/confirm/t\n")));
    f.mail_sent = Some(true);
    assert!(matches!(invite_user("admin", &p, "b", &f), InviteStep::Respond(r) if r.status == 200));
    f.created = Some(CreateInvited::DatabaseError);
    assert!(matches!(invite_user("admin", &p, "b", &f), InviteStep::Respond(r) if error_of(&r) == "Failed to create user."));
}

#[test]
fn hashed_password_verifies_only_itself() {
    let h = hash_password("s3cret-pass").expect("hashing works");
    assert!(h.starts_with("$argon2"));
    assert_eq!(try_verify_password(&h, "s3cret-pass"), Some(true));
    assert_eq!(try_verify_password(&h, "other"), Some(false));
    let h2 = hash_password("s3cret-pass").expect("hashing works");
    assert_ne!(h, h2);
}
