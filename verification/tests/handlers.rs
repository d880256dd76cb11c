use crpipeline::admin::{assign_user_role, deactivate_user, reactivate_user, resend_confirmation_email, total_pages,
    update_user_profile, AssignRoleFacts, AssignRolePayload, AssignRoleStep, PaginationParams, ProfileFacts,
    ProfileStep, ResendFacts, ResendStep, TargetUser, UpdateUserProfilePayload, UserContact};
use crpipeline::json::JsonValue;
use crpipeline::reply::Reply;

fn error_of(r: &Reply) -> String {
    match &r.body {
        JsonValue::Object(m) => match m.iter().find(|(k, _)| k == "error") {
            Some((_, JsonValue::String(s))) => s.clone(),
            _ => panic!("no error"),
        },
        _ => panic!("no object"),
    }
}

fn message_of(r: &Reply) -> String {
    match &r.body {
        JsonValue::Object(m) => match m.iter().find(|(k, _)| k == "message") {
            Some((_, JsonValue::String(s))) => s.clone(),
            _ => panic!("no message"),
        },
        _ => panic!("no object"),
    }
}

fn no_facts() -> AssignRoleFacts {
    AssignRoleFacts { org_exists: None, target: None, admin_count: None, rows_updated: None }
}

fn payload(role: &str, org: Option<&str>) -> AssignRolePayload {
    AssignRolePayload { role: role.to_string(), org_id: org.map(|o| o.to_string()) }
}

fn respond(s: AssignRoleStep) -> Reply {
    match s {
        AssignRoleStep::Respond(r) => r,
        _ => panic!("expected a reply"),
    }
}

#[test]
fn only_admins_assign_roles() {
    let r = respond(assign_user_role("user", "a", "b", &payload("user", None), &no_facts()));
    assert_eq!(r.status, 403);
    assert_eq!(error_of(&r), "Only global administrators can assign roles.");
    let r = respond(assign_user_role("admin", "a", "a", &payload("user", None), &no_facts()));
    assert_eq!(r.status, 400);
    let r = respond(assign_user_role("admin", "a", "b", &payload("root", None), &no_facts()));
    assert_eq!(error_of(&r), "Invalid role specified. Allowed roles are 'user' or 'org_admin'.");
    let r = respond(assign_user_role("admin", "a", "b", &payload(" ORG_ADMIN ", None), &no_facts()));
    assert_eq!(error_of(&r), "An organization ID is required when assigning the 'org_admin' role.");
}

#[test]
fn org_admin_role_checks_org_then_updates() {
    let p = payload("org_admin", Some("o1"));
    assert!(matches!(assign_user_role("admin", "a", "b", &p, &no_facts()), AssignRoleStep::CheckOrg(o) if o == "o1"));
    let mut f = no_facts();
    f.org_exists = Some(Ok(false));
    let r = respond(assign_user_role("admin", "a", "b", &p, &f));
    assert_eq!(error_of(&r), "Organization with ID o1 not found.");
    f.org_exists = Some(Ok(true));
    assert!(matches!(assign_user_role("admin", "a", "b", &p, &f), AssignRoleStep::FetchTarget));
    f.target = Some(Ok(Some(TargetUser { role: "user".to_string(), org_id: "o0".to_string() })));
    match assign_user_role("admin", "a", "b", &p, &f) {
        AssignRoleStep::Update { role, org_id } => assert_eq!((role.as_str(), org_id.as_str()), ("org_admin", "o1")),
        _ => panic!("update"),
    }
    f.rows_updated = Some(Ok(1));
    let r = respond(assign_user_role("admin", "a", "b", &p, &f));
    assert_eq!((r.status, message_of(&r).as_str()), (200, "User role updated successfully."));
}

#[test]
fn last_admin_keeps_role() {
    let mut f = no_facts();
    f.target = Some(Ok(Some(TargetUser { role: "admin".to_string(), org_id: "o0".to_string() })));
    assert!(matches!(assign_user_role("admin", "a", "b", &payload("user", None), &f), AssignRoleStep::CountAdmins));
    f.admin_count = Some(Ok(1));
    let r = respond(assign_user_role("admin", "a", "b", &payload("user", None), &f));
    assert_eq!(r.status, 403);
    f.admin_count = Some(Ok(2));
    assert!(matches!(assign_user_role("admin", "a", "b", &payload("user", None), &f),
        AssignRoleStep::Update { org_id, .. } if org_id == "o0"));
}

#[test]
fn profile_email_change_flow() {
    let p = UpdateUserProfilePayload { email: Some("  New@X.io ".to_string()) };
    let mut f = ProfileFacts { target_email: None, email_taken: None, rows_updated: None, mail_sent: None };
    assert!(matches!(update_user_profile("admin", &p, "http://b", "t", &f), ProfileStep::FetchTarget));
    f.target_email = Some(Ok(Some("new@x.io".to_string())));
    match update_user_profile("admin", &p, "http://b", "t", &f) {
        ProfileStep::Respond(r) => assert_eq!(message_of(&r), "No changes to email address."),
        _ => panic!("reply"),
    }
    f.target_email = Some(Ok(Some("old@x.io".to_string())));
    assert!(matches!(update_user_profile("admin", &p, "http://b", "t", &f), ProfileStep::CheckEmail(e) if e == "New@X.io"));
    f.email_taken = Some(Ok(false));
    assert!(matches!(update_user_profile("admin", &p, "http://b", "t", &f),
        ProfileStep::UpdateEmail { email, confirmed: false, token } if email == "New@X.io" && token == "t"));
    f.rows_updated = Some(Ok(1));
    match update_user_profile("admin", &p, "http://b", "t", &f) {
        ProfileStep::SendMail { to, subject, body } => {
            assert_eq!(to, "New@X.io");
            assert_eq!(subject, "Your Email Address Was Changed - Confirm New Email");
            assert!(body.contains("http://b/api/confirm/t"));
        },
        _ => panic!("mail"),
    }
    let bad = UpdateUserProfilePayload { email: Some("nobody".to_string()) };
    match update_user_profile("admin", &bad, "b", "t", &f) {
        ProfileStep::Respond(r) => assert_eq!(error_of(&r), "Invalid email format."),
        _ => panic!("reply"),
    }
}

#[test]
fn resend_confirmation_flow() {
    let mut f = ResendFacts { user: None, rows_updated: None, mail_sent: None };
    assert!(matches!(resend_confirmation_email("admin", "u", "t", &f), ResendStep::FetchUser));
    f.user = Some(Ok(Some(UserContact { email: "a@b".to_string(), confirmed: true })));
    match resend_confirmation_email("admin", "u", "t", &f) {
        ResendStep::Respond(r) => assert_eq!(error_of(&r), "User is already confirmed."),
        _ => panic!("reply"),
    }
    f.user = Some(Ok(Some(UserContact { email: "a@b".to_string(), confirmed: false })));
    f.rows_updated = Some(Ok(1));
    match resend_confirmation_email("admin", "http://u", "t", &f) {
        ResendStep::SendMail { body, .. } => assert_eq!(body, "Hello a@b,\n\nPlease confirm your email by clicking the link below:\nhttp://u/api/confirm/t\n"),
        _ => panic!("mail"),
    }
}

#[test]
fn activation_replies() {
    assert_eq!(deactivate_user("user", Ok(1)).status, 403);
    assert_eq!(deactivate_user("admin", Ok(1)).status, 200);
    assert_eq!(error_of(&deactivate_user("admin", Ok(0))), "User already deactivated or not found.");
    assert_eq!(error_of(&reactivate_user("admin", Ok(0))), "User already active or not found.");
    assert_eq!(reactivate_user("admin", Err(())).status, 500);
}

#[test]
fn pagination_window() {
    let w = PaginationParams { page: Some(3), limit: Some(500) }.window();
    assert_eq!((w.page, w.limit, w.offset), (3, 100, 200));
    let w = PaginationParams { page: Some(-2), limit: None }.window();
    assert_eq!((w.page, w.limit, w.offset), (1, 20, 0));
    assert!(!PaginationParams { page: Some(i64::MAX), limit: Some(50) }.fits());
    assert_eq!(total_pages(0, 20), 0);
    assert_eq!(total_pages(41, 20), 3);
    assert_eq!(total_pages(40, 20), 2);
}
