//! Organisations and the users an organisation administrator manages:
//! creating organisations, inviting users, and removing, deactivating,
//! reactivating and re-confirming the organisation's users.

use vstd::prelude::*;
use crate::json::{Json, JsonValue, json_from_str, members_view, lemma_members_view};
use crate::reply::{Reply, error_body, success_message_body, error_reply, success_message};
use crate::text::{lowercase, trim, str_eq, concat3, trim_lower, trim_str, string_of, chars_of};

verus! {

/// The name of an organisation to create.
pub struct OrgInput {
    pub name: String,
}

/// An organisation to store.
pub struct NewOrganization {
    pub name: String,
}

/// The email of a user to invite.
pub struct OrgInviteUserPayload {
    pub email: String,
}

/// The text of the nil UUID, the organisation of users without one.
pub open spec fn nil_org() -> Seq<char> {
    "00000000-0000-0000-0000-000000000000"@
}

// ---------------------------------------------------------------------------
// Creating and listing
// ---------------------------------------------------------------------------

/// The check before an organisation is created: only a global
/// administrator may, and the trimmed name must not be empty. `Ok` holds
/// the organisation to store.
pub open spec fn create_org_check(role: Seq<char>, name: Seq<char>) -> Result<Seq<char>, (u16, Json)> {
    if role != "admin"@ {
        Err((403, error_body("You do not have permission to create organizations."@)))
    } else if trim(name).len() == 0 {
        Err((400, error_body("Organization name cannot be empty."@)))
    } else {
        Ok(trim(name))
    }
}

/// Checks a request to create an organisation.
pub fn create_org(role: &str, data: &OrgInput) -> (r: Result<NewOrganization, Reply>)
    ensures
        match r {
            Ok(o) => create_org_check(role@, data.name@) == Ok::<Seq<char>, (u16, Json)>(o.name@),
            Err(rep) => create_org_check(role@, data.name@) == Err::<Seq<char>, (u16, Json)>((rep.status, rep.body@)),
        },
{
    if !str_eq(role, "admin") {
        return Err(error_reply(403, "You do not have permission to create organizations."));
    }
    let t = trim_str(data.name.as_str());
    if t.len() == 0 {
        return Err(error_reply(400, "Organization name cannot be empty."));
    }
    Ok(NewOrganization { name: string_of(&t) })
}

/// How storing a new organisation ended.
pub enum CreateOrgResult {
    /// Stored, and its default settings too.
    Created,
    /// Stored, but its default settings failed.
    CreatedWithoutSettings,
    /// Another organisation has the name.
    NameTaken,
    /// Another database error.
    Failed,
}

/// The reply to creating an organisation: 200 with the organisation
/// (under "organization", beside a "warning", where its settings failed),
/// 409 or 500. `None` as body means the organisation itself is the body.
pub fn create_org_reply(result: &CreateOrgResult) -> (r: (u16, Option<String>, bool))
    ensures
        match result {
            CreateOrgResult::Created => r.0 == 200 && r.1 is None && !r.2,
            CreateOrgResult::CreatedWithoutSettings => r.0 == 200 && r.2
                && crate::auth::msg_of(r.1) == Some("Organization created, but default settings failed to initialize."@),
            CreateOrgResult::NameTaken => r.0 == 409 && !r.2
                && crate::auth::msg_of(r.1) == Some("An organization with this name already exists."@),
            CreateOrgResult::Failed => r.0 == 500 && !r.2 && crate::auth::msg_of(r.1) == Some("Failed to create organization."@),
        },
{
    match result {
        CreateOrgResult::Created => (200, None, false),
        CreateOrgResult::CreatedWithoutSettings => (
            200,
            Some("Organization created, but default settings failed to initialize.".to_string()),
            true,
        ),
        CreateOrgResult::NameTaken => (409, Some("An organization with this name already exists.".to_string()), false),
        CreateOrgResult::Failed => (500, Some("Failed to create organization.".to_string()), false),
    }
}

/// Who may list an organisation's users: global and organisation
/// administrators, the latter only with an organisation.
pub open spec fn org_users_refusal(role: Seq<char>, org_id: Seq<char>) -> Option<(u16, Json)> {
    if role != "org_admin"@ && role != "admin"@ {
        Some((403, error_body("You do not have permission to view users for this organization."@)))
    } else if role == "org_admin"@ && org_id == nil_org() {
        Some((400, error_body("Organization admin is not associated with an organization."@)))
    } else {
        None
    }
}

/// The refusal of a request to list an organisation's users, if refused.
pub fn get_organization_users(role: &str, org_id: &str) -> (r: Option<Reply>)
    ensures
        match r {
            Some(rep) => org_users_refusal(role@, org_id@) == Some((rep.status, rep.body@)),
            None => org_users_refusal(role@, org_id@) is None,
        },
{
    let is_org_admin = str_eq(role, "org_admin");
    if !is_org_admin && !str_eq(role, "admin") {
        return Some(error_reply(403, "You do not have permission to view users for this organization."));
    }
    if is_org_admin && str_eq(org_id, "00000000-0000-0000-0000-000000000000") {
        return Some(error_reply(400, "Organization admin is not associated with an organization."));
    }
    None
}

// ---------------------------------------------------------------------------
// Acting on an organisation's users
// ---------------------------------------------------------------------------

/// What an organisation administrator does to one of the organisation's
/// users.
#[derive(PartialEq, Eq, Structural, Clone, Copy)]
pub enum OrgAction {
    /// Remove the user from the organisation (deactivate).
    Remove,
    Deactivate,
    Reactivate,
    /// Renew the confirmation token and mail it.
    ResendConfirmation,
}

/// The user acted on, as stored.
pub struct OrgTarget {
    pub org_id: String,
    pub role: String,
    pub email: String,
    pub is_active: bool,
    pub confirmed: bool,
}

/// What the database and mailer answered so far.
pub struct OrgActionFacts {
    pub target: Option<Result<Option<OrgTarget>, ()>>,
    pub rows_updated: Option<Result<u64, ()>>,
    /// The organisation's name (its query may fail).
    pub org_name: Option<Result<String, ()>>,
    pub mail_sent: Option<bool>,
}

/// The next step of an action on an organisation's user.
pub enum OrgActionStep {
    FetchTarget,
    /// Run the action's update on the user of the administrator's
    /// organisation.
    Update,
    FetchOrgName,
    SendMail { to: String, subject: String, body: String },
    Respond(Reply),
}

/// The mathematical form of a step of an action on an organisation's user.
pub enum OrgActionStepView {
    FetchTarget,
    Update,
    FetchOrgName,
    SendMail(Seq<char>, Seq<char>, Seq<char>),
    Respond(u16, Json),
}

/// The view of a step of an action on an organisation's user.
pub open spec fn org_step_view(s: OrgActionStep) -> OrgActionStepView {
    match s {
        OrgActionStep::FetchTarget => OrgActionStepView::FetchTarget,
        OrgActionStep::Update => OrgActionStepView::Update,
        OrgActionStep::FetchOrgName => OrgActionStepView::FetchOrgName,
        OrgActionStep::SendMail { to, subject, body } => OrgActionStepView::SendMail(to@, subject@, body@),
        OrgActionStep::Respond(r) => OrgActionStepView::Respond(r.status, r.body@),
    }
}

/// An error reply step.
pub open spec fn refuse_org(status: u16, msg: Seq<char>) -> OrgActionStepView {
    OrgActionStepView::Respond(status, error_body(msg))
}

/// Whether an organisation administrator may act on a user: not on
/// himself, only on users of his organisation, and not on administrators.
/// `None` to go on.
pub open spec fn target_check(admin_id: Seq<char>, admin_org: Seq<char>, target_id: Seq<char>, target: Option<Result<Option<OrgTarget>, ()>>) -> Option<OrgActionStepView> {
    if target_id == admin_id {
        Some(refuse_org(403, "Organization administrators cannot manage their own account using this function."@))
    } else {
        match target {
            None => Some(OrgActionStepView::FetchTarget),
            Some(Err(_)) => Some(refuse_org(500, "Database error fetching user information."@)),
            Some(Ok(None)) => Some(refuse_org(404, "Target user not found."@)),
            Some(Ok(Some(t))) => if t.org_id@ != admin_org {
                Some(refuse_org(403, "This user does not belong to your organization."@))
            } else if t.role@ == "admin"@ || t.role@ == "org_admin"@ {
                Some(refuse_org(403, "Organization administrators cannot manage other administrators using this function."@))
            } else {
                None
            },
        }
    }
}

/// The organisation's name for an email, or "Your Organization".
pub open spec fn org_name_or_default(n: Result<String, ()>) -> Seq<char> {
    match n {
        Ok(s) => s@,
        Err(_) => "Your Organization"@,
    }
}

/// The email that asks a user to confirm his address for an organisation.
pub open spec fn org_confirm_body(email: Seq<char>, org: Seq<char>, link: Seq<char>) -> Seq<char> {
    "Hello "@ + email
        + ",\n\nPlease confirm your email address for the organization '"@ + org
        + "' on crPipeline by clicking the link below:\n"@ + link
        + "\n\nIf you did not request this, please ignore this email.\n\nThank you,\nThe crPipeline Team"@
}

/// The steps of an action once the target was found and may be acted on.
pub open spec fn action_steps(action: OrgAction, t: OrgTarget, base_url: Seq<char>, token: Seq<char>, facts: OrgActionFacts) -> OrgActionStepView {
    match action {
        OrgAction::Remove => match facts.rows_updated {
            None => OrgActionStepView::Update,
            Some(Err(_)) => refuse_org(500, "Failed to update user status for removal."@),
            Some(Ok(n)) => if n > 0 {
                OrgActionStepView::Respond(200, success_message_body("User has been removed (deactivated) from the organization."@))
            } else {
                OrgActionStepView::Respond(200, success_message_body("User was already in the requested state or not found during update."@))
            },
        },
        OrgAction::Deactivate => if !t.is_active {
            refuse_org(400, "User is already deactivated."@)
        } else {
            match facts.rows_updated {
                None => OrgActionStepView::Update,
                Some(Err(_)) => refuse_org(500, "Failed to deactivate user."@),
                Some(Ok(n)) => if n > 0 {
                    OrgActionStepView::Respond(200, success_message_body("User deactivated successfully."@))
                } else {
                    refuse_org(500, "Deactivation failed, user not found or no change."@)
                },
            }
        },
        OrgAction::Reactivate => if t.is_active {
            refuse_org(400, "User is already active."@)
        } else {
            match facts.rows_updated {
                None => OrgActionStepView::Update,
                Some(Err(_)) => refuse_org(500, "Failed to reactivate user."@),
                Some(Ok(n)) => if n > 0 {
                    OrgActionStepView::Respond(200, success_message_body("User reactivated successfully."@))
                } else {
                    refuse_org(500, "Reactivation failed, user not found or no change."@)
                },
            }
        },
        OrgAction::ResendConfirmation => if t.confirmed {
            refuse_org(400, "User's email is already confirmed."@)
        } else {
            match facts.rows_updated {
                None => OrgActionStepView::Update,
                Some(Err(_)) => refuse_org(500, "Database error while trying to resend confirmation."@),
                Some(Ok(n)) => if n == 0 {
                    refuse_org(404, "Failed to update confirmation token for user, or user already confirmed."@)
                } else {
                    match facts.org_name {
                        None => OrgActionStepView::FetchOrgName,
                        Some(name) => match facts.mail_sent {
                            None => OrgActionStepView::SendMail(
                                t.email@,
                                "Confirm your email for "@ + org_name_or_default(name) + " on crPipeline"@,
                                org_confirm_body(t.email@, org_name_or_default(name), base_url + "/api/confirm/"@ + token),
                            ),
                            Some(false) => refuse_org(500, "Confirmation token updated, but failed to send email."@),
                            Some(true) => OrgActionStepView::Respond(200, success_message_body("Confirmation email has been resent."@)),
                        },
                    }
                },
            }
        },
    }
}

/// The next step of an action by organisation administrator `admin_id`
/// (role `role`, organisation `admin_org`) on user `target_id`.
pub open spec fn org_action_step(
    action: OrgAction,
    role: Seq<char>,
    admin_id: Seq<char>,
    admin_org: Seq<char>,
    target_id: Seq<char>,
    base_url: Seq<char>,
    token: Seq<char>,
    facts: OrgActionFacts,
) -> OrgActionStepView {
    if role != "org_admin"@ {
        refuse_org(403, "Only organization administrators can perform this action."@)
    } else {
        match target_check(admin_id, admin_org, target_id, facts.target) {
            Some(s) => s,
            None => action_steps(action, facts.target->Some_0->Ok_0->Some_0, base_url, token, facts),
        }
    }
}

fn refuse_step(status: u16, msg: &str) -> (r: OrgActionStep)
    ensures
        org_step_view(r) == refuse_org(status, msg@),
{
    OrgActionStep::Respond(error_reply(status, msg))
}

/// Checks whether an organisation administrator may act on a user, once
/// the user was looked up: `None` to go on.
pub fn get_and_authorize_target_user_for_org_action(
    admin_id: &str,
    admin_org: &str,
    target_id: &str,
    target: &Option<Result<Option<OrgTarget>, ()>>,
) -> (r: Option<OrgActionStep>)
    ensures
        match r {
            Some(s) => target_check(admin_id@, admin_org@, target_id@, *target) == Some(org_step_view(s)),
            None => target_check(admin_id@, admin_org@, target_id@, *target) is None,
        },
{
    if str_eq(target_id, admin_id) {
        return Some(refuse_step(403, "Organization administrators cannot manage their own account using this function."));
    }
    match target {
        None => Some(OrgActionStep::FetchTarget),
        Some(Err(_)) => Some(refuse_step(500, "Database error fetching user information.")),
        Some(Ok(None)) => Some(refuse_step(404, "Target user not found.")),
        Some(Ok(Some(t))) => if !str_eq(t.org_id.as_str(), admin_org) {
            Some(refuse_step(403, "This user does not belong to your organization."))
        } else if str_eq(t.role.as_str(), "admin") || str_eq(t.role.as_str(), "org_admin") {
            Some(refuse_step(403, "Organization administrators cannot manage other administrators using this function."))
        } else {
            None
        },
    }
}

fn rows_step(rows: &Option<Result<u64, ()>>, fail: &str, done: &str, none: &str, none_is_error: bool) -> (r: OrgActionStep)
    ensures
        org_step_view(r) == match *rows {
            None => OrgActionStepView::Update,
            Some(Err(_)) => refuse_org(500, fail@),
            Some(Ok(n)) => if n > 0 {
                OrgActionStepView::Respond(200, success_message_body(done@))
            } else if none_is_error {
                refuse_org(500, none@)
            } else {
                OrgActionStepView::Respond(200, success_message_body(none@))
            },
        },
{
    match rows {
        None => OrgActionStep::Update,
        Some(Err(_)) => refuse_step(500, fail),
        Some(Ok(n)) => if *n > 0 {
            OrgActionStep::Respond(success_message(done))
        } else if none_is_error {
            refuse_step(500, none)
        } else {
            OrgActionStep::Respond(success_message(none))
        },
    }
}

/// The next step of an action by an organisation administrator on a user
/// of the organisation, given what the database and mailer answered so far;
/// a renewed confirmation link is made of `base_url` and `token`.
pub fn org_user_action(
    action: OrgAction,
    role: &str,
    admin_id: &str,
    admin_org: &str,
    target_id: &str,
    base_url: &str,
    token: &str,
    facts: &OrgActionFacts,
) -> (r: OrgActionStep)
    ensures
        org_step_view(r) == org_action_step(action, role@, admin_id@, admin_org@, target_id@, base_url@, token@, *facts),
{
    if !str_eq(role, "org_admin") {
        return refuse_step(403, "Only organization administrators can perform this action.");
    }
    match get_and_authorize_target_user_for_org_action(admin_id, admin_org, target_id, &facts.target) {
        Some(s) => {
            return s;
        },
        None => {},
    }
    let t = match &facts.target {
        Some(Ok(Some(t))) => t,
        _ => {
            return OrgActionStep::FetchTarget;
        },
    };
    match action {
        OrgAction::Remove => rows_step(
            &facts.rows_updated,
            "Failed to update user status for removal.",
            "User has been removed (deactivated) from the organization.",
            "User was already in the requested state or not found during update.",
            false,
        ),
        OrgAction::Deactivate => if !t.is_active {
            refuse_step(400, "User is already deactivated.")
        } else {
            rows_step(
                &facts.rows_updated,
                "Failed to deactivate user.",
                "User deactivated successfully.",
                "Deactivation failed, user not found or no change.",
                true,
            )
        },
        OrgAction::Reactivate => if t.is_active {
            refuse_step(400, "User is already active.")
        } else {
            rows_step(
                &facts.rows_updated,
                "Failed to reactivate user.",
                "User reactivated successfully.",
                "Reactivation failed, user not found or no change.",
                true,
            )
        },
        OrgAction::ResendConfirmation => if t.confirmed {
            refuse_step(400, "User's email is already confirmed.")
        } else {
            match &facts.rows_updated {
                None => OrgActionStep::Update,
                Some(Err(_)) => refuse_step(500, "Database error while trying to resend confirmation."),
                Some(Ok(n)) => if *n == 0 {
                    refuse_step(404, "Failed to update confirmation token for user, or user already confirmed.")
                } else {
                    match &facts.org_name {
                        None => OrgActionStep::FetchOrgName,
                        Some(name) => match facts.mail_sent {
                            None => {
                                let org = match name {
                                    Ok(s) => s.clone(),
                                    Err(_) => "Your Organization".to_owned(),
                                };
                                let subject = concat3("Confirm your email for ", org.as_str(), " on crPipeline");
                                let link = concat3(base_url, "/api/confirm/", token);
                                let a = concat3("Hello ", t.email.as_str(), ",\n\nPlease confirm your email address for the organization '");
                                let b = concat3(a.as_str(), org.as_str(), "' on crPipeline by clicking the link below:\n");
                                let body = concat3(
                                    b.as_str(),
                                    link.as_str(),
                                    "\n\nIf you did not request this, please ignore this email.\n\nThank you,\nThe crPipeline Team",
                                );
                                OrgActionStep::SendMail { to: t.email.clone(), subject, body }
                            },
                            Some(false) => refuse_step(500, "Confirmation token updated, but failed to send email."),
                            Some(true) => OrgActionStep::Respond(success_message("Confirmation email has been resent.")),
                        },
                    }
                },
            }
        },
    }
}

/// An organisation administrator acts only on ordinary users of his own
/// organisation: whatever the action and the database's answers, the
/// update is reached only for a target in the administrator's organisation
/// that is neither `admin` nor `org_admin` and not the administrator.
pub proof fn lemma_org_actions_stay_in_org(
    action: OrgAction,
    role: Seq<char>,
    admin_id: Seq<char>,
    admin_org: Seq<char>,
    target_id: Seq<char>,
    base_url: Seq<char>,
    token: Seq<char>,
    facts: OrgActionFacts,
)
    requires
        org_action_step(action, role, admin_id, admin_org, target_id, base_url, token, facts) is Update,
    ensures
        role == "org_admin"@,
        target_id != admin_id,
        facts.target matches Some(Ok(Some(t))) && t.org_id@ == admin_org && t.role@ != "admin"@ && t.role@ != "org_admin"@,
{
}

} // verus!
