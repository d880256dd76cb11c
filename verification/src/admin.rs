//! The global administrator's user management: assigning roles, changing a
//! user's email, resending confirmations, (de)activating users and listing
//! them page by page.
//!
//! Each handler consults the database between its decisions. Its decisions
//! are a function from what the database answered so far (its facts) to the
//! next step: a query to make, or the reply.

use vstd::prelude::*;
use crate::json::Json;
use crate::reply::{Reply, error_body, success_message_body, success_body, is_reply, error_reply,
    success_message, success};
use crate::text::{lowercase, trim, str_eq, concat3, trim_lower};

verus! {

/// The request to assign a role.
pub struct AssignRolePayload {
    pub role: String,
    pub org_id: Option<String>,
}

/// The stored role and organisation of the user whose role changes.
pub struct TargetUser {
    pub role: String,
    pub org_id: String,
}

/// What the database answered so far while a role is assigned; `None`
/// where it was not asked yet, `Err` where the query failed.
pub struct AssignRoleFacts {
    /// Whether the requested organisation exists.
    pub org_exists: Option<Result<bool, ()>>,
    /// The target user, if there is one.
    pub target: Option<Result<Option<TargetUser>, ()>>,
    /// How many users are global administrators.
    pub admin_count: Option<Result<i64, ()>>,
    /// How many rows the update changed.
    pub rows_updated: Option<Result<u64, ()>>,
}

/// The next step of a role assignment.
pub enum AssignRoleStep {
    /// Ask whether this organisation exists.
    CheckOrg(String),
    /// Fetch the target user.
    FetchTarget,
    /// Count the global administrators.
    CountAdmins,
    /// Set the target user's role and organisation.
    Update { role: String, org_id: String },
    /// Answer with this reply.
    Respond(Reply),
}

/// The mathematical form of a step of a role assignment.
pub enum RoleStepView {
    CheckOrg(Seq<char>),
    FetchTarget,
    CountAdmins,
    Update(Seq<char>, Seq<char>),
    Respond(u16, Json),
}

/// The view of a step of a role assignment.
pub open spec fn role_step_view(s: AssignRoleStep) -> RoleStepView {
    match s {
        AssignRoleStep::CheckOrg(o) => RoleStepView::CheckOrg(o@),
        AssignRoleStep::FetchTarget => RoleStepView::FetchTarget,
        AssignRoleStep::CountAdmins => RoleStepView::CountAdmins,
        AssignRoleStep::Update { role, org_id } => RoleStepView::Update(role@, org_id@),
        AssignRoleStep::Respond(r) => RoleStepView::Respond(r.status, r.body@),
    }
}

/// The reply "Organization with ID {org} not found." (400).
pub open spec fn org_not_found(org: Seq<char>) -> RoleStepView {
    RoleStepView::Respond(400, error_body("Organization with ID "@ + org + " not found."@))
}

/// What follows once an organisation must exist: `None` to go on.
pub open spec fn org_check(org: Seq<char>, answer: Option<Result<bool, ()>>) -> Option<RoleStepView> {
    match answer {
        None => Some(RoleStepView::CheckOrg(org)),
        Some(Ok(true)) => None,
        Some(Ok(false)) => Some(org_not_found(org)),
        Some(Err(_)) => Some(RoleStepView::Respond(500, error_body("Database error validating organization."@))),
    }
}

/// The role a request asks for: trimmed and lower-cased.
pub open spec fn requested_role(role: Seq<char>) -> Seq<char> {
    lowercase(trim(role))
}

/// The steps of a role assignment after the target user was found.
pub open spec fn role_step_for_target(
    new_role: Seq<char>,
    org: Option<Seq<char>>,
    t: TargetUser,
    facts: AssignRoleFacts,
) -> RoleStepView {
    let guard: Option<RoleStepView> = if t.role@ == "admin"@ && new_role != "admin"@ {
        match facts.admin_count {
            None => Some(RoleStepView::CountAdmins),
            Some(Err(_)) => Some(RoleStepView::Respond(500, error_body("Database error during safety check."@))),
            Some(Ok(c)) => if c <= 1 {
                Some(RoleStepView::Respond(403, error_body("Cannot remove the last global administrator's 'admin' role."@)))
            } else {
                None
            },
        }
    } else {
        None
    };
    match guard {
        Some(s) => s,
        None => {
            let org_step: Option<RoleStepView> = match org {
                Some(o) => if new_role != "org_admin"@ {
                    org_check(o, facts.org_exists)
                } else {
                    None
                },
                None => None,
            };
            match org_step {
                Some(s) => s,
                None => {
                    let final_org = match org {
                        Some(o) => o,
                        None => t.org_id@,
                    };
                    match facts.rows_updated {
                        None => RoleStepView::Update(new_role, final_org),
                        Some(Ok(n)) => if n > 0 {
                            RoleStepView::Respond(200, success_message_body("User role updated successfully."@))
                        } else {
                            RoleStepView::Respond(
                                200,
                                success_message_body("User role and org assignment are already up to date or user not found during update."@),
                            )
                        },
                        Some(Err(_)) => RoleStepView::Respond(500, error_body("Database error updating user role."@)),
                    }
                },
            }
        },
    }
}

/// The next step of a role assignment by `admin_id` (with role
/// `admin_role`) for user `target_id`, given the facts so far.
pub open spec fn assign_role_step(
    admin_role: Seq<char>,
    admin_id: Seq<char>,
    target_id: Seq<char>,
    role: Seq<char>,
    org: Option<Seq<char>>,
    facts: AssignRoleFacts,
) -> RoleStepView {
    let new_role = requested_role(role);
    if admin_role != "admin"@ {
        RoleStepView::Respond(403, error_body("Only global administrators can assign roles."@))
    } else if target_id == admin_id {
        RoleStepView::Respond(400, error_body("Administrators cannot change their own role using this endpoint."@))
    } else if new_role != "user"@ && new_role != "org_admin"@ {
        RoleStepView::Respond(400, error_body("Invalid role specified. Allowed roles are 'user' or 'org_admin'."@))
    } else {
        let org_step: Option<RoleStepView> = if new_role == "org_admin"@ {
            match org {
                None => Some(RoleStepView::Respond(
                    400,
                    error_body("An organization ID is required when assigning the 'org_admin' role."@),
                )),
                Some(o) => org_check(o, facts.org_exists),
            }
        } else {
            None
        };
        match org_step {
            Some(s) => s,
            None => match facts.target {
                None => RoleStepView::FetchTarget,
                Some(Err(_)) => RoleStepView::Respond(500, error_body("Database error fetching user."@)),
                Some(Ok(None)) => RoleStepView::Respond(404, error_body("Target user not found."@)),
                Some(Ok(Some(t))) => role_step_for_target(new_role, org, t, facts),
            },
        }
    }
}

/// The text of an optional string.
pub open spec fn opt_text_of(o: Option<String>) -> Option<Seq<char>> {
    match o {
        Some(s) => Some(s@),
        None => None,
    }
}

fn respond(status: u16, msg: &str) -> (r: AssignRoleStep)
    ensures
        role_step_view(r) == RoleStepView::Respond(status, error_body(msg@)),
{
    AssignRoleStep::Respond(error_reply(status, msg))
}

fn check_org(org: &String, answer: &Option<Result<bool, ()>>) -> (r: Option<AssignRoleStep>)
    ensures
        match r {
            Some(s) => org_check(org@, *answer) == Some(role_step_view(s)),
            None => org_check(org@, *answer) is None,
        },
{
    match answer {
        None => Some(AssignRoleStep::CheckOrg(org.clone())),
        Some(Ok(true)) => None,
        Some(Ok(false)) => {
            let msg = concat3("Organization with ID ", org.as_str(), " not found.");
            Some(AssignRoleStep::Respond(error_reply(400, msg.as_str())))
        },
        Some(Err(_)) => Some(respond(500, "Database error validating organization.")),
    }
}

/// The next step of assigning a role to user `target_id`, requested by the
/// signed-in user `admin_id` with role `admin_role`, given what the
/// database answered so far. Only a global administrator may assign roles,
/// not to himself, and only "user" or "org_admin" (an organisation is
/// required for the latter, and must exist); the last global administrator
/// keeps his role.
pub fn assign_user_role(
    admin_role: &str,
    admin_id: &str,
    target_id: &str,
    payload: &AssignRolePayload,
    facts: &AssignRoleFacts,
) -> (r: AssignRoleStep)
    ensures
        role_step_view(r) == assign_role_step(
            admin_role@,
            admin_id@,
            target_id@,
            payload.role@,
            opt_text_of(payload.org_id),
            *facts,
        ),
{
    if !str_eq(admin_role, "admin") {
        return respond(403, "Only global administrators can assign roles.");
    }
    if str_eq(target_id, admin_id) {
        return respond(400, "Administrators cannot change their own role using this endpoint.");
    }
    let new_role = trim_lower(payload.role.as_str());
    let is_org_admin = str_eq(new_role.as_str(), "org_admin");
    if !str_eq(new_role.as_str(), "user") && !is_org_admin {
        return respond(400, "Invalid role specified. Allowed roles are 'user' or 'org_admin'.");
    }
    if is_org_admin {
        match &payload.org_id {
            None => {
                return respond(400, "An organization ID is required when assigning the 'org_admin' role.");
            },
            Some(o) => match check_org(o, &facts.org_exists) {
                Some(s) => {
                    return s;
                },
                None => {},
            },
        }
    }
    let t = match &facts.target {
        None => {
            return AssignRoleStep::FetchTarget;
        },
        Some(Err(_)) => {
            return respond(500, "Database error fetching user.");
        },
        Some(Ok(None)) => {
            return respond(404, "Target user not found.");
        },
        Some(Ok(Some(t))) => t,
    };
    if str_eq(t.role.as_str(), "admin") && !str_eq(new_role.as_str(), "admin") {
        match &facts.admin_count {
            None => {
                return AssignRoleStep::CountAdmins;
            },
            Some(Err(_)) => {
                return respond(500, "Database error during safety check.");
            },
            Some(Ok(c)) => if *c <= 1 {
                return respond(403, "Cannot remove the last global administrator's 'admin' role.");
            },
        }
    }
    if !is_org_admin {
        match &payload.org_id {
            Some(o) => match check_org(o, &facts.org_exists) {
                Some(s) => {
                    return s;
                },
                None => {},
            },
            None => {},
        }
    }
    let final_org = match &payload.org_id {
        Some(o) => o.clone(),
        None => t.org_id.clone(),
    };
    match &facts.rows_updated {
        None => AssignRoleStep::Update { role: new_role, org_id: final_org },
        Some(Ok(n)) => if *n > 0 {
            AssignRoleStep::Respond(success_message("User role updated successfully."))
        } else {
            AssignRoleStep::Respond(
                success_message("User role and org assignment are already up to date or user not found during update."),
            )
        },
        Some(Err(_)) => respond(500, "Database error updating user role."),
    }
}


/// Only global administrators change roles: whatever the database answers,
/// a request by anyone else never reaches the update.
pub proof fn lemma_only_admins_assign_roles(
    admin_role: Seq<char>,
    admin_id: Seq<char>,
    target_id: Seq<char>,
    role: Seq<char>,
    org: Option<Seq<char>>,
    facts: AssignRoleFacts,
)
    requires
        admin_role != "admin"@,
    ensures
        !(assign_role_step(admin_role, admin_id, target_id, role, org, facts) is Update),
{
}

/// The global administrators of a table of user roles (id to role).
pub open spec fn global_admins(roles: Map<Seq<char>, Seq<char>>) -> Set<Seq<char>> {
    roles.dom().filter(|id: Seq<char>| roles[id] == "admin"@)
}

/// A role assignment never leaves the users without a global
/// administrator: where the database answers from a table of user roles
/// that holds one, the update that the assignment asks for (the target's
/// role set to the new one) leaves one.
pub proof fn lemma_assignment_keeps_an_admin(
    admin_role: Seq<char>,
    admin_id: Seq<char>,
    target_id: Seq<char>,
    role: Seq<char>,
    org: Option<Seq<char>>,
    facts: AssignRoleFacts,
    roles: Map<Seq<char>, Seq<char>>,
)
    requires
        roles.dom().finite(),
        global_admins(roles).len() >= 1,
        roles.contains_key(target_id),
        facts.target matches Some(Ok(Some(t))) && t.role@ == roles[target_id],
        facts.admin_count matches Some(Ok(c)) ==> c == global_admins(roles).len(),
        assign_role_step(admin_role, admin_id, target_id, role, org, facts) is Update,
    ensures
        assign_role_step(admin_role, admin_id, target_id, role, org, facts) matches RoleStepView::Update(new_role, _)
            && global_admins(roles.insert(target_id, new_role)).len() >= 1,
{
    let new_role = requested_role(role);
    let t = facts.target->Some_0->Ok_0->Some_0;
    reveal_strlit("admin");
    reveal_strlit("user");
    reveal_strlit("org_admin");
    assert("admin"@.len() == 5 && "user"@.len() == 4 && "org_admin"@.len() == 9);
    assert(new_role == "user"@ || new_role == "org_admin"@);
    assert(new_role != "admin"@);
    assert(assign_role_step(admin_role, admin_id, target_id, role, org, facts) == role_step_for_target(new_role, org, t, facts));
    let before = global_admins(roles);
    let after = global_admins(roles.insert(target_id, new_role));
    assert(after =~= before.remove(target_id));
    if t.role@ == "admin"@ {
        assert(before.contains(target_id));
        assert(before.len() >= 2);
    } else {
        assert(!before.contains(target_id));
        assert(before.remove(target_id) =~= before);
    }
}

/// The last global administrator keeps his role: where the target is a
/// global administrator and there is at most one, the update is never
/// reached.
pub proof fn lemma_last_admin_keeps_role(
    admin_role: Seq<char>,
    admin_id: Seq<char>,
    target_id: Seq<char>,
    role: Seq<char>,
    org: Option<Seq<char>>,
    facts: AssignRoleFacts,
    count: i64,
)
    requires
        facts.target matches Some(Ok(Some(t))) && t.role@ == "admin"@,
        facts.admin_count == Some(Ok::<i64, ()>(count)),
        count <= 1,
    ensures
        !(assign_role_step(admin_role, admin_id, target_id, role, org, facts) is Update),
{
    let new_role = requested_role(role);
    if admin_role == "admin"@ && target_id != admin_id && (new_role == "user"@ || new_role == "org_admin"@) {
        let t = facts.target->Some_0->Ok_0->Some_0;
        reveal_strlit("admin");
        reveal_strlit("user");
        reveal_strlit("org_admin");
        assert("admin"@.len() == 5 && "user"@.len() == 4 && "org_admin"@.len() == 9);
        assert(new_role != "admin"@);
        assert(role_step_for_target(new_role, org, t, facts) == RoleStepView::Respond(
            403,
            error_body("Cannot remove the last global administrator's 'admin' role."@),
        ));
    }
}

// ---------------------------------------------------------------------------
// Changing a user's email
// ---------------------------------------------------------------------------

/// The request to change a user's profile.
pub struct UpdateUserProfilePayload {
    pub email: Option<String>,
}

/// What the database and the mailer answered so far while a profile is
/// changed.
pub struct ProfileFacts {
    /// The target user's current email, if the user exists.
    pub target_email: Option<Result<Option<String>, ()>>,
    /// Whether another user has the new email.
    pub email_taken: Option<Result<bool, ()>>,
    /// How many rows the update changed.
    pub rows_updated: Option<Result<u64, ()>>,
    /// Whether the confirmation email was queued.
    pub mail_sent: Option<bool>,
}

/// The next step of a profile change.
pub enum ProfileStep {
    FetchTarget,
    /// Ask whether a user has this email.
    CheckEmail(String),
    /// Set the user's email, mark it confirmed or not (`confirmed`) and
    /// store this confirmation token.
    UpdateEmail { email: String, confirmed: bool, token: String },
    /// Send this email: recipient, subject, body.
    SendMail { to: String, subject: String, body: String },
    Respond(Reply),
}

/// The mathematical form of a step of a profile change.
pub enum ProfileStepView {
    FetchTarget,
    CheckEmail(Seq<char>),
    UpdateEmail(Seq<char>, bool, Seq<char>),
    SendMail(Seq<char>, Seq<char>, Seq<char>),
    Respond(u16, Json),
}

/// The view of a step of a profile change.
pub open spec fn profile_step_view(s: ProfileStep) -> ProfileStepView {
    match s {
        ProfileStep::FetchTarget => ProfileStepView::FetchTarget,
        ProfileStep::CheckEmail(e) => ProfileStepView::CheckEmail(e@),
        ProfileStep::UpdateEmail { email, confirmed, token } => ProfileStepView::UpdateEmail(email@, confirmed, token@),
        ProfileStep::SendMail { to, subject, body } => ProfileStepView::SendMail(to@, subject@, body@),
        ProfileStep::Respond(r) => ProfileStepView::Respond(r.status, r.body@),
    }
}

/// The link that confirms an email address.
pub open spec fn confirmation_link(base_url: Seq<char>, token: Seq<char>) -> Seq<char> {
    base_url + "/api/confirm/"@ + token
}

/// The email that asks to confirm a changed address.
pub open spec fn changed_email_body(email: Seq<char>, link: Seq<char>) -> Seq<char> {
    "Hello,\n\nYour email address associated with crPipeline was changed by an administrator to "@ + email
        + ".\nPlease confirm this new email address by clicking the link below:\n"@ + link
        + "\n\nIf you did not request this change, please contact support immediately."@
}

/// Whether a text has the character `c`.
pub open spec fn holds_char(s: Seq<char>, c: char) -> bool {
    exists|i: int| 0 <= i < s.len() && s[i] == c
}

/// The next step of a profile change by a user with role `admin_role`,
/// given the facts so far; the confirmation link starts with `base_url` and
/// ends with the new `token`.
pub open spec fn profile_step(
    admin_role: Seq<char>,
    email: Option<Seq<char>>,
    base_url: Seq<char>,
    token: Seq<char>,
    facts: ProfileFacts,
) -> ProfileStepView {
    if admin_role != "admin"@ {
        ProfileStepView::Respond(403, error_body("Only global administrators can update user profiles."@))
    } else {
        match facts.target_email {
            None => ProfileStepView::FetchTarget,
            Some(Err(_)) => ProfileStepView::Respond(500, error_body("Database error fetching user."@)),
            Some(Ok(None)) => ProfileStepView::Respond(404, error_body("Target user not found."@)),
            Some(Ok(Some(current))) => match email {
                None => ProfileStepView::Respond(200, success_message_body("No email provided for update."@)),
                Some(e) => {
                    let t = trim(e);
                    if t.len() == 0 {
                        ProfileStepView::Respond(400, error_body("Email cannot be empty."@))
                    } else if !holds_char(t, '@') {
                        ProfileStepView::Respond(400, error_body("Invalid email format."@))
                    } else if lowercase(t) == lowercase(current@) {
                        ProfileStepView::Respond(200, success_message_body("No changes to email address."@))
                    } else {
                        match facts.email_taken {
                            None => ProfileStepView::CheckEmail(t),
                            Some(Err(_)) => ProfileStepView::Respond(500, error_body("Database error checking email availability."@)),
                            Some(Ok(true)) => ProfileStepView::Respond(409, error_body("New email address is already in use."@)),
                            Some(Ok(false)) => match facts.rows_updated {
                                None => ProfileStepView::UpdateEmail(t, false, token),
                                Some(Err(_)) => ProfileStepView::Respond(500, error_body("Database error updating email."@)),
                                Some(Ok(n)) => if n == 0 {
                                    ProfileStepView::Respond(500, error_body("Failed to update user email."@))
                                } else {
                                    match facts.mail_sent {
                                        None => ProfileStepView::SendMail(
                                            t,
                                            "Your Email Address Was Changed - Confirm New Email"@,
                                            changed_email_body(t, confirmation_link(base_url, token)),
                                        ),
                                        Some(false) => ProfileStepView::Respond(
                                            500,
                                            error_body("Profile email updated, but failed to send confirmation to new email. User must confirm via other means or contact support."@),
                                        ),
                                        Some(true) => ProfileStepView::Respond(
                                            200,
                                            success_message_body("User email updated. A confirmation email has been sent to the new address."@),
                                        ),
                                    }
                                },
                            },
                        }
                    }
                },
            },
        }
    }
}

fn has_char_exec(v: &Vec<char>, c: char) -> (r: bool)
    ensures
        r == holds_char(v@, c),
{
    let n = v.len();
    for i in 0..n
        invariant
            n == v@.len(),
            forall|k: int| 0 <= k < i ==> v@[k] != c,
    {
        if v[i] == c {
            return true;
        }
    }
    false
}

fn respond_profile(status: u16, msg: &str) -> (r: ProfileStep)
    ensures
        profile_step_view(r) == ProfileStepView::Respond(status, error_body(msg@)),
{
    ProfileStep::Respond(error_reply(status, msg))
}

/// The next step of changing the email of a user, requested by a user with
/// role `admin_role`, given what the database and mailer answered so far.
/// A new address must not be blank, must hold `@`, and must not belong to
/// another user; the user is then unconfirmed and mailed a confirmation
/// link made of `base_url` and the new `token`.
pub fn update_user_profile(
    admin_role: &str,
    payload: &UpdateUserProfilePayload,
    base_url: &str,
    token: &str,
    facts: &ProfileFacts,
) -> (r: ProfileStep)
    ensures
        profile_step_view(r) == profile_step(admin_role@, opt_text_of(payload.email), base_url@, token@, *facts),
{
    if !str_eq(admin_role, "admin") {
        return respond_profile(403, "Only global administrators can update user profiles.");
    }
    let current = match &facts.target_email {
        None => {
            return ProfileStep::FetchTarget;
        },
        Some(Err(_)) => {
            return respond_profile(500, "Database error fetching user.");
        },
        Some(Ok(None)) => {
            return respond_profile(404, "Target user not found.");
        },
        Some(Ok(Some(c))) => c,
    };
    let e = match &payload.email {
        None => {
            return ProfileStep::Respond(success_message("No email provided for update."));
        },
        Some(e) => e,
    };
    let tv = crate::text::trim_str(e.as_str());
    let t = crate::text::string_of(&tv);
    if tv.len() == 0 {
        return respond_profile(400, "Email cannot be empty.");
    }
    if !has_char_exec(&tv, '@') {
        return respond_profile(400, "Invalid email format.");
    }
    let lt = crate::text::lowercase_chars(&tv);
    let lc = crate::text::lowercase_chars(&crate::text::chars_of(current.as_str()));
    if crate::text::chars_eq(&lt, &lc) {
        return ProfileStep::Respond(success_message("No changes to email address."));
    }
    match &facts.email_taken {
        None => ProfileStep::CheckEmail(t),
        Some(Err(_)) => respond_profile(500, "Database error checking email availability."),
        Some(Ok(true)) => respond_profile(409, "New email address is already in use."),
        Some(Ok(false)) => match &facts.rows_updated {
            None => ProfileStep::UpdateEmail { email: t, confirmed: false, token: token.to_owned() },
            Some(Err(_)) => respond_profile(500, "Database error updating email."),
            Some(Ok(n)) => if *n == 0 {
                respond_profile(500, "Failed to update user email.")
            } else {
                match &facts.mail_sent {
                    None => {
                        let link = concat3(base_url, "/api/confirm/", token);
                        let head = concat3(
                            "Hello,\n\nYour email address associated with crPipeline was changed by an administrator to ",
                            t.as_str(),
                            ".\nPlease confirm this new email address by clicking the link below:\n",
                        );
                        let body = concat3(
                            head.as_str(),
                            link.as_str(),
                            "\n\nIf you did not request this change, please contact support immediately.",
                        );
                        ProfileStep::SendMail {
                            to: t,
                            subject: "Your Email Address Was Changed - Confirm New Email".to_owned(),
                            body,
                        }
                    },
                    Some(false) => respond_profile(
                        500,
                        "Profile email updated, but failed to send confirmation to new email. User must confirm via other means or contact support.",
                    ),
                    Some(true) => ProfileStep::Respond(
                        success_message("User email updated. A confirmation email has been sent to the new address."),
                    ),
                }
            },
        },
    }
}


// ---------------------------------------------------------------------------
// Resending a confirmation
// ---------------------------------------------------------------------------

/// A user as the confirmation steps see it: email and whether confirmed.
pub struct UserContact {
    pub email: String,
    pub confirmed: bool,
}

/// What the database and the mailer answered so far while a confirmation
/// is resent.
pub struct ResendFacts {
    pub user: Option<Result<Option<UserContact>, ()>>,
    pub rows_updated: Option<Result<u64, ()>>,
    pub mail_sent: Option<bool>,
}

/// The next step of resending a confirmation.
pub enum ResendStep {
    FetchUser,
    /// Mark the user unconfirmed with a new confirmation token.
    RenewToken,
    SendMail { to: String, subject: String, body: String },
    Respond(Reply),
}

/// The mathematical form of a step of resending a confirmation.
pub enum ResendStepView {
    FetchUser,
    RenewToken,
    SendMail(Seq<char>, Seq<char>, Seq<char>),
    Respond(u16, Json),
}

/// The view of a step of resending a confirmation.
pub open spec fn resend_step_view(s: ResendStep) -> ResendStepView {
    match s {
        ResendStep::FetchUser => ResendStepView::FetchUser,
        ResendStep::RenewToken => ResendStepView::RenewToken,
        ResendStep::SendMail { to, subject, body } => ResendStepView::SendMail(to@, subject@, body@),
        ResendStep::Respond(r) => ResendStepView::Respond(r.status, r.body@),
    }
}

/// The email that asks a user to confirm his address.
pub open spec fn confirm_email_body(email: Seq<char>, link: Seq<char>) -> Seq<char> {
    "Hello "@ + email + ",\n\nPlease confirm your email by clicking the link below:\n"@ + link + "\n"@
}

/// The next step of resending a confirmation, requested by a user with
/// role `admin_role`.
pub open spec fn resend_step(admin_role: Seq<char>, base_url: Seq<char>, token: Seq<char>, facts: ResendFacts) -> ResendStepView {
    if admin_role != "admin"@ {
        ResendStepView::Respond(403, error_body("Only global administrators can resend confirmations."@))
    } else {
        match facts.user {
            None => ResendStepView::FetchUser,
            Some(Err(_)) => ResendStepView::Respond(500, error_body("Database error."@)),
            Some(Ok(None)) => ResendStepView::Respond(404, error_body("User not found."@)),
            Some(Ok(Some(u))) => if u.confirmed {
                ResendStepView::Respond(400, error_body("User is already confirmed."@))
            } else {
                match facts.rows_updated {
                    None => ResendStepView::RenewToken,
                    Some(Err(_)) => ResendStepView::Respond(500, error_body("Database error."@)),
                    Some(Ok(n)) => if n == 0 {
                        ResendStepView::Respond(500, error_body("No rows updated."@))
                    } else {
                        match facts.mail_sent {
                            None => ResendStepView::SendMail(
                                u.email@,
                                "Confirm your email"@,
                                confirm_email_body(u.email@, confirmation_link(base_url, token)),
                            ),
                            Some(false) => ResendStepView::Respond(500, error_body("Token updated but email failed."@)),
                            Some(true) => ResendStepView::Respond(200, success_body()),
                        }
                    },
                }
            },
        }
    }
}

fn respond_resend(status: u16, msg: &str) -> (r: ResendStep)
    ensures
        resend_step_view(r) == ResendStepView::Respond(status, error_body(msg@)),
{
    ResendStep::Respond(error_reply(status, msg))
}

/// The next step of resending a user's confirmation email, requested by a
/// user with role `admin_role`; the link is made of `base_url` and the new
/// `token`.
pub fn resend_confirmation_email(admin_role: &str, base_url: &str, token: &str, facts: &ResendFacts) -> (r: ResendStep)
    ensures
        resend_step_view(r) == resend_step(admin_role@, base_url@, token@, *facts),
{
    if !str_eq(admin_role, "admin") {
        return respond_resend(403, "Only global administrators can resend confirmations.");
    }
    let u = match &facts.user {
        None => {
            return ResendStep::FetchUser;
        },
        Some(Err(_)) => {
            return respond_resend(500, "Database error.");
        },
        Some(Ok(None)) => {
            return respond_resend(404, "User not found.");
        },
        Some(Ok(Some(u))) => u,
    };
    if u.confirmed {
        return respond_resend(400, "User is already confirmed.");
    }
    match &facts.rows_updated {
        None => ResendStep::RenewToken,
        Some(Err(_)) => respond_resend(500, "Database error."),
        Some(Ok(n)) => if *n == 0 {
            respond_resend(500, "No rows updated.")
        } else {
            match &facts.mail_sent {
                None => {
                    let link = concat3(base_url, "/api/confirm/", token);
                    let head = concat3("Hello ", u.email.as_str(), ",\n\nPlease confirm your email by clicking the link below:\n");
                    let body = concat3(head.as_str(), link.as_str(), "\n");
                    ResendStep::SendMail { to: u.email.clone(), subject: "Confirm your email".to_owned(), body }
                },
                Some(false) => respond_resend(500, "Token updated but email failed."),
                Some(true) => ResendStep::Respond(success()),
            }
        },
    }
}

// ---------------------------------------------------------------------------
// Deactivating and reactivating users
// ---------------------------------------------------------------------------

/// The reply to a deactivation (`activate` false) or reactivation, once the
/// update changed `rows` rows (`Err` where it failed); `None` where the
/// requester may not do it.
pub open spec fn activation_reply(admin_role: Seq<char>, activate: bool, rows: Result<u64, ()>) -> (u16, Json) {
    if admin_role != "admin"@ {
        (403, error_body("Only global administrators can perform this action."@))
    } else {
        match rows {
            Ok(n) => if n > 0 {
                (200, success_body())
            } else if activate {
                (400, error_body("User already active or not found."@))
            } else {
                (400, error_body("User already deactivated or not found."@))
            },
            Err(_) => (500, error_body("Database error."@)),
        }
    }
}

/// Whether the requester may deactivate or reactivate users: only a global
/// administrator.
pub fn may_change_activation(admin_role: &str) -> (r: bool)
    ensures
        r == (admin_role@ == "admin"@),
{
    str_eq(admin_role, "admin")
}

/// The reply to deactivating a user: the requester's role, and how many
/// rows the update changed.
pub fn deactivate_user(admin_role: &str, rows: Result<u64, ()>) -> (r: Reply)
    ensures
        (r.status, r.body@) == activation_reply(admin_role@, false, rows),
{
    if !str_eq(admin_role, "admin") {
        return error_reply(403, "Only global administrators can perform this action.");
    }
    match rows {
        Ok(n) => if n > 0 {
            success()
        } else {
            error_reply(400, "User already deactivated or not found.")
        },
        Err(_) => error_reply(500, "Database error."),
    }
}

/// The reply to reactivating a user: the requester's role, and how many
/// rows the update changed.
pub fn reactivate_user(admin_role: &str, rows: Result<u64, ()>) -> (r: Reply)
    ensures
        (r.status, r.body@) == activation_reply(admin_role@, true, rows),
{
    if !str_eq(admin_role, "admin") {
        return error_reply(403, "Only global administrators can perform this action.");
    }
    match rows {
        Ok(n) => if n > 0 {
            success()
        } else {
            error_reply(400, "User already active or not found.")
        },
        Err(_) => error_reply(500, "Database error."),
    }
}

// ---------------------------------------------------------------------------
// Pages of a list
// ---------------------------------------------------------------------------

/// The page a list request asks for.
pub struct PaginationParams {
    pub page: Option<i64>,
    pub limit: Option<i64>,
}

/// The page shown: the number asked for, at least 1.
pub open spec fn page_of(page: Option<i64>) -> int {
    match page {
        Some(p) => if p >= 1 { p as int } else { 1 },
        None => 1,
    }
}

/// The page size: the size asked for (20 where none), between 1 and 100.
pub open spec fn limit_of(limit: Option<i64>) -> int {
    match limit {
        Some(l) => if l < 1 { 1 } else if l > 100 { 100 } else { l as int },
        None => 20,
    }
}

/// The number of pages that `total` items fill, `limit` per page.
pub open spec fn pages_for(total: int, limit: int) -> int {
    (total + limit - 1) / limit
}

/// A page of a list: its number, its size, and how many items precede it.
pub struct PageWindow {
    pub page: i64,
    pub limit: i64,
    pub offset: i64,
}

impl PaginationParams {
    /// Whether the items before the asked page can be counted in an `i64`.
    pub open spec fn offset_fits(self) -> bool {
        (page_of(self.page) - 1) * limit_of(self.limit) <= i64::MAX
    }

    /// Whether the items before the asked page can be counted in an `i64`.
    pub fn fits(&self) -> (r: bool)
        ensures
            r == self.offset_fits(),
    {
        let page: i64 = match self.page {
            Some(p) => if p >= 1 { p } else { 1 },
            None => 1,
        };
        let limit: i64 = match self.limit {
            Some(l) => if l < 1 { 1 } else if l > 100 { 100 } else { l },
            None => 20,
        };
        let before = (page - 1) as u64;
        let fits = before <= (i64::MAX as u64) / (limit as u64);
        proof {
            let b = before as int;
            let l = limit as int;
            if fits {
                assert(b * l <= i64::MAX) by (nonlinear_arith)
                    requires
                        b <= (i64::MAX as int) / l,
                        1 <= l,
                        0 <= b,
                ;
            } else {
                assert(b * l > i64::MAX) by (nonlinear_arith)
                    requires
                        b > (i64::MAX as int) / l,
                        1 <= l,
                ;
            }
        }
        fits
    }

    /// The page shown: the number asked (at least 1), the size asked (20 by
    /// default, between 1 and 100), and the items before it.
    pub fn window(&self) -> (r: PageWindow)
        requires
            self.offset_fits(),
        ensures
            r.page == page_of(self.page),
            r.limit == limit_of(self.limit),
            r.offset == (r.page - 1) * r.limit,
    {
        let page: i64 = match self.page {
            Some(p) => if p >= 1 { p } else { 1 },
            None => 1,
        };
        let limit: i64 = match self.limit {
            Some(l) => if l < 1 { 1 } else if l > 100 { 100 } else { l },
            None => 20,
        };
        proof {
            let b = page - 1;
            assert(0 <= b * limit) by (nonlinear_arith)
                requires
                    0 <= b,
                    1 <= limit,
            ;
        }
        PageWindow { page, limit, offset: (page - 1) * limit }
    }
}

/// The number of pages that `total` items fill, `limit` to a page.
pub fn total_pages(total: i64, limit: i64) -> (r: i64)
    requires
        total >= 0,
        1 <= limit <= 100,
    ensures
        r == pages_for(total as int, limit as int),
{
    let t = total as u64;
    let l = limit as u64;
    let q = t / l;
    let rem = t % l;
    proof {
        assert(t == q * l + rem) by (nonlinear_arith)
            requires
                q == t / l,
                rem == t % l,
                l > 0,
        ;
        assert(q <= t) by (nonlinear_arith)
            requires
                q == t / l,
                l >= 1,
        ;
    }
    proof {
        if rem != 0 {
            assert(q + 1 <= t) by (nonlinear_arith)
                requires
                    t == q * l + rem,
                    1 <= rem < l,
            ;
        }
    }
    let pages = if rem == 0 { q } else { q + 1 };
    proof {
        let ti = total as int;
        let li = limit as int;
        assert(pages == (ti + li - 1) / li) by (nonlinear_arith)
            requires
                ti == q * li + rem,
                0 <= rem < li,
                pages == if rem == 0 { q as int } else { q + 1 },
                li >= 1,
        ;
    }
    pages as i64
}

/// Whether the requester may list all users: only a global administrator;
/// others are answered 403 "You do not have permission to access this
/// resource."
pub fn may_list_users(role: &str) -> (r: bool)
    ensures
        r == (role@ == "admin"@),
{
    str_eq(role, "admin")
}

} // verus!
