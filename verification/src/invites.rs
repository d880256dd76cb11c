//! Invitations: an administrator creates an unconfirmed account with a
//! throw-away password and mails the new user a confirmation link.

use vstd::prelude::*;
use crate::json::{Json, JsonValue, json_from_str, members_view, lemma_members_view};
use crate::reply::{Reply, error_body, error_reply};
use crate::org::OrgInviteUserPayload;
use crate::text::{lowercase, trim, str_eq, concat3, trim_lower, chars_of};

verus! {

/// An invitation by a global administrator.
pub struct InviteUserPayload {
    pub email: String,
    pub org_id: String,
    pub role: Option<String>,
}

/// How creating the invited user ended.
pub enum CreateInvited {
    /// Created, with its id and confirmation token.
    Created { user_id: String, token: String },
    /// The email is taken (a unique constraint on the email).
    EmailTaken,
    /// Another database error.
    DatabaseError,
    /// Another error.
    OtherError,
}

/// What was found out so far during an invitation.
pub struct InviteFacts {
    /// The organisation of the user that has the email already, if any.
    pub existing: Option<Result<Option<String>, ()>>,
    /// Whether the throw-away password was hashed.
    pub hashed: Option<bool>,
    pub created: Option<CreateInvited>,
    /// The inviting organisation's name (its query may fail).
    pub org_name: Option<Result<String, ()>>,
    pub mail_sent: Option<bool>,
}

/// The next step of an invitation.
pub enum InviteStep {
    /// Look up a user with this email.
    CheckEmail(String),
    /// Make a random password and hash it.
    HashPassword,
    /// Create the user with this email, organisation and role, confirmed
    /// or not (`confirmed`), with a fresh confirmation token.
    CreateUser { email: String, org_id: String, role: String, confirmed: bool },
    FetchOrgName,
    SendMail { to: String, subject: String, body: String },
    Respond(Reply),
}

/// The mathematical form of a step of an invitation.
pub enum InviteStepView {
    CheckEmail(Seq<char>),
    HashPassword,
    CreateUser(Seq<char>, Seq<char>, Seq<char>, bool),
    FetchOrgName,
    SendMail(Seq<char>, Seq<char>, Seq<char>),
    Respond(u16, Json),
}

/// The view of a step of an invitation.
pub open spec fn invite_step_view(s: InviteStep) -> InviteStepView {
    match s {
        InviteStep::CheckEmail(e) => InviteStepView::CheckEmail(e@),
        InviteStep::HashPassword => InviteStepView::HashPassword,
        InviteStep::CreateUser { email, org_id, role, confirmed } => InviteStepView::CreateUser(email@, org_id@, role@, confirmed),
        InviteStep::FetchOrgName => InviteStepView::FetchOrgName,
        InviteStep::SendMail { to, subject, body } => InviteStepView::SendMail(to@, subject@, body@),
        InviteStep::Respond(r) => InviteStepView::Respond(r.status, r.body@),
    }
}

/// The body of a successful invitation, with its message where it has one.
pub open spec fn invited_body(message: Option<Seq<char>>, user_id: Seq<char>) -> Json {
    match message {
        Some(m) => Json::Object(
            seq![("success"@, Json::Bool(true)), ("message"@, Json::Str(m)), ("user_id"@, Json::Str(user_id))],
        ),
        None => Json::Object(seq![("success"@, Json::Bool(true)), ("user_id"@, Json::Str(user_id))]),
    }
}

fn invited_reply(status: u16, message: Option<&str>, user_id: &str) -> (r: Reply)
    ensures
        r.status == status,
        r.body@ == invited_body(match message { Some(m) => Some(m@), None => None }, user_id@),
{
    let mut members: Vec<(String, JsonValue)> = Vec::new();
    members.push(("success".to_owned(), JsonValue::Bool(true)));
    match message {
        Some(m) => members.push(("message".to_owned(), json_from_str(m))),
        None => {},
    }
    members.push(("user_id".to_owned(), json_from_str(user_id)));
    proof {
        lemma_members_view(members@);
    }
    assert(members_view(members@) =~= invited_body(match message { Some(m) => Some(m@), None => None }, user_id@)->Object_0);
    Reply { status, body: JsonValue::Object(members) }
}

/// Whether a normalised email is acceptable: not empty, with an `@`.
pub open spec fn email_ok(e: Seq<char>) -> bool {
    e.len() > 0 && exists|i: int| 0 <= i < e.len() && e[i] == '@'
}

fn email_ok_exec(e: &str) -> (r: bool)
    ensures
        r == email_ok(e@),
{
    let v = chars_of(e);
    let n = v.len();
    if n == 0 {
        return false;
    }
    for i in 0..n
        invariant
            n == v@.len(),
            v@ == e@,
            forall|k: int| 0 <= k < i ==> v@[k] != '@',
    {
        if v[i] == '@' {
            return true;
        }
    }
    false
}

/// The email of the organisation invitation.
pub open spec fn org_invite_body(email: Seq<char>, org: Seq<char>, link: Seq<char>) -> Seq<char> {
    "Hello "@ + email
        + ",\n\nYou have been invited by an administrator to join the organization '"@ + org
        + "' on crPipeline.\nPlease confirm your email address and set up your account by clicking the link below:\n"@
        + link
        + "\n\nIf you were not expecting this invitation, you can safely ignore this email.\n\nThank you,\nThe crPipeline Team"@
}

/// The next step of an invitation by an organisation administrator
/// (`role`, `admin_org`) of the user with email `email`; the confirmation
/// link starts with `base_url`.
pub open spec fn org_invite_step(role: Seq<char>, admin_org: Seq<char>, email: Seq<char>, base_url: Seq<char>, facts: InviteFacts) -> InviteStepView {
    let target = lowercase(trim(email));
    if role != "org_admin"@ {
        InviteStepView::Respond(403, error_body("Only organization administrators can invite users to their organization."@))
    } else if !email_ok(target) {
        InviteStepView::Respond(400, error_body("Invalid email address provided."@))
    } else {
        match facts.existing {
            None => InviteStepView::CheckEmail(target),
            Some(Err(_)) => InviteStepView::Respond(500, error_body("Error checking user existence."@)),
            Some(Ok(Some(org))) => if org@ == admin_org {
                InviteStepView::Respond(409, error_body("This user is already a member of your organization."@))
            } else {
                InviteStepView::Respond(
                    409,
                    error_body("This email address is already associated with an account in a different organization. Please contact a global administrator if you need to move this user."@),
                )
            },
            Some(Ok(None)) => match facts.hashed {
                None => InviteStepView::HashPassword,
                Some(false) => InviteStepView::Respond(
                    500,
                    error_body("Failed to process invitation due to a security configuration issue."@),
                ),
                Some(true) => match facts.created {
                    None => InviteStepView::CreateUser(target, admin_org, "user"@, false),
                    Some(CreateInvited::EmailTaken) => InviteStepView::Respond(409, error_body("This email address is already registered."@)),
                    Some(CreateInvited::DatabaseError) => InviteStepView::Respond(
                        500,
                        error_body("Failed to create user account for invitation."@),
                    ),
                    Some(CreateInvited::OtherError) => InviteStepView::Respond(
                        500,
                        error_body("An unexpected error occurred during user invitation."@),
                    ),
                    Some(CreateInvited::Created { user_id, token }) => match facts.org_name {
                        None => InviteStepView::FetchOrgName,
                        Some(n) => {
                            let org = match n {
                                Ok(s) => s@,
                                Err(_) => "Your Organization"@,
                            };
                            match facts.mail_sent {
                                None => InviteStepView::SendMail(
                                    target,
                                    "You're invited to join "@ + org + " on crPipeline"@,
                                    org_invite_body(target, org, base_url + "/api/confirm/"@ + token@),
                                ),
                                Some(false) => InviteStepView::Respond(
                                    202,
                                    invited_body(
                                        Some("User account created, but the invitation email could not be sent. Please ask a global administrator to resend the confirmation or contact support."@),
                                        user_id@,
                                    ),
                                ),
                                Some(true) => InviteStepView::Respond(
                                    200,
                                    invited_body(
                                        Some("Invitation sent successfully. The user needs to confirm their email address."@),
                                        user_id@,
                                    ),
                                ),
                            }
                        },
                    },
                },
            },
        }
    }
}

fn refuse(status: u16, msg: &str) -> (r: InviteStep)
    ensures
        invite_step_view(r) == InviteStepView::Respond(status, error_body(msg@)),
{
    InviteStep::Respond(error_reply(status, msg))
}

/// The next step of inviting a user to the organisation of the signed-in
/// organisation administrator (`role`, `admin_org`), given what was found
/// out so far; the confirmation link starts with `base_url`.
pub fn invite_user_to_organization(
    role: &str,
    admin_org: &str,
    payload: &OrgInviteUserPayload,
    base_url: &str,
    facts: &InviteFacts,
) -> (r: InviteStep)
    ensures
        invite_step_view(r) == org_invite_step(role@, admin_org@, payload.email@, base_url@, *facts),
{
    if !str_eq(role, "org_admin") {
        return refuse(403, "Only organization administrators can invite users to their organization.");
    }
    let target = trim_lower(payload.email.as_str());
    if !email_ok_exec(target.as_str()) {
        return refuse(400, "Invalid email address provided.");
    }
    match &facts.existing {
        None => {
            return InviteStep::CheckEmail(target);
        },
        Some(Err(_)) => {
            return refuse(500, "Error checking user existence.");
        },
        Some(Ok(Some(org))) => {
            if str_eq(org.as_str(), admin_org) {
                return refuse(409, "This user is already a member of your organization.");
            } else {
                return refuse(
                    409,
                    "This email address is already associated with an account in a different organization. Please contact a global administrator if you need to move this user.",
                );
            }
        },
        Some(Ok(None)) => {},
    }
    match facts.hashed {
        None => {
            return InviteStep::HashPassword;
        },
        Some(false) => {
            return refuse(500, "Failed to process invitation due to a security configuration issue.");
        },
        Some(true) => {},
    }
    let (user_id, token) = match &facts.created {
        None => {
            return InviteStep::CreateUser { email: target, org_id: admin_org.to_owned(), role: "user".to_owned(), confirmed: false };
        },
        Some(CreateInvited::EmailTaken) => {
            return refuse(409, "This email address is already registered.");
        },
        Some(CreateInvited::DatabaseError) => {
            return refuse(500, "Failed to create user account for invitation.");
        },
        Some(CreateInvited::OtherError) => {
            return refuse(500, "An unexpected error occurred during user invitation.");
        },
        Some(CreateInvited::Created { user_id, token }) => (user_id, token),
    };
    let org = match &facts.org_name {
        None => {
            return InviteStep::FetchOrgName;
        },
        Some(Ok(s)) => s.clone(),
        Some(Err(_)) => "Your Organization".to_owned(),
    };
    match facts.mail_sent {
        None => {
            let subject = concat3("You're invited to join ", org.as_str(), " on crPipeline");
            let link = concat3(base_url, "/api/confirm/", token.as_str());
            let a = concat3(
                "Hello ",
                target.as_str(),
                ",\n\nYou have been invited by an administrator to join the organization '",
            );
            let b = concat3(
                a.as_str(),
                org.as_str(),
                "' on crPipeline.\nPlease confirm your email address and set up your account by clicking the link below:\n",
            );
            let body = concat3(
                b.as_str(),
                link.as_str(),
                "\n\nIf you were not expecting this invitation, you can safely ignore this email.\n\nThank you,\nThe crPipeline Team",
            );
            InviteStep::SendMail { to: target, subject, body }
        },
        Some(false) => InviteStep::Respond(
            invited_reply(
                202,
                Some("User account created, but the invitation email could not be sent. Please ask a global administrator to resend the confirmation or contact support."),
                user_id.as_str(),
            ),
        ),
        Some(true) => InviteStep::Respond(
            invited_reply(
                200,
                Some("Invitation sent successfully. The user needs to confirm their email address."),
                user_id.as_str(),
            ),
        ),
    }
}

/// The next step of an invitation by a global administrator (`role`) of
/// the user with the given email, organisation and role ("user" where
/// none); the confirmation link starts with `base_url`.
pub open spec fn admin_invite_step(
    role: Seq<char>,
    email: Seq<char>,
    org_id: Seq<char>,
    new_role: Option<Seq<char>>,
    base_url: Seq<char>,
    facts: InviteFacts,
) -> InviteStepView {
    let target = lowercase(trim(email));
    if role != "admin"@ {
        InviteStepView::Respond(403, error_body("Only global administrators can invite users."@))
    } else if !email_ok(target) {
        InviteStepView::Respond(400, error_body("Invalid email address."@))
    } else {
        match facts.existing {
            None => InviteStepView::CheckEmail(target),
            Some(Err(_)) => InviteStepView::Respond(500, error_body("Database error checking email."@)),
            Some(Ok(Some(_))) => InviteStepView::Respond(409, error_body("A user with this email already exists."@)),
            Some(Ok(None)) => match facts.hashed {
                None => InviteStepView::HashPassword,
                Some(false) => InviteStepView::Respond(500, error_body("Failed to process invitation."@)),
                Some(true) => match facts.created {
                    None => InviteStepView::CreateUser(
                        target,
                        org_id,
                        match new_role {
                            Some(r) => r,
                            None => "user"@,
                        },
                        false,
                    ),
                    Some(CreateInvited::Created { user_id, token }) => match facts.mail_sent {
                        None => InviteStepView::SendMail(
                            target,
                            "You're invited to crPipeline"@,
                            "Hello,\n\nYou have been invited to join crPipeline. Click the link below to confirm your account:\n"@
                                + (base_url + "/api/confirm/"@ + token@) + "\n"@,
                        ),
                        Some(false) => InviteStepView::Respond(
                            202,
                            invited_body(Some("User created but email could not be sent."@), user_id@),
                        ),
                        Some(true) => InviteStepView::Respond(200, invited_body(None, user_id@)),
                    },
                    Some(_) => InviteStepView::Respond(500, error_body("Failed to create user."@)),
                },
            },
        }
    }
}

/// The next step of inviting a user, requested by a user with role `role`
/// (only global administrators may), given what was found out so far; the
/// confirmation link starts with `base_url`.
pub fn invite_user(role: &str, payload: &InviteUserPayload, base_url: &str, facts: &InviteFacts) -> (r: InviteStep)
    ensures
        invite_step_view(r) == admin_invite_step(
            role@,
            payload.email@,
            payload.org_id@,
            match payload.role { Some(x) => Some(x@), None => None },
            base_url@,
            *facts,
        ),
{
    if !str_eq(role, "admin") {
        return refuse(403, "Only global administrators can invite users.");
    }
    let target = trim_lower(payload.email.as_str());
    if !email_ok_exec(target.as_str()) {
        return refuse(400, "Invalid email address.");
    }
    match &facts.existing {
        None => {
            return InviteStep::CheckEmail(target);
        },
        Some(Err(_)) => {
            return refuse(500, "Database error checking email.");
        },
        Some(Ok(Some(_))) => {
            return refuse(409, "A user with this email already exists.");
        },
        Some(Ok(None)) => {},
    }
    match facts.hashed {
        None => {
            return InviteStep::HashPassword;
        },
        Some(false) => {
            return refuse(500, "Failed to process invitation.");
        },
        Some(true) => {},
    }
    match &facts.created {
        None => {
            let new_role = match &payload.role {
                Some(x) => x.clone(),
                None => "user".to_owned(),
            };
            InviteStep::CreateUser { email: target, org_id: payload.org_id.clone(), role: new_role, confirmed: false }
        },
        Some(CreateInvited::Created { user_id, token }) => match facts.mail_sent {
            None => {
                let link = concat3(base_url, "/api/confirm/", token.as_str());
                let body = concat3(
                    "Hello,\n\nYou have been invited to join crPipeline. Click the link below to confirm your account:\n",
                    link.as_str(),
                    "\n",
                );
                InviteStep::SendMail { to: target, subject: "You're invited to crPipeline".to_owned(), body }
            },
            Some(false) => InviteStep::Respond(
                invited_reply(202, Some("User created but email could not be sent."), user_id.as_str()),
            ),
            Some(true) => InviteStep::Respond(invited_reply(200, None, user_id.as_str())),
        },
        Some(_) => refuse(500, "Failed to create user."),
    }
}

/// Whether `part` occurs in `text` as a run of consecutive characters.
pub open spec fn holds_text(text: Seq<char>, part: Seq<char>) -> bool {
    exists|k: int| 0 <= k && k + part.len() <= text.len() && #[trigger] text.subrange(k, k + part.len()) == part
}

proof fn lemma_holds_middle(a: Seq<char>, part: Seq<char>, b: Seq<char>)
    ensures
        holds_text(a + part + b, part),
{
    let text = a + part + b;
    assert(text.subrange(a.len() as int, (a.len() + part.len()) as int) =~= part);
}

/// An invitation mail lets the invited user confirm: whenever an
/// invitation (by an organisation administrator or by a global
/// administrator) sends its mail, the user was created, the mail goes to
/// the normalised email, and its body holds the link `base_url` +
/// `/api/confirm/` + the created user's confirmation token.
pub proof fn lemma_invitation_mail_links_the_token(
    role: Seq<char>,
    admin_org: Seq<char>,
    email: Seq<char>,
    org_id: Seq<char>,
    new_role: Option<Seq<char>>,
    base_url: Seq<char>,
    facts: InviteFacts,
)
    ensures
        org_invite_step(role, admin_org, email, base_url, facts) matches InviteStepView::SendMail(to, _, body)
            ==> facts.created matches Some(CreateInvited::Created { token, .. })
                && to == lowercase(trim(email))
                && holds_text(body, base_url + "/api/confirm/"@ + token@),
        admin_invite_step(role, email, org_id, new_role, base_url, facts) matches InviteStepView::SendMail(to, _, body)
            ==> facts.created matches Some(CreateInvited::Created { token, .. })
                && to == lowercase(trim(email))
                && holds_text(body, base_url + "/api/confirm/"@ + token@),
{
    if let Some(CreateInvited::Created { user_id, token }) = facts.created {
        let link = base_url + "/api/confirm/"@ + token@;
        let target = lowercase(trim(email));
        let org = match facts.org_name {
            Some(Ok(s)) => s@,
            _ => "Your Organization"@,
        };
        let pre = "Hello "@ + target
            + ",\n\nYou have been invited by an administrator to join the organization '"@ + org
            + "' on crPipeline.\nPlease confirm your email address and set up your account by clicking the link below:\n"@;
        let post = "\n\nIf you were not expecting this invitation, you can safely ignore this email.\n\nThank you,\nThe crPipeline Team"@;
        assert(org_invite_body(target, org, link) == pre + link + post);
        lemma_holds_middle(pre, link, post);
        lemma_holds_middle(
            "Hello,\n\nYou have been invited to join crPipeline. Click the link below to confirm your account:\n"@,
            link,
            "\n"@,
        );
    }
}

} // verus!
