//! An organisation's settings: who may read and change them, and how the
//! stored API keys are masked on the way out and kept on the way back in.

use vstd::prelude::*;
use crate::json::Json;
use crate::reply::{Reply, error_body, error_reply, refusal_is};
use crate::text::str_eq;

verus! {

/// What a stored API key is shown as.
pub open spec fn mask_text() -> Seq<char> {
    "********"@
}

/// The text of an optional key.
pub open spec fn key_text(k: Option<String>) -> Option<Seq<char>> {
    match k {
        Some(s) => Some(s@),
        None => None,
    }
}

/// An API key as it is shown: a non-empty key as "********", an empty or
/// missing one as it is.
pub open spec fn masked(k: Option<Seq<char>>) -> Option<Seq<char>> {
    match k {
        Some(s) => if s.len() > 0 {
            Some(mask_text())
        } else {
            Some(s)
        },
        None => None,
    }
}

/// The key stored by an update: the stored key where the update sends the
/// mask back unchanged, else the key sent.
pub open spec fn preserved(incoming: Option<Seq<char>>, current: Option<Seq<char>>) -> Option<Seq<char>> {
    if incoming == Some(mask_text()) {
        current
    } else {
        incoming
    }
}

/// An API key as it is shown to the browser.
pub fn mask_key(key: Option<String>) -> (r: Option<String>)
    ensures
        key_text(r) == masked(key_text(key)),
{
    match key {
        Some(s) => if s.as_str().is_empty() {
            Some(s)
        } else {
            Some("********".to_owned())
        },
        None => None,
    }
}

/// The API key an update stores: the current one where the mask came back.
pub fn preserve_key(incoming: Option<String>, current: Option<String>) -> (r: Option<String>)
    ensures
        key_text(r) == preserved(key_text(incoming), key_text(current)),
{
    let unchanged = match &incoming {
        Some(s) => str_eq(s.as_str(), "********"),
        None => false,
    };
    if unchanged {
        current
    } else {
        incoming
    }
}

/// Sending the shown settings back changes no key: for any stored key,
/// keeping it against its masked form gives the stored key again.
pub proof fn lemma_mask_round_trip(current: Option<Seq<char>>)
    ensures
        preserved(masked(current), current) == current,
{
}

/// A shown key reveals nothing of a non-empty stored key: it is missing,
/// empty, or the mask.
pub proof fn lemma_mask_hides_keys(k: Option<Seq<char>>)
    ensures
        masked(k) is None || masked(k) == Some(Seq::<char>::empty()) || masked(k) == Some(mask_text()),
{
    if let Some(s) = k {
        if s.len() == 0 {
            assert(s =~= Seq::<char>::empty());
        }
    }
}

/// Who may read or change an organisation's settings: a global
/// administrator, or a member of that organisation.
pub open spec fn settings_allowed(role: Seq<char>, user_org: Seq<char>, org: Seq<char>) -> bool {
    role == "admin"@ || org == user_org
}

/// Whether the signed-in user may read or change an organisation's
/// settings; otherwise the request is answered 401.
pub fn may_access_settings(role: &str, user_org: &str, org: &str) -> (r: bool)
    ensures
        r == settings_allowed(role@, user_org@, org@),
{
    str_eq(role, "admin") || str_eq(org, user_org)
}

/// How reading stored settings ended.
pub enum SettingsLookup {
    Found,
    NotFound,
    Failed,
}

/// The refusal of a request to read settings, if refused: 401 where the
/// user may not, 404 where there are none, 500 where the query failed.
pub fn get_settings_refusal(role: &str, user_org: &str, org: &str, lookup: &SettingsLookup) -> (r: Option<Reply>)
    ensures
        !settings_allowed(role@, user_org@, org@) ==> refusal_is(r, 401, "You are not authorized to view these settings."@),
        settings_allowed(role@, user_org@, org@) ==> match lookup {
            SettingsLookup::Found => r is None,
            SettingsLookup::NotFound => refusal_is(r, 404, "Settings not found for this organization."@),
            SettingsLookup::Failed => refusal_is(r, 500, "Failed to retrieve settings."@),
        },
{
    if !may_access_settings(role, user_org, org) {
        return Some(error_reply(401, "You are not authorized to view these settings."));
    }
    match lookup {
        SettingsLookup::Found => None,
        SettingsLookup::NotFound => Some(error_reply(404, "Settings not found for this organization.")),
        SettingsLookup::Failed => Some(error_reply(500, "Failed to retrieve settings.")),
    }
}

/// The refusal of a request to change settings, if refused: 401 where the
/// user may not, 404 where there are none to change, 500 where they could
/// not be read.
pub fn update_settings_refusal(role: &str, user_org: &str, org: &str, lookup: &SettingsLookup) -> (r: Option<Reply>)
    ensures
        !settings_allowed(role@, user_org@, org@) ==> refusal_is(r, 401, "You are not authorized to update these settings."@),
        settings_allowed(role@, user_org@, org@) ==> match lookup {
            SettingsLookup::Found => r is None,
            SettingsLookup::NotFound => refusal_is(r, 404, "Settings for the specified organization not found. Cannot update."@),
            SettingsLookup::Failed => refusal_is(r, 500, "Could not retrieve current settings to safely update API keys."@),
        },
{
    if !may_access_settings(role, user_org, org) {
        return Some(error_reply(401, "You are not authorized to update these settings."));
    }
    match lookup {
        SettingsLookup::Found => None,
        SettingsLookup::NotFound => Some(error_reply(404, "Settings for the specified organization not found. Cannot update.")),
        SettingsLookup::Failed => Some(error_reply(500, "Could not retrieve current settings to safely update API keys.")),
    }
}

} // verus!
