//! Pipelines: who may create, change, copy, delete and list them, and what
//! a list request asks the database for.

use vstd::prelude::*;
use crate::json::{Json, JsonValue};
use crate::reply::{Reply, error_body, error_reply, refusal_is};
use crate::pipeline_validation::{validate_stages, stages_valid, failure_message, StagesFailure};
use crate::admin::{PageWindow, PaginationParams, page_of, limit_of};
use crate::text::{trim, trim_str, str_eq, concat3};

verus! {

/// A pipeline to create or the new content of one.
pub struct PipelineInput {
    pub org_id: String,
    pub name: String,
    pub stages: JsonValue,
}

/// A request for a list of pipelines.
pub struct ListQuery {
    pub search: Option<String>,
    pub page: Option<i64>,
    pub limit: Option<i64>,
}

fn check_content(input: &PipelineInput) -> (r: Option<Reply>)
    ensures
        trim(input.name@).len() == 0 ==> refusal_is(r, 400, "Pipeline name cannot be empty."@),
        trim(input.name@).len() > 0 ==> (r is None <==> stages_valid(input.stages@)),
        trim(input.name@).len() > 0 && !stages_valid(input.stages@) ==> (r matches Some(rep) && rep.status == 400),
{
    if trim_str(input.name.as_str()).len() == 0 {
        return Some(error_reply(400, "Pipeline name cannot be empty."));
    }
    match validate_stages(&input.stages) {
        Ok(()) => None,
        Err(e) => {
            let msg = e.message();
            Some(error_reply(400, msg.as_str()))
        },
    }
}

/// The refusal of a request to create a pipeline, if refused: only a
/// global administrator may create one for another organisation; the name
/// must not be blank and the stages must validate.
pub fn create_pipeline(role: &str, user_org: &str, input: &PipelineInput) -> (r: Option<Reply>)
    ensures
        role@ != "admin"@ && input.org_id@ != user_org@ ==> refusal_is(
            r,
            401,
            "You can only create pipelines for your own organization."@,
        ),
        (role@ == "admin"@ || input.org_id@ == user_org@) ==> {
            &&& trim(input.name@).len() == 0 ==> refusal_is(r, 400, "Pipeline name cannot be empty."@)
            &&& trim(input.name@).len() > 0 ==> (r is None <==> stages_valid(input.stages@))
        },
{
    if !str_eq(role, "admin") && !str_eq(input.org_id.as_str(), user_org) {
        return Some(error_reply(401, "You can only create pipelines for your own organization."));
    }
    check_content(input)
}

/// The refusal of a request on a stored pipeline (change, copy, delete),
/// once it was looked up (`Ok(Some(org))` its organisation): 404 where it
/// does not exist, 500 where the lookup failed, 401 where the user is
/// neither a global administrator nor of its organisation.
pub open spec fn stored_pipeline_refusal(role: Seq<char>, user_org: Seq<char>, lookup: Result<Option<Seq<char>>, ()>) -> Option<(u16, Json)> {
    match lookup {
        Err(_) => Some((500, error_body("Failed to fetch pipeline"@))),
        Ok(None) => Some((404, error_body("Pipeline not found"@))),
        Ok(Some(org)) => if role != "admin"@ && org != user_org {
            Some((401, error_body("Unauthorized"@)))
        } else {
            None
        },
    }
}

/// The text of a looked-up organisation.
pub open spec fn lookup_text(l: Result<Option<String>, ()>) -> Result<Option<Seq<char>>, ()> {
    match l {
        Ok(Some(s)) => Ok(Some(s@)),
        Ok(None) => Ok(None),
        Err(_) => Err(()),
    }
}

/// Checks a request on a stored pipeline (to delete or copy it).
pub fn stored_pipeline_check(role: &str, user_org: &str, lookup: &Result<Option<String>, ()>) -> (r: Option<Reply>)
    ensures
        match r {
            Some(rep) => stored_pipeline_refusal(role@, user_org@, lookup_text(*lookup)) == Some((rep.status, rep.body@)),
            None => stored_pipeline_refusal(role@, user_org@, lookup_text(*lookup)) is None,
        },
{
    match lookup {
        Err(_) => Some(error_reply(500, "Failed to fetch pipeline")),
        Ok(None) => Some(error_reply(404, "Pipeline not found")),
        Ok(Some(org)) => if !str_eq(role, "admin") && !str_eq(org.as_str(), user_org) {
            Some(error_reply(401, "Unauthorized"))
        } else {
            None
        },
    }
}

/// The refusal of a change of a stored pipeline, if refused: the checks on
/// the stored pipeline, then its organisation cannot change, then the name
/// and stages.
pub fn update_pipeline(role: &str, user_org: &str, lookup: &Result<Option<String>, ()>, input: &PipelineInput) -> (r: Option<Reply>)
    ensures
        stored_pipeline_refusal(role@, user_org@, lookup_text(*lookup)) matches Some(x) ==> (r matches Some(rep) && (rep.status, rep.body@) == x),
        stored_pipeline_refusal(role@, user_org@, lookup_text(*lookup)) is None ==> {
            let org = lookup_text(*lookup)->Ok_0->Some_0;
            &&& input.org_id@ != org ==> refusal_is(r, 400, "Organization ID cannot be changed"@)
            &&& input.org_id@ == org ==> {
                &&& trim(input.name@).len() == 0 ==> refusal_is(r, 400, "Pipeline name cannot be empty."@)
                &&& trim(input.name@).len() > 0 ==> (r is None <==> stages_valid(input.stages@))
            }
        },
{
    match stored_pipeline_check(role, user_org, lookup) {
        Some(rep) => {
            return Some(rep);
        },
        None => {},
    }
    let org = match lookup {
        Ok(Some(org)) => org,
        _ => {
            return Some(error_reply(500, "Failed to fetch pipeline"));
        },
    };
    if !str_eq(input.org_id.as_str(), org.as_str()) {
        return Some(error_reply(400, "Organization ID cannot be changed"));
    }
    check_content(input)
}

/// The name of a copy of a pipeline.
pub fn clone_name(name: &str) -> (r: String)
    ensures
        r@ == name@ + " (copy)"@,
{
    let mut v = crate::text::chars_of(name);
    crate::text::append_chars(&mut v, &crate::text::chars_of(" (copy)"));
    crate::text::string_of(&v)
}

/// What a list request asks of the database.
pub struct ListPlan {
    /// The `ILIKE` pattern of a search: the search text between `%` signs.
    pub pattern: Option<String>,
    /// Whether the whole list may come from, and go to, the cache: a request
    /// without search, page or size.
    pub cacheable: bool,
    pub window: PageWindow,
}

impl ListQuery {
    /// Whether the items before the asked page can be counted in an `i64`.
    pub open spec fn offset_fits(self) -> bool {
        (page_of(self.page) - 1) * limit_of(self.limit) <= i64::MAX
    }

    /// What a request to list organisation `org`'s pipelines asks of the
    /// database; `Err` 401 "Unauthorized" where the user is not of `org`.
    pub fn plan(&self, org: &str, user_org: &str) -> (r: Result<ListPlan, Reply>)
        requires
            self.offset_fits(),
        ensures
            org@ != user_org@ ==> (r matches Err(rep) && rep.status == 401 && rep.body@ == error_body("Unauthorized"@)),
            org@ == user_org@ ==> (r matches Ok(p) && {
                &&& p.cacheable == (self.search is None && self.page is None && self.limit is None)
                &&& match self.search {
                    Some(s) => p.pattern matches Some(pat) && pat@ == "%"@ + s@ + "%"@,
                    None => p.pattern is None,
                }
                &&& p.window.page == page_of(self.page)
                &&& p.window.limit == limit_of(self.limit)
                &&& p.window.offset == (p.window.page - 1) * p.window.limit
            }),
    {
        if !str_eq(org, user_org) {
            return Err(error_reply(401, "Unauthorized"));
        }
        let pattern = match &self.search {
            Some(s) => Some(concat3("%", s.as_str(), "%")),
            None => None,
        };
        let cacheable = self.search.is_none() && self.page.is_none() && self.limit.is_none();
        let params = PaginationParams { page: self.page, limit: self.limit };
        let window = params.window();
        Ok(ListPlan { pattern, cacheable, window })
    }
}

} // verus!
