//! Analysis jobs as the API shows them: a job's details and the download
//! links of its stage outputs, only to users of the job's organisation.

use vstd::prelude::*;
use crate::json::{Json, JsonValue, json_from_str, members_view, lemma_members_view};
use crate::reply::{Reply, error_body, error_reply};
use crate::text::str_eq;

verus! {

/// What the database answered so far while a job's details are gathered.
pub struct JobDetailsFacts {
    /// The job's organisation, if the job exists.
    pub job_org: Option<Result<Option<String>, ()>>,
    pub document: Option<Result<(), ()>>,
    pub pipeline: Option<Result<(), ()>>,
    /// Whether the job's stage outputs could be read (where not, the list
    /// is empty).
    pub outputs: Option<bool>,
}

/// The next step of gathering a job's details.
pub enum JobDetailsStep {
    FetchJob,
    FetchDocument,
    FetchPipeline,
    FetchOutputs,
    /// Answer 200 with the details; `with_outputs` false shows an empty
    /// list of outputs.
    Details { with_outputs: bool },
    Respond(Reply),
}

/// The mathematical form of a step of gathering a job's details.
pub enum JobDetailsStepView {
    FetchJob,
    FetchDocument,
    FetchPipeline,
    FetchOutputs,
    Details(bool),
    Respond(u16, Json),
}

/// The view of a step of gathering a job's details.
pub open spec fn details_step_view(s: JobDetailsStep) -> JobDetailsStepView {
    match s {
        JobDetailsStep::FetchJob => JobDetailsStepView::FetchJob,
        JobDetailsStep::FetchDocument => JobDetailsStepView::FetchDocument,
        JobDetailsStep::FetchPipeline => JobDetailsStepView::FetchPipeline,
        JobDetailsStep::FetchOutputs => JobDetailsStepView::FetchOutputs,
        JobDetailsStep::Details { with_outputs } => JobDetailsStepView::Details(with_outputs),
        JobDetailsStep::Respond(r) => JobDetailsStepView::Respond(r.status, r.body@),
    }
}

/// The next step of gathering a job's details for a user of organisation
/// `user_org`.
pub open spec fn details_step(user_org: Seq<char>, facts: JobDetailsFacts) -> JobDetailsStepView {
    match facts.job_org {
        None => JobDetailsStepView::FetchJob,
        Some(Err(_)) => JobDetailsStepView::Respond(500, error_body("Failed to fetch job details"@)),
        Some(Ok(None)) => JobDetailsStepView::Respond(404, error_body("Job not found"@)),
        Some(Ok(Some(org))) => if org@ != user_org {
            JobDetailsStepView::Respond(401, error_body("You are not authorized to view this job"@))
        } else {
            match facts.document {
                None => JobDetailsStepView::FetchDocument,
                Some(Err(_)) => JobDetailsStepView::Respond(500, error_body("Failed to fetch associated document"@)),
                Some(Ok(())) => match facts.pipeline {
                    None => JobDetailsStepView::FetchPipeline,
                    Some(Err(_)) => JobDetailsStepView::Respond(500, error_body("Failed to fetch associated pipeline"@)),
                    Some(Ok(())) => match facts.outputs {
                        None => JobDetailsStepView::FetchOutputs,
                        Some(ok) => JobDetailsStepView::Details(ok),
                    },
                },
            }
        },
    }
}

/// The next step of gathering a job's details for a user of organisation
/// `user_org`, given what the database answered so far.
pub fn get_job_details(user_org: &str, facts: &JobDetailsFacts) -> (r: JobDetailsStep)
    ensures
        details_step_view(r) == details_step(user_org@, *facts),
{
    match &facts.job_org {
        None => JobDetailsStep::FetchJob,
        Some(Err(_)) => JobDetailsStep::Respond(error_reply(500, "Failed to fetch job details")),
        Some(Ok(None)) => JobDetailsStep::Respond(error_reply(404, "Job not found")),
        Some(Ok(Some(org))) => if !str_eq(org.as_str(), user_org) {
            JobDetailsStep::Respond(error_reply(401, "You are not authorized to view this job"))
        } else {
            match &facts.document {
                None => JobDetailsStep::FetchDocument,
                Some(Err(_)) => JobDetailsStep::Respond(error_reply(500, "Failed to fetch associated document")),
                Some(Ok(())) => match &facts.pipeline {
                    None => JobDetailsStep::FetchPipeline,
                    Some(Err(_)) => JobDetailsStep::Respond(error_reply(500, "Failed to fetch associated pipeline")),
                    Some(Ok(())) => match facts.outputs {
                        None => JobDetailsStep::FetchOutputs,
                        Some(ok) => JobDetailsStep::Details { with_outputs: ok },
                    },
                },
            }
        },
    }
}

/// What the database and the storage answered so far while a download
/// link of a stage output is made.
pub struct OutputUrlFacts {
    /// The output's bucket and key, if it exists.
    pub output: Option<Result<Option<(String, String)>, ()>>,
    /// The organisation of the output's job.
    pub job_org: Option<Result<String, ()>>,
    /// The presigned link (valid for an hour); `Err(true)` where its
    /// configuration failed, `Err(false)` where presigning failed.
    pub url: Option<Result<String, bool>>,
}

/// The next step of making a download link of a stage output.
pub enum OutputUrlStep {
    FetchOutput,
    FetchJobOrg,
    /// Presign a download of this object (bucket, key) for an hour.
    Presign { bucket: String, key: String },
    Respond(Reply),
}

/// The mathematical form of a step of making a download link.
pub enum OutputUrlStepView {
    FetchOutput,
    FetchJobOrg,
    Presign(Seq<char>, Seq<char>),
    Respond(u16, Json),
}

/// The view of a step of making a download link.
pub open spec fn url_step_view(s: OutputUrlStep) -> OutputUrlStepView {
    match s {
        OutputUrlStep::FetchOutput => OutputUrlStepView::FetchOutput,
        OutputUrlStep::FetchJobOrg => OutputUrlStepView::FetchJobOrg,
        OutputUrlStep::Presign { bucket, key } => OutputUrlStepView::Presign(bucket@, key@),
        OutputUrlStep::Respond(r) => OutputUrlStepView::Respond(r.status, r.body@),
    }
}

/// The body `{"url": url}`.
pub open spec fn url_body(url: Seq<char>) -> Json {
    Json::Object(seq![("url"@, Json::Str(url))])
}

/// The next step of making a download link of a stage output for a user
/// of organisation `user_org`.
pub open spec fn url_step(user_org: Seq<char>, facts: OutputUrlFacts) -> OutputUrlStepView {
    match facts.output {
        None => OutputUrlStepView::FetchOutput,
        Some(Err(_)) => OutputUrlStepView::Respond(500, error_body("Failed to retrieve stage output details"@)),
        Some(Ok(None)) => OutputUrlStepView::Respond(404, error_body("Stage output not found"@)),
        Some(Ok(Some(loc))) => match facts.job_org {
            None => OutputUrlStepView::FetchJobOrg,
            Some(Err(_)) => OutputUrlStepView::Respond(500, error_body("Failed to verify job association"@)),
            Some(Ok(org)) => if org@ != user_org {
                OutputUrlStepView::Respond(401, error_body("You are not authorized to access this output."@))
            } else {
                match facts.url {
                    None => OutputUrlStepView::Presign(loc.0@, loc.1@),
                    Some(Ok(u)) => OutputUrlStepView::Respond(200, url_body(u@)),
                    Some(Err(true)) => OutputUrlStepView::Respond(
                        500,
                        error_body("Could not generate download URL (config error)"@),
                    ),
                    Some(Err(false)) => OutputUrlStepView::Respond(
                        500,
                        error_body("Could not generate download URL (presign error)"@),
                    ),
                }
            },
        },
    }
}

fn url_reply(url: &str) -> (r: Reply)
    ensures
        r.status == 200,
        r.body@ == url_body(url@),
{
    let mut members: Vec<(String, JsonValue)> = Vec::new();
    members.push(("url".to_owned(), json_from_str(url)));
    proof {
        lemma_members_view(members@);
    }
    assert(members_view(members@) =~= seq![("url"@, Json::Str(url@))]);
    Reply { status: 200, body: JsonValue::Object(members) }
}

/// The next step of making a download link of a stage output for a user of
/// organisation `user_org`, given what was answered so far.
pub fn get_stage_output_download_url(user_org: &str, facts: &OutputUrlFacts) -> (r: OutputUrlStep)
    ensures
        url_step_view(r) == url_step(user_org@, *facts),
{
    let loc = match &facts.output {
        None => {
            return OutputUrlStep::FetchOutput;
        },
        Some(Err(_)) => {
            return OutputUrlStep::Respond(error_reply(500, "Failed to retrieve stage output details"));
        },
        Some(Ok(None)) => {
            return OutputUrlStep::Respond(error_reply(404, "Stage output not found"));
        },
        Some(Ok(Some(loc))) => loc,
    };
    match &facts.job_org {
        None => OutputUrlStep::FetchJobOrg,
        Some(Err(_)) => OutputUrlStep::Respond(error_reply(500, "Failed to verify job association")),
        Some(Ok(org)) => if !str_eq(org.as_str(), user_org) {
            OutputUrlStep::Respond(error_reply(401, "You are not authorized to access this output."))
        } else {
            match &facts.url {
                None => OutputUrlStep::Presign { bucket: loc.0.clone(), key: loc.1.clone() },
                Some(Ok(u)) => OutputUrlStep::Respond(url_reply(u.as_str())),
                Some(Err(true)) => OutputUrlStep::Respond(error_reply(500, "Could not generate download URL (config error)")),
                Some(Err(false)) => OutputUrlStep::Respond(error_reply(500, "Could not generate download URL (presign error)")),
            }
        },
    }
}

/// Whether a job's status is final: the stream of status events ends after
/// "completed" or "failed".
pub fn status_is_final(status: &str) -> (r: bool)
    ensures
        r == (status@ == "completed"@ || status@ == "failed"@),
{
    str_eq(status, "completed") || str_eq(status, "failed")
}

/// Jobs stay within their organisation: a user is shown a job's details,
/// or given a stage output's link, only where the job belongs to the
/// user's organisation.
pub proof fn lemma_jobs_stay_in_org(user_org: Seq<char>, details: JobDetailsFacts, url: OutputUrlFacts)
    ensures
        details_step(user_org, details) is Details ==> (details.job_org matches Some(Ok(Some(org))) && org@ == user_org),
        (url_step(user_org, url) is Presign || url_step(user_org, url) matches OutputUrlStepView::Respond(200, _))
            ==> (url.job_org matches Some(Ok(org)) && org@ == user_org),
{
}

} // verus!
