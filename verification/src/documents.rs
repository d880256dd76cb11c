//! Documents: the steps of an upload (checks, quotas, storage, records, the
//! optional analysis job) and who may download or delete a document.

use vstd::prelude::*;
use crate::json::Json;
use crate::reply::{Reply, error_body, error_reply};
use crate::upload::{UploadError, storage_key, name_is_clean, name_kept};
use crate::text::str_eq;

verus! {

/// An upload request: who sends it, for which organisation, and what it
/// asks for.
pub struct UploadRequest {
    /// The sender's role.
    pub role: String,
    /// The sender's organisation.
    pub user_org: String,
    /// The organisation the document is for.
    pub org_id: String,
    /// Whether the document is a target document (counted by the upload
    /// quota).
    pub is_target: bool,
    /// Whether an analysis job is to be queued for it.
    pub queue_analysis: bool,
}

/// Why recording a document failed.
#[derive(PartialEq, Eq, Structural, Clone, Copy)]
pub enum RecordFailure {
    /// The storage key is changed by sanitising.
    UnsafeName,
    /// The database refused the row.
    Database,
}

/// What was found out so far during an upload; `None` where it was not
/// asked yet.
pub struct UploadFacts {
    /// Whether the request's file was read completely.
    pub read_ok: bool,
    /// The file's check: its base name and page count, or why it is refused.
    pub checked: Option<Result<(String, i32), UploadError>>,
    /// This month's target uploads and the upload quota; `Err` where the
    /// organisation's settings could not be read.
    pub upload_quota: Option<Result<(i64, i32), ()>>,
    /// The key the file was stored under; `Err` where storing failed.
    pub stored: Option<Result<String, ()>>,
    /// Whether the document was recorded.
    pub recorded: Option<Result<(), RecordFailure>>,
    /// This month's analyses and the analysis quota; `Err` where the
    /// settings could not be read.
    pub analysis_quota: Option<Result<(i64, i32), ()>>,
    /// Whether the analysis job was created (and queued).
    pub job_created: Option<bool>,
}

/// The next step of an upload.
pub enum UploadStep {
    /// Check the file and count its pages.
    Validate,
    /// Count this month's target uploads and read the upload quota.
    CountTargetUploads,
    /// Store the file under this key.
    Store { key: String },
    /// Record the document stored under `key` with `pages` pages.
    Record { key: String, pages: i32 },
    /// Count this month's analyses and read the analysis quota.
    CountAnalyses,
    /// Create the analysis job and queue it.
    CreateJob,
    /// Remove the stored file under `key`, then answer with the reply.
    RemoveAndRespond { key: String, reply: Reply },
    /// Answer with the reply.
    Respond(Reply),
    /// Answer 200 with the recorded document.
    Done,
}

/// The mathematical form of a step of an upload. The key of `Store` is
/// described apart (`stored_key_shape`).
pub enum UploadStepView {
    Validate,
    CountTargetUploads,
    Store,
    Record(Seq<char>, i32),
    CountAnalyses,
    CreateJob,
    RemoveAndRespond(Seq<char>, u16, Json),
    Respond(u16, Json),
    Done,
}

/// The view of a step of an upload.
pub open spec fn upload_step_view(s: UploadStep) -> UploadStepView {
    match s {
        UploadStep::Validate => UploadStepView::Validate,
        UploadStep::CountTargetUploads => UploadStepView::CountTargetUploads,
        UploadStep::Store { .. } => UploadStepView::Store,
        UploadStep::Record { key, pages } => UploadStepView::Record(key@, pages),
        UploadStep::CountAnalyses => UploadStepView::CountAnalyses,
        UploadStep::CreateJob => UploadStepView::CreateJob,
        UploadStep::RemoveAndRespond { key, reply } => UploadStepView::RemoveAndRespond(key@, reply.status, reply.body@),
        UploadStep::Respond(r) => UploadStepView::Respond(r.status, r.body@),
        UploadStep::Done => UploadStepView::Done,
    }
}

/// Whether the sender may upload for the organisation: a global
/// administrator, or a member of it.
pub open spec fn may_upload(role: Seq<char>, user_org: Seq<char>, org: Seq<char>) -> bool {
    role == "admin"@ || org == user_org
}

/// The shape of a storage key made from a fresh identifier: the
/// identifier, a hyphen, and a name that sanitising leaves unchanged.
pub open spec fn stored_key_shape(key: Seq<char>, fresh_id: Seq<char>) -> bool {
    &&& key.len() >= fresh_id.len() + 1
    &&& key.subrange(0, fresh_id.len() as int) == fresh_id
    &&& key[fresh_id.len() as int] == '-'
    &&& name_is_clean(key.subrange(fresh_id.len() as int + 1, key.len() as int))
}

/// An error response of an upload.
pub open spec fn refuse_upload(status: u16, msg: Seq<char>) -> UploadStepView {
    UploadStepView::Respond(status, error_body(msg))
}

/// An error response after the file was stored under `key`: the file is
/// removed first.
pub open spec fn undo_upload(key: Seq<char>, status: u16, msg: Seq<char>) -> UploadStepView {
    UploadStepView::RemoveAndRespond(key, status, error_body(msg))
}

/// The steps once the file was stored under `key`: record it, then, where
/// asked, check the analysis quota and create the job.
pub open spec fn after_store(req: UploadRequest, key: Seq<char>, pages: i32, facts: UploadFacts) -> UploadStepView {
    match facts.recorded {
        None => UploadStepView::Record(key, pages),
        Some(Err(RecordFailure::UnsafeName)) => undo_upload(key, 400, "Invalid filename."@),
        Some(Err(RecordFailure::Database)) => undo_upload(key, 500, "Failed to save document information."@),
        Some(Ok(())) => if !req.queue_analysis {
            UploadStepView::Done
        } else {
            match facts.analysis_quota {
                None => UploadStepView::CountAnalyses,
                Some(Err(())) => undo_upload(key, 500, "Could not verify organization settings for analysis quota."@),
                Some(Ok((used, quota))) => if used >= quota {
                    undo_upload(
                        key,
                        429,
                        "Monthly analysis quota exceeded. Document uploaded but not queued for analysis."@,
                    )
                } else {
                    match facts.job_created {
                        None => UploadStepView::CreateJob,
                        Some(false) => undo_upload(key, 500, "Failed to queue analysis job."@),
                        Some(true) => UploadStepView::Done,
                    }
                },
            }
        },
    }
}

/// The next step of an upload, given what was found out so far. The file
/// must have been read and must pass its checks; then only a global
/// administrator or a member of the organisation may upload; a target
/// document must fit the monthly upload quota; the file is stored, then
/// recorded; an analysis job, where asked, must fit the monthly analysis
/// quota. A failure after storing removes the stored file.
pub open spec fn upload_step(req: UploadRequest, facts: UploadFacts) -> UploadStepView {
    if !facts.read_ok {
        refuse_upload(400, "Error reading uploaded file."@)
    } else {
        match facts.checked {
            None => UploadStepView::Validate,
            Some(Err(e)) => UploadStepView::Respond(e.status_of(), error_body(e.message_of())),
            Some(Ok((_base, pages))) => if !may_upload(req.role@, req.user_org@, req.org_id@) {
                refuse_upload(401, "You are not authorized to upload to this organization."@)
            } else {
                let quota_step: Option<UploadStepView> = if !req.is_target {
                    None
                } else {
                    match facts.upload_quota {
                        None => Some(UploadStepView::CountTargetUploads),
                        Some(Err(())) => Some(refuse_upload(500, "Could not verify organization settings for quota."@)),
                        Some(Ok((used, quota))) => if used >= quota {
                            Some(refuse_upload(429, "Monthly upload quota for target documents exceeded."@))
                        } else {
                            None
                        },
                    }
                };
                match quota_step {
                    Some(s) => s,
                    None => match facts.stored {
                        None => UploadStepView::Store,
                        Some(Err(())) => refuse_upload(500, "File upload to storage failed."@),
                        Some(Ok(key)) => after_store(req, key@, pages, facts),
                    },
                }
            },
        }
    }
}

fn refuse_step(status: u16, msg: &str) -> (r: UploadStep)
    ensures
        upload_step_view(r) == refuse_upload(status, msg@),
{
    UploadStep::Respond(error_reply(status, msg))
}

fn undo_step(key: &String, status: u16, msg: &str) -> (r: UploadStep)
    ensures
        upload_step_view(r) == undo_upload(key@, status, msg@),
{
    UploadStep::RemoveAndRespond { key: key.clone(), reply: error_reply(status, msg) }
}

fn record_steps(req: &UploadRequest, key: &String, pages: i32, facts: &UploadFacts) -> (r: UploadStep)
    ensures
        upload_step_view(r) == after_store(*req, key@, pages, *facts),
{
    match &facts.recorded {
        None => UploadStep::Record { key: key.clone(), pages },
        Some(Err(RecordFailure::UnsafeName)) => undo_step(key, 400, "Invalid filename."),
        Some(Err(RecordFailure::Database)) => undo_step(key, 500, "Failed to save document information."),
        Some(Ok(())) => if !req.queue_analysis {
            UploadStep::Done
        } else {
            match &facts.analysis_quota {
                None => UploadStep::CountAnalyses,
                Some(Err(())) => undo_step(key, 500, "Could not verify organization settings for analysis quota."),
                Some(Ok((used, quota))) => if *used >= *quota as i64 {
                    undo_step(key, 429, "Monthly analysis quota exceeded. Document uploaded but not queued for analysis.")
                } else {
                    match facts.job_created {
                        None => UploadStep::CreateJob,
                        Some(false) => undo_step(key, 500, "Failed to queue analysis job."),
                        Some(true) => UploadStep::Done,
                    }
                },
            }
        },
    }
}

/// The next step of an upload, given what was found out so far; a stored
/// file's key is made of `fresh_id` and the file's sanitised base name.
pub fn upload(req: &UploadRequest, fresh_id: &str, facts: &UploadFacts) -> (r: UploadStep)
    ensures
        upload_step_view(r) == upload_step(*req, *facts),
        r matches UploadStep::Store { key } ==> stored_key_shape(key@, fresh_id@),
        r matches UploadStep::Store { key } ==> (facts.checked matches Some(Ok((base, _)))
            && (name_kept(base@) ==> key@ == fresh_id@ + "-"@ + base@)),
{
    if !facts.read_ok {
        return refuse_step(400, "Error reading uploaded file.");
    }
    let (base, pages) = match &facts.checked {
        None => {
            return UploadStep::Validate;
        },
        Some(Err(e)) => {
            return UploadStep::Respond(error_reply(e.status(), e.message()));
        },
        Some(Ok((base, pages))) => (base, *pages),
    };
    if !str_eq(req.role.as_str(), "admin") && !str_eq(req.org_id.as_str(), req.user_org.as_str()) {
        return refuse_step(401, "You are not authorized to upload to this organization.");
    }
    if req.is_target {
        match &facts.upload_quota {
            None => {
                return UploadStep::CountTargetUploads;
            },
            Some(Err(())) => {
                return refuse_step(500, "Could not verify organization settings for quota.");
            },
            Some(Ok((used, quota))) => if *used >= *quota as i64 {
                return refuse_step(429, "Monthly upload quota for target documents exceeded.");
            },
        }
    }
    match &facts.stored {
        None => UploadStep::Store { key: storage_key(fresh_id, base.as_str()) },
        Some(Err(())) => refuse_step(500, "File upload to storage failed."),
        Some(Ok(key)) => record_steps(req, key, pages, facts),
    }
}

/// An upload ends well only when every check passed and every step
/// succeeded: the file was read and accepted, the sender may upload for the
/// organisation, a target document fit the upload quota, the file was
/// stored and recorded, and an asked-for analysis job fit the analysis
/// quota and was created.
pub proof fn lemma_upload_done_only_when_complete(req: UploadRequest, facts: UploadFacts)
    requires
        upload_step(req, facts) is Done,
    ensures
        facts.read_ok,
        facts.checked matches Some(Ok(_)),
        may_upload(req.role@, req.user_org@, req.org_id@),
        req.is_target ==> (facts.upload_quota matches Some(Ok((used, quota))) && used < quota),
        facts.stored matches Some(Ok(_)),
        facts.recorded matches Some(Ok(_)),
        req.queue_analysis ==> (facts.analysis_quota matches Some(Ok((used, quota))) && used < quota),
        req.queue_analysis ==> facts.job_created == Some(true),
{
}

/// A failed upload leaves no stored file behind: once the file passed the
/// checks that come before storing it and was stored under `key`, every
/// error answer removes that file first.
pub proof fn lemma_failed_upload_removes_file(req: UploadRequest, facts: UploadFacts, key: String)
    requires
        facts.read_ok,
        facts.checked matches Some(Ok(_)),
        may_upload(req.role@, req.user_org@, req.org_id@),
        req.is_target ==> (facts.upload_quota matches Some(Ok((used, quota))) && used < quota),
        facts.stored == Some(Ok::<String, ()>(key)),
    ensures
        !(upload_step(req, facts) is Respond),
        upload_step(req, facts) matches UploadStepView::RemoveAndRespond(k, _, _) ==> k == key@,
{
}

/// Nothing is stored for a sender who may not upload for the organisation,
/// nor for a target document over the upload quota.
pub proof fn lemma_store_only_when_allowed(req: UploadRequest, facts: UploadFacts)
    requires
        upload_step(req, facts) is Store,
    ensures
        may_upload(req.role@, req.user_org@, req.org_id@),
        req.is_target ==> (facts.upload_quota matches Some(Ok((used, quota))) && used < quota),
{
}

// ---------------------------------------------------------------------------
// Downloading and deleting
// ---------------------------------------------------------------------------

/// Whether a user may act on a stored document, once it was looked up.
pub enum DocumentAccess {
    /// The user may.
    Allowed,
    /// There is no such document.
    NotFound,
    /// The lookup failed.
    LookupFailed,
    /// The document belongs to another organisation and the user is not a
    /// global administrator.
    Unauthorized,
}

/// Who may download or delete a document (`lookup`: its organisation, if
/// it exists): a global administrator, or a member of its organisation.
pub open spec fn access_of(role: Seq<char>, user_org: Seq<char>, lookup: Result<Option<Seq<char>>, ()>) -> DocumentAccess {
    match lookup {
        Err(()) => DocumentAccess::LookupFailed,
        Ok(None) => DocumentAccess::NotFound,
        Ok(Some(org)) => if may_upload(role, user_org, org) {
            DocumentAccess::Allowed
        } else {
            DocumentAccess::Unauthorized
        },
    }
}

/// The text of a looked-up organisation.
pub open spec fn org_lookup(l: Result<Option<String>, ()>) -> Result<Option<Seq<char>>, ()> {
    match l {
        Ok(Some(s)) => Ok(Some(s@)),
        Ok(None) => Ok(None),
        Err(()) => Err(()),
    }
}

/// Whether the signed-in user may download or delete the document looked
/// up (`Ok(Some(org))` its organisation).
pub fn document_access(role: &str, user_org: &str, lookup: &Result<Option<String>, ()>) -> (r: DocumentAccess)
    ensures
        r == access_of(role@, user_org@, org_lookup(*lookup)),
{
    match lookup {
        Err(()) => DocumentAccess::LookupFailed,
        Ok(None) => DocumentAccess::NotFound,
        Ok(Some(org)) => if str_eq(role, "admin") || str_eq(org.as_str(), user_org) {
            DocumentAccess::Allowed
        } else {
            DocumentAccess::Unauthorized
        },
    }
}

} // verus!
