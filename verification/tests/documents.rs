use crpipeline::documents::{document_access, upload, DocumentAccess, RecordFailure, UploadFacts, UploadRequest, UploadStep};
use crpipeline::json::JsonValue;
use crpipeline::reply::Reply;
use crpipeline::upload::UploadError;

fn error_text(r: &Reply) -> String {
    match &r.body {
        JsonValue::Object(m) => match m.iter().find(|(k, _)| k == "error") {
            Some((_, JsonValue::String(s))) => s.clone(),
            _ => panic!("no error"),
        },
        _ => panic!("no object"),
    }
}

fn request(role: &str, user_org: &str, org: &str, is_target: bool, queue: bool) -> UploadRequest {
    UploadRequest {
        role: role.to_string(),
        user_org: user_org.to_string(),
        org_id: org.to_string(),
        is_target,
        queue_analysis: queue,
    }
}

fn fresh() -> UploadFacts {
    UploadFacts {
        read_ok: true,
        checked: None,
        upload_quota: None,
        stored: None,
        recorded: None,
        analysis_quota: None,
        job_created: None,
    }
}

fn checked() -> UploadFacts {
    let mut f = fresh();
    f.checked = Some(Ok(("report.pdf".to_string(), 3)));
    f
}

fn reply_of(s: UploadStep) -> Reply {
    match s {
        UploadStep::Respond(r) => r,
        _ => panic!("expected a reply"),
    }
}

fn undo_of(s: UploadStep) -> (String, Reply) {
    match s {
        UploadStep::RemoveAndRespond { key, reply } => (key, reply),
        _ => panic!("expected removal and a reply"),
    }
}

#[test]
fn unread_upload_is_refused() {
    let mut f = fresh();
    f.read_ok = false;
    let r = reply_of(upload(&request("user", "o1", "o1", false, false), "id", &f));
    assert_eq!(r.status, 400);
    assert_eq!(error_text(&r), "Error reading uploaded file.");
}

#[test]
fn upload_checks_the_file_first() {
    let req = request("user", "o1", "o1", false, false);
    assert!(matches!(upload(&req, "id", &fresh()), UploadStep::Validate));
    let mut f = fresh();
    f.checked = Some(Err(UploadError::TooLarge));
    let r = reply_of(upload(&req, "id", &f));
    assert_eq!(r.status, 413);
    assert_eq!(error_text(&r), "File size exceeds the 200MB limit.");
}

#[test]
fn upload_for_another_org_is_unauthorized() {
    let r = reply_of(upload(&request("user", "o1", "o2", false, false), "id", &checked()));
    assert_eq!(r.status, 401);
    assert_eq!(error_text(&r), "You are not authorized to upload to this organization.");
    assert!(matches!(upload(&request("admin", "o1", "o2", false, false), "id", &checked()), UploadStep::Store { .. }));
}

#[test]
fn target_upload_respects_quota() {
    let req = request("user", "o1", "o1", true, false);
    assert!(matches!(upload(&req, "id", &checked()), UploadStep::CountTargetUploads));
    let mut f = checked();
    f.upload_quota = Some(Ok((10, 10)));
    let r = reply_of(upload(&req, "id", &f));
    assert_eq!(r.status, 429);
    assert_eq!(error_text(&r), "Monthly upload quota for target documents exceeded.");
    f.upload_quota = Some(Err(()));
    let r = reply_of(upload(&req, "id", &f));
    assert_eq!(r.status, 500);
    assert_eq!(error_text(&r), "Could not verify organization settings for quota.");
    f.upload_quota = Some(Ok((9, 10)));
    assert!(matches!(upload(&req, "id", &f), UploadStep::Store { .. }));
}

#[test]
fn stored_key_is_fresh_id_and_clean_name() {
    let mut f = fresh();
    f.checked = Some(Ok(("my:report?.pdf".to_string(), 1)));
    match upload(&request("user", "o1", "o1", false, false), "abc", &f) {
        UploadStep::Store { key } => {
            assert!(key.starts_with("abc-"));
            assert!(!key[4..].contains(':') && !key[4..].contains('?'));
        }
        _ => panic!("expected store"),
    }
}

#[test]
fn failures_after_storing_remove_the_file() {
    let req = request("user", "o1", "o1", false, true);
    let mut f = checked();
    f.stored = Some(Err(()));
    let r = reply_of(upload(&req, "id", &f));
    assert_eq!(error_text(&r), "File upload to storage failed.");
    f.stored = Some(Ok("id-report.pdf".to_string()));
    assert!(matches!(upload(&req, "id", &f), UploadStep::Record { ref key, pages: 3 } if key == "id-report.pdf"));
    f.recorded = Some(Err(RecordFailure::UnsafeName));
    let (key, r) = undo_of(upload(&req, "id", &f));
    assert_eq!(key, "id-report.pdf");
    assert_eq!((r.status, error_text(&r)), (400, "Invalid filename.".to_string()));
    f.recorded = Some(Err(RecordFailure::Database));
    let (_, r) = undo_of(upload(&req, "id", &f));
    assert_eq!((r.status, error_text(&r)), (500, "Failed to save document information.".to_string()));
    f.recorded = Some(Ok(()));
    assert!(matches!(upload(&req, "id", &f), UploadStep::CountAnalyses));
    f.analysis_quota = Some(Ok((5, 5)));
    let (_, r) = undo_of(upload(&req, "id", &f));
    assert_eq!(r.status, 429);
    assert_eq!(error_text(&r), "Monthly analysis quota exceeded. Document uploaded but not queued for analysis.");
    f.analysis_quota = Some(Ok((4, 5)));
    assert!(matches!(upload(&req, "id", &f), UploadStep::CreateJob));
    f.job_created = Some(false);
    let (_, r) = undo_of(upload(&req, "id", &f));
    assert_eq!((r.status, error_text(&r)), (500, "Failed to queue analysis job.".to_string()));
    f.job_created = Some(true);
    assert!(matches!(upload(&req, "id", &f), UploadStep::Done));
}

#[test]
fn upload_without_analysis_is_done_once_recorded() {
    let req = request("user", "o1", "o1", false, false);
    let mut f = checked();
    f.stored = Some(Ok("id-report.pdf".to_string()));
    f.recorded = Some(Ok(()));
    assert!(matches!(upload(&req, "id", &f), UploadStep::Done));
}

#[test]
fn document_access_by_org_or_admin() {
    assert!(matches!(document_access("user", "o1", &Ok(Some("o1".to_string()))), DocumentAccess::Allowed));
    assert!(matches!(document_access("user", "o1", &Ok(Some("o2".to_string()))), DocumentAccess::Unauthorized));
    assert!(matches!(document_access("admin", "o1", &Ok(Some("o2".to_string()))), DocumentAccess::Allowed));
    assert!(matches!(document_access("user", "o1", &Ok(None)), DocumentAccess::NotFound));
    assert!(matches!(document_access("user", "o1", &Err(())), DocumentAccess::LookupFailed));
}
