use crpipeline::dashboard::{quota_exceeded, remaining, same_org_or_unauthorized, usage, AuditQuery};
use crpipeline::jobs::{get_job_details, get_stage_output_download_url, JobDetailsFacts, JobDetailsStep, OutputUrlFacts,
    OutputUrlStep};
use crpipeline::json::JsonValue;
use crpipeline::pipelines::{clone_name, create_pipeline, stored_pipeline_check, update_pipeline, ListQuery, PipelineInput};
use crpipeline::settings::{get_settings_refusal, mask_key, may_access_settings, preserve_key, SettingsLookup};

fn s(t: &str) -> JsonValue {
    JsonValue::String(t.to_string())
}

fn ok_stages() -> JsonValue {
    JsonValue::Array(vec![JsonValue::Object(vec![
        ("type".to_string(), s("ai")),
        ("command".to_string(), s("run")),
    ])])
}

#[test]
fn keys_masked_and_kept() {
    assert_eq!(mask_key(Some("secret".to_string())), Some("********".to_string()));
    assert_eq!(mask_key(Some(String::new())), Some(String::new()));
    assert_eq!(mask_key(None), None);
    let current = Some("secret".to_string());
    assert_eq!(preserve_key(mask_key(current.clone()), current.clone()), current);
    assert_eq!(preserve_key(Some("new".to_string()), current.clone()), Some("new".to_string()));
    assert_eq!(preserve_key(None, current), None);
}

#[test]
fn settings_access() {
    assert!(may_access_settings("admin", "o1", "o2"));
    assert!(may_access_settings("user", "o1", "o1"));
    assert!(!may_access_settings("user", "o1", "o2"));
    assert_eq!(get_settings_refusal("user", "o1", "o2", &SettingsLookup::Found).unwrap().status, 401);
    assert_eq!(get_settings_refusal("user", "o1", "o1", &SettingsLookup::NotFound).unwrap().status, 404);
    assert!(get_settings_refusal("user", "o1", "o1", &SettingsLookup::Found).is_none());
}

#[test]
fn pipeline_checks() {
    let input = PipelineInput { org_id: "o2".to_string(), name: "p".to_string(), stages: ok_stages() };
    assert_eq!(create_pipeline("user", "o1", &input).unwrap().status, 401);
    assert!(create_pipeline("admin", "o1", &input).is_none());
    let blank = PipelineInput { org_id: "o1".to_string(), name: " ".to_string(), stages: ok_stages() };
    assert_eq!(create_pipeline("user", "o1", &blank).unwrap().status, 400);
    let bad = PipelineInput { org_id: "o1".to_string(), name: "p".to_string(), stages: JsonValue::Array(vec![]) };
    assert_eq!(create_pipeline("user", "o1", &bad).unwrap().status, 400);
    assert_eq!(stored_pipeline_check("user", "o1", &Ok(None)).unwrap().status, 404);
    assert_eq!(stored_pipeline_check("user", "o1", &Ok(Some("o2".to_string()))).unwrap().status, 401);
    assert!(stored_pipeline_check("admin", "o1", &Ok(Some("o2".to_string()))).is_none());
    let moved = PipelineInput { org_id: "o3".to_string(), name: "p".to_string(), stages: ok_stages() };
    assert_eq!(update_pipeline("admin", "o1", &Ok(Some("o2".to_string())), &moved).unwrap().status, 400);
    assert_eq!(clone_name("Flow"), "Flow (copy)");
}

#[test]
fn pipeline_list_plan() {
    let q = ListQuery { search: Some("inv".to_string()), page: Some(2), limit: Some(10) };
    let p = q.plan("o1", "o1").ok().unwrap();
    assert_eq!(p.pattern, Some("%inv%".to_string()));
    assert!(!p.cacheable);
    assert_eq!((p.window.page, p.window.limit, p.window.offset), (2, 10, 10));
    let q = ListQuery { search: None, page: None, limit: None };
    assert!(q.plan("o1", "o1").ok().unwrap().cacheable);
    assert_eq!(q.plan("o1", "o2").err().unwrap().status, 401);
}

#[test]
fn job_details_only_for_own_org() {
    let mut f = JobDetailsFacts { job_org: None, document: None, pipeline: None, outputs: None };
    assert!(matches!(get_job_details("o1", &f), JobDetailsStep::FetchJob));
    f.job_org = Some(Ok(Some("o2".to_string())));
    assert!(matches!(get_job_details("o1", &f), JobDetailsStep::Respond(r) if r.status == 401));
    f.job_org = Some(Ok(Some("o1".to_string())));
    f.document = Some(Ok(()));
    f.pipeline = Some(Ok(()));
    f.outputs = Some(false);
    assert!(matches!(get_job_details("o1", &f), JobDetailsStep::Details { with_outputs: false }));
    f.job_org = Some(Ok(None));
    assert!(matches!(get_job_details("o1", &f), JobDetailsStep::Respond(r) if r.status == 404));
}

#[test]
fn output_links_only_for_own_org() {
    let mut f = OutputUrlFacts { output: Some(Ok(Some(("b".to_string(), "k".to_string())))), job_org: None, url: None };
    assert!(matches!(get_stage_output_download_url("o1", &f), OutputUrlStep::FetchJobOrg));
    f.job_org = Some(Ok("o2".to_string()));
    assert!(matches!(get_stage_output_download_url("o1", &f), OutputUrlStep::Respond(r) if r.status == 401));
    f.job_org = Some(Ok("o1".to_string()));
    assert!(matches!(get_stage_output_download_url("o1", &f), OutputUrlStep::Presign { bucket, key } if bucket == "b" && key == "k"));
    f.url = Some(Ok("http://signed".to_string()));
    assert!(matches!(get_stage_output_download_url("o1", &f), OutputUrlStep::Respond(r) if r.status == 200));
    f.url = Some(Err(true));
    assert!(matches!(get_stage_output_download_url("o1", &f), OutputUrlStep::Respond(r) if r.status == 500));
}

#[test]
fn usage_merged_by_month() {
    let up = vec![("2024-03".to_string(), 5), ("2024-01".to_string(), 2), ("2024-03".to_string(), 6)];
    let an = vec![("2024-02".to_string(), 1), ("2024-03".to_string(), 4)];
    let items = usage(&up, &an);
    let got: Vec<(String, i64, i64)> = items.into_iter().map(|i| (i.month, i.uploads, i.analyses)).collect();
    assert_eq!(got, vec![
        ("2024-01".to_string(), 2, 0),
        ("2024-02".to_string(), 0, 1),
        ("2024-03".to_string(), 6, 4),
    ]);
}

#[test]
fn quotas_and_access() {
    assert_eq!(remaining(10, 3), 7);
    assert_eq!(remaining(1, 3), -2);
    assert!(quota_exceeded(10, 10));
    assert!(!quota_exceeded(9, 10));
    assert!(same_org_or_unauthorized("o", "o").is_none());
    assert_eq!(same_org_or_unauthorized("o", "p").unwrap().status, 401);
    let w = AuditQuery { page: None, limit: Some(0) }.window();
    assert_eq!((w.page, w.limit, w.offset), (1, 1, 0));
}
