use crpipeline::worker::{ai_next, ai_service, carry_json, direct_ai_next, start_json, blpop_timeout, exponential_backoff, finish_stage, idle_expired,
    log_idle_shutdown, ocr_auth, ocr_retry_delay, ocr_should_retry, reloaded_concurrency, resolve_setting,
    select_custom_headers, stage_action, start_job, AiAttempt, AiNext, CustomHeader, JobState, OcrAuth, Stage,
    StageAction, StageOutcome, WorkerRuntimeConfig};

fn stage(t: &str, command: Option<&str>, engine: Option<&str>) -> Stage {
    Stage {
        stage_type: t.to_string(),
        command: command.map(|c| c.to_string()),
        prompt_name: None,
        ocr_engine: engine.map(|e| e.to_string()),
        ocr_stage_endpoint: None,
        ocr_stage_key: None,
        config: None,
    }
}

#[test]
fn backoff_doubles() {
    assert_eq!(exponential_backoff(1), 500);
    assert_eq!(exponential_backoff(2), 1000);
    assert_eq!(exponential_backoff(3), 2000);
    assert_eq!(exponential_backoff(56), 500 * (1u64 << 55));
    assert_eq!(ocr_retry_delay(2), 1000);
    assert!(ocr_should_retry(2));
    assert!(!ocr_should_retry(3));
}

#[test]
fn runtime_concurrency_at_least_one() {
    assert_eq!(WorkerRuntimeConfig::from_env(Some("8")).concurrency, 8);
    assert_eq!(WorkerRuntimeConfig::from_env(Some("x")).concurrency, 1);
    assert_eq!(reloaded_concurrency(Some("0")), 1);
    assert_eq!(reloaded_concurrency(Some("3")), 3);
    assert_eq!(reloaded_concurrency(None), 1);
}

#[test]
fn idle_shutdown_report() {
    let r = log_idle_shutdown();
    assert_eq!(r.message, "Idle timeout reached, shutting down");
    assert_eq!(r.counter_increment, 1);
    assert_eq!(blpop_timeout(Some(5)), 60);
    assert_eq!(blpop_timeout(None), 0);
    assert!(idle_expired(Some(2), 120));
    assert!(!idle_expired(Some(2), 119));
    assert!(!idle_expired(None, 1000));
}

#[test]
fn stage_actions() {
    assert!(matches!(stage_action(&stage("ocr", None, Some("external"))), StageAction::Ocr { external: true }));
    assert!(matches!(stage_action(&stage("ocr", None, None)), StageAction::Ocr { external: false }));
    assert!(matches!(stage_action(&stage("parse", None, None)), StageAction::Parse));
    assert!(matches!(stage_action(&stage("ai", None, None)), StageAction::Ai));
    assert!(matches!(stage_action(&stage("report", None, None)), StageAction::Report));
    match stage_action(&stage("custom", Some("  echo  a\tb "), None)) {
        StageAction::Command { program, args } => {
            assert_eq!(program, "echo");
            assert_eq!(args, vec!["a".to_string(), "b".to_string()]);
        },
        _ => panic!("command"),
    }
    assert!(matches!(stage_action(&stage("custom", Some("   "), None)), StageAction::Nothing));
    assert!(matches!(stage_action(&stage("custom", None, None)), StageAction::Wait));
}

#[test]
fn job_runs_until_a_stage_fails() {
    let s = start_job(3);
    assert!(s == JobState::Running { next: 0 });
    let s = finish_stage(s, StageOutcome::Completed, 3);
    assert!(s == JobState::Running { next: 1 });
    let s2 = finish_stage(s, StageOutcome::Failed, 3);
    assert!(s2 == JobState::Failed);
    let s3 = finish_stage(s, StageOutcome::OcrFailed, 3);
    assert!(s3 == JobState::Failed);
    let s4 = finish_stage(finish_stage(s, StageOutcome::Completed, 3), StageOutcome::Completed, 3);
    assert!(s4 == JobState::Succeeded);
    assert!(start_job(0) == JobState::Succeeded);
}

#[test]
fn settings_resolution_order() {
    assert_eq!(resolve_setting(Some("s"), Some("o"), Some("e")), "s");
    assert_eq!(resolve_setting(None, Some("o"), Some("e")), "o");
    assert_eq!(resolve_setting(None, None, Some("e")), "e");
    assert_eq!(resolve_setting(None, None, None), "");
    assert_eq!(ai_service(None, None, Some("http://ai"), None).ok().unwrap(), ("http://ai".to_string(), String::new()));
    assert_eq!(ai_service(None, Some("k"), None, None).err().unwrap(), "AI endpoint missing");
}

#[test]
fn ocr_credentials() {
    assert!(matches!(ocr_auth(None), OcrAuth::Anonymous));
    assert!(matches!(ocr_auth(Some("   ")), OcrAuth::Anonymous));
    assert!(matches!(ocr_auth(Some("BeArEr tok")), OcrAuth::Authorization(t) if t == "tok"));
    assert!(matches!(ocr_auth(Some("key1")), OcrAuth::ApiKey(k) if k == "key1"));
    assert!(matches!(ocr_auth(Some("bad\u{7f}key")), OcrAuth::Anonymous));
}

#[test]
fn custom_headers_filtered() {
    let hs = vec![
        CustomHeader { name: "X-Ok".to_string(), value: "v".to_string() },
        CustomHeader { name: "  ".to_string(), value: "v".to_string() },
        CustomHeader { name: "bad name".to_string(), value: "v".to_string() },
        CustomHeader { name: "X-Bad-Value".to_string(), value: "a\nb".to_string() },
        CustomHeader { name: "X-Two".to_string(), value: "w".to_string() },
    ];
    let sel = select_custom_headers(&hs);
    let names: Vec<&str> = sel.iter().map(|h| h.name.as_str()).collect();
    assert_eq!(names, vec!["X-Ok", "X-Two"]);
}

#[test]
fn ai_retries_then_fails() {
    assert!(matches!(ai_next(0, AiAttempt::Success), AiNext::Done));
    assert!(matches!(ai_next(0, AiAttempt::SendError("e".to_string())), AiNext::Retry { attempts: 1, delay_ms: 500 }));
    assert!(matches!(ai_next(2, AiAttempt::Status(502, "bad".to_string())), AiNext::Retry { attempts: 3, delay_ms: 2000 }));
    assert!(matches!(ai_next(3, AiAttempt::Status(502, "bad".to_string())), AiNext::HttpError(502, m) if m == "bad"));
    assert!(matches!(ai_next(3, AiAttempt::SendError("e".to_string())), AiNext::RequestError(m) if m == "e"));
}

#[test]
fn direct_ai_call_retries_only_send_failures() {
    assert!(matches!(direct_ai_next(0, AiAttempt::Success), AiNext::Done));
    assert!(matches!(direct_ai_next(0, AiAttempt::Status(500, "boom".to_string())), AiNext::HttpError(500, m) if m == "boom"));
    assert!(matches!(direct_ai_next(0, AiAttempt::SendError("e".to_string())), AiNext::Retry { attempts: 1, delay_ms: 500 }));
    assert!(matches!(direct_ai_next(2, AiAttempt::SendError("e".to_string())), AiNext::Retry { attempts: 3, delay_ms: 1500 }));
    assert!(matches!(direct_ai_next(3, AiAttempt::SendError("e".to_string())), AiNext::RequestError(m) if m == "e"));
}

#[test]
fn parse_and_ai_results_are_handed_on() {
    let first = start_json();
    assert!(matches!(first, crpipeline::json::JsonValue::Null));
    let parsed = carry_json(&StageAction::Parse, first, Some(crpipeline::json::JsonValue::Bool(true)));
    assert!(matches!(parsed, crpipeline::json::JsonValue::Bool(true)));
    let kept = carry_json(&StageAction::Report, parsed, Some(crpipeline::json::JsonValue::Null));
    assert!(matches!(kept, crpipeline::json::JsonValue::Bool(true)));
    let no_text = carry_json(&StageAction::Parse, kept, None);
    assert!(matches!(no_text, crpipeline::json::JsonValue::Bool(true)));
    let ai = carry_json(&StageAction::Ai, no_text, Some(crpipeline::json::JsonValue::Bool(false)));
    assert!(matches!(ai, crpipeline::json::JsonValue::Bool(false)));
}
