use crpipeline::json::JsonValue;
use crpipeline::pipeline_validation::{validate_stages, StagesError};

fn s(t: &str) -> JsonValue {
    JsonValue::String(t.to_string())
}

fn obj(members: Vec<(&str, JsonValue)>) -> JsonValue {
    JsonValue::Object(members.into_iter().map(|(k, v)| (k.to_string(), v)).collect())
}

#[test]
fn missing_stage_id_is_ok() {
    let stages = JsonValue::Array(vec![
        obj(vec![("type", s("ocr")), ("command", s("run"))]),
        obj(vec![("id", s("b")), ("type", s("ai")), ("command", s("run"))]),
    ]);
    assert!(validate_stages(&stages).is_ok());
}

#[test]
fn invalid_ocr_engine_rejected() {
    let stages = JsonValue::Array(vec![obj(vec![
        ("type", s("ocr")),
        ("ocr_engine", s("foo")),
        ("command", s("run")),
    ])]);
    assert!(validate_stages(&stages).is_err());
}

#[test]
fn external_ocr_without_endpoint_rejected() {
    let stages = JsonValue::Array(vec![obj(vec![
        ("type", s("ocr")),
        ("ocr_engine", s("external")),
        ("command", s("run")),
    ])]);
    assert!(validate_stages(&stages).is_err());
}

#[test]
fn stages_must_be_an_array() {
    let r = validate_stages(&s("x"));
    assert!(matches!(r, Err(StagesError::NotArray)));
    assert_eq!(r.unwrap_err().message(), "'stages' must be an array.");
}

#[test]
fn empty_stage_list_rejected() {
    let r = validate_stages(&JsonValue::Array(vec![]));
    assert_eq!(r.unwrap_err().message(), "Pipeline must have at least one stage.");
}

#[test]
fn duplicate_stage_ids_rejected() {
    let stages = JsonValue::Array(vec![
        obj(vec![("id", s("a")), ("type", s("ai")), ("command", s("run"))]),
        obj(vec![("id", s("a")), ("type", s("ai")), ("command", s("run"))]),
    ]);
    let r = validate_stages(&stages);
    assert_eq!(r.unwrap_err().message(), "Duplicate stage id 'a'");
}

#[test]
fn stage_without_type_names_its_index() {
    let stages = JsonValue::Array(vec![
        obj(vec![("type", s("ai")), ("command", s("run"))]),
        obj(vec![("command", s("run"))]),
    ]);
    let r = validate_stages(&stages);
    assert_eq!(r.unwrap_err().message(), "Stage 1 must have a 'type' field.");
}

#[test]
fn external_ocr_with_endpoint_accepted() {
    let stages = JsonValue::Array(vec![obj(vec![
        ("type", s("ocr")),
        ("ocr_engine", s("external")),
        ("ocr_stage_endpoint", s("http://ocr")),
        ("command", s("run")),
    ])]);
    assert!(validate_stages(&stages).is_ok());
}
