use crpipeline::json::{JsonNumber, JsonValue};
use crpipeline::report::{layout_report, replace_placeholders, report_title, template_data, DrawOp, ReportEvent};

fn s(t: &str) -> JsonValue {
    JsonValue::String(t.to_string())
}

fn obj(members: Vec<(&str, JsonValue)>) -> JsonValue {
    JsonValue::Object(members.into_iter().map(|(k, v)| (k.to_string(), v)).collect())
}

#[test]
fn placeholders_filled_from_data() {
    let data = obj(vec![
        ("name", s("Doc")),
        ("a", obj(vec![("b", obj(vec![("c", s("deep"))]))])),
        ("n", JsonValue::Number(JsonNumber::PosInt(3))),
    ]);
    let doc = r#"{"name":"Doc","a":{"b":{"c":"deep"}},"n":3}"#;
    let out = replace_placeholders("# {{ name }} - {{a.b.c}} - {{n}} - {{missing}}", &data, doc);
    assert_eq!(out, "# Doc - deep -  - ");
}

#[test]
fn deep_paths_use_jsonpath() {
    let data = obj(vec![("a", obj(vec![("b", obj(vec![("c", obj(vec![("d", s("four"))]))]))]))]);
    let doc = r#"{"a":{"b":{"c":{"d":"four"}}}}"#;
    let out = replace_placeholders("{{a.b.c.d}}!", &data, doc);
    assert_eq!(out, "four!");
}

#[test]
fn unparsable_deep_path_is_marked() {
    let data = obj(vec![]);
    let out = replace_placeholders("{{a..b.c}}", &data, "{}");
    assert!(out == "" || out == "{{UNRESOLVED: a..b.c}}");
}

#[test]
fn title_defaults_to_report() {
    assert_eq!(report_title(&obj(vec![])), "Report");
    assert_eq!(report_title(&obj(vec![("document_name", s("x.pdf"))])), "x.pdf");
}

#[test]
fn object_output_gets_document_and_job() {
    let d = template_data(obj(vec![("val", JsonValue::Number(JsonNumber::PosInt(1)))]), "doc.pdf", "j1");
    match d {
        JsonValue::Object(m) => {
            let keys: Vec<&str> = m.iter().map(|(k, _)| k.as_str()).collect();
            assert_eq!(keys, vec!["val", "document_name", "job_id"]);
        },
        _ => panic!("object"),
    }
}

#[test]
fn other_output_is_wrapped() {
    let d = template_data(s("plain"), "doc.pdf", "j1");
    match d {
        JsonValue::Object(m) => {
            assert_eq!(m.len(), 3);
            assert_eq!(m[2].0, "previous_stage_output");
        },
        _ => panic!("object"),
    }
}

#[test]
fn heading_and_paragraph_layout() {
    let events = vec![
        ReportEvent::StartHeading(1),
        ReportEvent::Text("Title".to_string()),
        ReportEvent::EndHeading,
        ReportEvent::StartParagraph,
        ReportEvent::Text("a\nb".to_string()),
        ReportEvent::EndParagraph,
    ];
    let ops = layout_report(&events);
    assert!(matches!(ops[0], DrawOp::BeginText));
    assert!(matches!(ops[1], DrawOp::SetFont(18)));
    assert!(matches!(ops[2], DrawOp::SetCursor(15, 280)));
    assert!(matches!(&ops[3], DrawOp::Write(t) if t == "Title"));
    assert!(matches!(ops[4], DrawOp::EndText));
    assert!(matches!(ops[7], DrawOp::SetCursor(15, 270)));
    assert!(matches!(ops[9], DrawOp::SetCursor(15, 264)));
    assert_eq!(ops.len(), 12);
}

#[test]
fn layout_stops_at_page_end() {
    let events: Vec<ReportEvent> = (0..100).map(|_| ReportEvent::Rule).collect();
    let ops = layout_report(&events);
    // 280 down to 20 in steps of 6: 44 rules fit.
    assert_eq!(ops.len(), 44 * 4);
}

#[test]
fn template_is_parsed_as_markdown_and_laid_out() {
    let data = obj(vec![("title", s("Title"))]);
    let ops = crpipeline::report::report_layout("# {{ title }}\n\nHello", &data, "{\"title\":\"Title\"}");
    let events = vec![
        ReportEvent::StartHeading(1),
        ReportEvent::Text("Title".to_string()),
        ReportEvent::EndHeading,
        ReportEvent::StartParagraph,
        ReportEvent::Text("Hello".to_string()),
        ReportEvent::EndParagraph,
    ];
    let expected = layout_report(&events);
    assert_eq!(ops.len(), expected.len());
    assert!(matches!(ops[1], DrawOp::SetFont(18)));
    assert!(matches!(&ops[3], DrawOp::Write(t) if t == "Title"));
    assert!(ops.iter().any(|op| matches!(op, DrawOp::Write(t) if t == "Hello")));
}
