use crpipeline::json::{JsonNumber, JsonValue};
use crpipeline::parse::{default_capture_group_index, run_parse_stage, ParseConfig, ParseError, RegexPattern};

fn member<'a>(v: &'a JsonValue, key: &str) -> Option<&'a JsonValue> {
    match v {
        JsonValue::Object(m) => m.iter().find(|(k, _)| k == key).map(|(_, x)| x),
        _ => None,
    }
}

fn text(v: &JsonValue) -> &str {
    match v {
        JsonValue::String(s) => s.as_str(),
        _ => panic!("not a string"),
    }
}

fn texts(v: &JsonValue) -> Vec<String> {
    match v {
        JsonValue::Array(items) => items.iter().map(|x| text(x).to_string()).collect(),
        _ => panic!("not an array"),
    }
}

fn count(v: &JsonValue) -> u64 {
    match v {
        JsonValue::Number(JsonNumber::PosInt(n)) => *n,
        _ => panic!("not a count"),
    }
}

#[test]
fn default_capture_group_is_one() {
    assert_eq!(default_capture_group_index(), 1);
}

#[test]
fn no_config_passes_trimmed_lines() {
    let r = run_parse_stage("  a line  \r\nsecond\n", None).ok().unwrap();
    assert_eq!(text(member(&r, "strategy_used").unwrap()), "Default (Lines)");
    assert_eq!(texts(member(&r, "lines").unwrap()), vec!["a line", "second"]);
}

#[test]
fn passthrough_is_named() {
    let r = run_parse_stage("x", Some(ParseConfig::Passthrough)).ok().unwrap();
    assert_eq!(text(member(&r, "strategy_used").unwrap()), "Passthrough");
    assert_eq!(texts(member(&r, "lines").unwrap()), vec!["x"]);
}

#[test]
fn keywords_counted_without_case() {
    let cfg = ParseConfig::KeywordExtraction {
        keywords: vec!["Invoice".to_string(), "total".to_string()],
        case_sensitive: false,
    };
    let r = run_parse_stage("INVOICE 12, invoice 13, Total 25", Some(cfg)).ok().unwrap();
    assert_eq!(count(member(&r, "Invoice").unwrap()), 2);
    assert_eq!(count(member(&r, "total").unwrap()), 1);
}

#[test]
fn keywords_counted_with_case() {
    let cfg = ParseConfig::KeywordExtraction { keywords: vec!["ab".to_string()], case_sensitive: true };
    let r = run_parse_stage("ab AB abab", Some(cfg)).ok().unwrap();
    assert_eq!(count(member(&r, "ab").unwrap()), 3);
}

#[test]
fn regex_group_extracted() {
    let cfg = ParseConfig::RegexExtraction {
        patterns: vec![RegexPattern {
            name: "total".to_string(),
            regex: r"Total: (\d+)".to_string(),
            capture_group_index: 1,
        }],
    };
    let r = run_parse_stage("Total: 12\nTotal: 7", Some(cfg)).ok().unwrap();
    assert_eq!(texts(member(&r, "total").unwrap()), vec!["12", "7"]);
}

#[test]
fn regex_missing_group_falls_back_to_whole_match() {
    let cfg = ParseConfig::RegexExtraction {
        patterns: vec![RegexPattern { name: "n".to_string(), regex: r"\d+".to_string(), capture_group_index: 3 }],
    };
    let r = run_parse_stage("a 42 b", Some(cfg)).ok().unwrap();
    assert_eq!(texts(member(&r, "n").unwrap()), vec!["42"]);
}

#[test]
fn regex_without_matches_leaves_no_member() {
    let cfg = ParseConfig::RegexExtraction {
        patterns: vec![RegexPattern { name: "n".to_string(), regex: r"\d+".to_string(), capture_group_index: 0 }],
    };
    let r = run_parse_stage("no digits", Some(cfg)).ok().unwrap();
    assert!(member(&r, "n").is_none());
}

#[test]
fn bad_regex_fails_the_stage() {
    let cfg = ParseConfig::RegexExtraction {
        patterns: vec![
            RegexPattern { name: "ok".to_string(), regex: "a".to_string(), capture_group_index: 0 },
            RegexPattern { name: "bad".to_string(), regex: "(".to_string(), capture_group_index: 1 },
        ],
    };
    match run_parse_stage("abc", Some(cfg)) {
        Err(e) => {
            assert!(matches!(&e, ParseError::RegexCompile { name, .. } if name == "bad"));
            assert!(e.message().starts_with("Failed to compile regex for pattern 'bad': "));
        }
        Ok(_) => panic!("a pattern that does not compile must fail the stage"),
    }
}

#[test]
fn table_read_below_header() {
    let cfg = ParseConfig::SimpleTableExtraction {
        header_keywords: vec!["item".to_string(), "price".to_string()],
        stop_keywords: Some(vec!["total".to_string()]),
        delimiter_regex: None,
        numeric_summary: false,
    };
    let text = "Report\nItem   Price\nApple  1,5\n\nPear | 2\nTOTAL  3.5\nPlum  9";
    let r = run_parse_stage(text, Some(cfg)).ok().unwrap();
    assert_eq!(text_of(&r, "status"), "ok");
    assert_eq!(texts(member(&r, "headers").unwrap()), vec!["Item", "Price"]);
    match member(&r, "rows").unwrap() {
        JsonValue::Array(rows) => {
            assert_eq!(rows.len(), 2);
            assert_eq!(texts(&rows[0]), vec!["Apple", "1,5"]);
            assert_eq!(texts(&rows[1]), vec!["Pear", "2"]);
        },
        _ => panic!("rows"),
    }
}

fn text_of(v: &JsonValue, key: &str) -> String {
    text(member(v, key).unwrap()).to_string()
}

#[test]
fn table_without_header_is_reported() {
    let cfg = ParseConfig::SimpleTableExtraction {
        header_keywords: vec!["missing".to_string()],
        stop_keywords: None,
        delimiter_regex: Some("(".to_string()),
        numeric_summary: false,
    };
    let r = run_parse_stage("a\nb", Some(cfg)).ok().unwrap();
    assert_eq!(text_of(&r, "status"), "header_not_found");
}

#[test]
fn table_bad_delimiter_falls_back_to_default() {
    let cfg = ParseConfig::SimpleTableExtraction {
        header_keywords: vec!["a".to_string()],
        stop_keywords: None,
        delimiter_regex: Some("(".to_string()),
        numeric_summary: false,
    };
    let r = run_parse_stage("a  b\n1\t2", Some(cfg)).ok().unwrap();
    assert_eq!(texts(member(&r, "headers").unwrap()), vec!["a", "b"]);
}

#[test]
fn table_custom_delimiter_used() {
    let cfg = ParseConfig::SimpleTableExtraction {
        header_keywords: vec!["x".to_string()],
        stop_keywords: None,
        delimiter_regex: Some(";".to_string()),
        numeric_summary: false,
    };
    let r = run_parse_stage("x;y\n1; 2", Some(cfg)).ok().unwrap();
    match member(&r, "rows").unwrap() {
        JsonValue::Array(rows) => assert_eq!(texts(&rows[0]), vec!["1", "2"]),
        _ => panic!("rows"),
    }
}
