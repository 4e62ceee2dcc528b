use oxidize_postal::address::ParsedAddress;
use oxidize_postal::api::{
    download_outcome, download_script, expand_address, expand_address_to_json, join_address_line,
    launch_failure, normalize_address, normalize_parsed, parse_address, parse_address_to_json,
};
use oxidize_postal::error::{HostErrorClass, PostalError};
use oxidize_postal::json::{expanded_to_json, parsed_to_json, serialization_failure};
use oxidize_postal::parser::{
    expand_address_string, expand_failure, parse_address_string, parse_failure,
};
use std::collections::HashMap;

fn parsed(pairs: &[(&str, &str)]) -> ParsedAddress {
    let mut p = ParsedAddress::new();
    for (k, v) in pairs {
        p.insert(k.to_string(), v.to_string());
    }
    p
}

fn assert_blank_refused(r: Result<impl std::fmt::Debug, PostalError>, want_context: &str) {
    match r {
        Err(PostalError::InvalidInput { message, context }) => {
            assert_eq!(message, "Address string is empty or contains only whitespace");
            assert_eq!(context, want_context);
        }
        other => panic!("expected InvalidInput, got {:?}", other),
    }
}

const PARSE_CONTEXT: &str =
    "Valid address parsing requires a non-empty string with actual address content";
const EXPAND_CONTEXT: &str =
    "Address expansion requires a valid address string to process abbreviations";

#[test]
fn blank_input_is_refused_by_parse() {
    for s in ["", " ", "\t\n  \r", "\u{3000}\u{a0}"] {
        assert_blank_refused(parse_address(s), PARSE_CONTEXT);
        assert_blank_refused(parse_address_string(s), PARSE_CONTEXT);
        assert_blank_refused(parse_address_to_json(s), PARSE_CONTEXT);
        assert_blank_refused(normalize_address(s), PARSE_CONTEXT);
    }
}

#[test]
fn blank_input_is_refused_by_expand() {
    for s in ["", "   ", "\n"] {
        assert_blank_refused(expand_address(s), EXPAND_CONTEXT);
        assert_blank_refused(expand_address_string(s), EXPAND_CONTEXT);
        assert_blank_refused(expand_address_to_json(s), EXPAND_CONTEXT);
    }
}

#[test]
fn nul_char_is_a_native_failure() {
    match parse_address("12\0 Main St") {
        Err(PostalError::LibpostalError { message }) => {
            assert!(message.starts_with("Failed to parse address: "))
        }
        other => panic!("expected LibpostalError, got {:?}", other),
    }
    match expand_address("12\0 Main St") {
        Err(PostalError::LibpostalError { message }) => {
            assert!(message.starts_with("Failed to expand address: "))
        }
        other => panic!("expected LibpostalError, got {:?}", other),
    }
}

#[test]
fn invalid_input_renders_cause_and_hint() {
    let e = parse_address("  ").unwrap_err();
    let text = e.render();
    assert!(text.starts_with("Invalid input: Address string is empty or contains only whitespace"));
    assert!(text.contains("Context: Valid address parsing requires"));
    assert!(text.ends_with("Please ensure the input is a valid, non-empty string."));
    assert_eq!(e.host_class(), HostErrorClass::Value);
}

#[test]
fn other_errors_render_cause_and_hint() {
    let e = PostalError::LibpostalError { message: "boom".to_string() };
    assert_eq!(
        e.render(),
        "Libpostal processing error: boom. This may indicate missing data files or an internal parsing issue."
    );
    assert_eq!(e.host_class(), HostErrorClass::Runtime);
    let e = PostalError::SerializationError { message: "bad".to_string() };
    assert_eq!(
        e.render(),
        "JSON serialization error: bad. The parsed data could not be converted to JSON format."
    );
    assert_eq!(e.host_class(), HostErrorClass::Runtime);
    let e = PostalError::ConfigurationError { message: "gone".to_string() };
    assert_eq!(
        e.render(),
        "Configuration error: gone. Please check your libpostal installation and data files."
    );
    assert_eq!(e.host_class(), HostErrorClass::Runtime);
}

#[test]
fn json_error_keeps_its_text() {
    let err = serde_json::from_str::<u8>("x").unwrap_err();
    let text = err.to_string();
    match PostalError::from_json(&err) {
        PostalError::SerializationError { message } => {
            assert_eq!(message, format!("JSON serialization error: {}", text))
        }
        other => panic!("expected SerializationError, got {:?}", other),
    }
}

#[test]
fn parsed_address_insert_and_get() {
    let mut p = ParsedAddress::new();
    assert_eq!(p.len(), 0);
    p.insert("road".to_string(), "main st".to_string());
    p.insert("city".to_string(), "springfield".to_string());
    assert_eq!(p.len(), 2);
    p.insert("road".to_string(), "elm st".to_string());
    assert_eq!(p.len(), 2);
    assert_eq!(p.get("road"), Some(&"elm st".to_string()));
    assert_eq!(p.get("city"), Some(&"springfield".to_string()));
    assert_eq!(p.get("state"), None);
}

#[test]
fn normalize_house_number_and_road() {
    let p = parsed(&[("house_number", "123"), ("road", "main st")]);
    assert_eq!(normalize_parsed(&p).unwrap(), "123, main st");
}

#[test]
fn normalize_full_address() {
    let p = parsed(&[
        ("country", "usa"),
        ("postcode", "11216"),
        ("state", "ny"),
        ("city", "brooklyn"),
        ("unit", "4b"),
        ("road", "franklin ave"),
        ("house_number", "781"),
        ("suburb", "crown heights"),
    ]);
    assert_eq!(
        normalize_parsed(&p).unwrap(),
        "781, franklin ave, Unit 4b, brooklyn, NY, 11216, USA"
    );
}

#[test]
fn normalize_without_components_is_native_failure() {
    for p in [parsed(&[]), parsed(&[("suburb", "x"), ("near", "y")])] {
        match normalize_parsed(&p) {
            Err(PostalError::LibpostalError { message }) => assert_eq!(
                message,
                "Failed to parse any recognizable address components from the input. The address may be malformed or in an unsupported format"
            ),
            other => panic!("expected LibpostalError, got {:?}", other),
        }
    }
}

#[test]
fn parsed_json_round_trips() {
    let p = parsed(&[("house_number", "123"), ("road", "main \"st\""), ("city", "zürich")]);
    let text = parsed_to_json(&p).unwrap();
    let back: HashMap<String, String> = serde_json::from_str(&text).unwrap();
    let want: HashMap<String, String> = p.entries().iter().cloned().collect();
    assert_eq!(back, want);
    assert_eq!(back.len(), 3);
}

#[test]
fn empty_parsed_json_is_empty_object() {
    assert_eq!(parsed_to_json(&ParsedAddress::new()).unwrap(), "{}");
}

#[test]
fn expanded_json_round_trips_in_order() {
    let v = vec!["main street".to_string(), "main saint".to_string(), "a\\b".to_string()];
    let text = expanded_to_json(&v).unwrap();
    assert_eq!(text, r#"["main street","main saint","a\\b"]"#);
    let back: Vec<String> = serde_json::from_str(&text).unwrap();
    assert_eq!(back, v);
}

#[test]
fn download_script_carries_force_flag() {
    assert_eq!(
        download_script(true),
        "import sys; sys.path.insert(0, '.'); from data_manager import download_data; download_data(True)"
    );
    assert!(download_script(false).ends_with("download_data(False)"));
}

#[test]
fn download_outcomes() {
    assert_eq!(download_outcome(true, "ignored").unwrap(), true);
    match download_outcome(false, "no route") {
        Err(PostalError::ConfigurationError { message }) => assert_eq!(
            message,
            "Data download failed: no route. Please check your internet connection and ensure you have write permissions to /usr/local/share/libpostal"
        ),
        other => panic!("expected ConfigurationError, got {:?}", other),
    }
    match launch_failure("not found") {
        PostalError::ConfigurationError { message } => assert_eq!(
            message,
            "Failed to run data download script: not found. Ensure Python is installed and the data_manager.py script is accessible"
        ),
        other => panic!("expected ConfigurationError, got {:?}", other),
    }
}

#[test]
fn normalize_skips_empty_parts() {
    let p = parsed(&[("house_number", "12"), ("road", "")]);
    assert_eq!(normalize_parsed(&p).unwrap(), "12");
    let p = parsed(&[("road", ""), ("city", "")]);
    assert!(matches!(normalize_parsed(&p), Err(PostalError::LibpostalError { .. })));
}

#[test]
fn join_address_line_in_fixed_order() {
    assert_eq!(
        join_address_line(
            Some("1600"),
            Some("pennsylvania avenue nw"),
            None,
            Some("washington"),
            Some("DC"),
            Some("20500"),
            Some("USA"),
        )
        .unwrap(),
        "1600, pennsylvania avenue nw, washington, DC, 20500, USA"
    );
    assert_eq!(
        join_address_line(None, Some("main st"), Some("7"), None, Some(""), None, None).unwrap(),
        "main st, Unit 7"
    );
    assert!(matches!(
        join_address_line(None, None, None, None, None, None, None),
        Err(PostalError::LibpostalError { .. })
    ));
}

#[test]
fn failures_embed_the_underlying_text() {
    match parse_failure("could not find libpostal data") {
        PostalError::LibpostalError { message } => {
            assert_eq!(message, "Failed to parse address: could not find libpostal data")
        }
        other => panic!("expected LibpostalError, got {:?}", other),
    }
    match expand_failure("boom") {
        PostalError::LibpostalError { message } => {
            assert_eq!(message, "Failed to expand address: boom")
        }
        other => panic!("expected LibpostalError, got {:?}", other),
    }
    match serialization_failure("bad key") {
        PostalError::SerializationError { message } => {
            assert_eq!(message, "Failed to serialize to JSON: bad key")
        }
        other => panic!("expected SerializationError, got {:?}", other),
    }
}

#[test]
fn native_failure_text_follows_prefix() {
    match parse_address("12\0 Main St") {
        Err(PostalError::LibpostalError { message }) => {
            assert!(message.len() > "Failed to parse address: ".len())
        }
        other => panic!("expected LibpostalError, got {:?}", other),
    }
}
