use installer_rest::json::{enscapsulate_json, json_escape, FileSelection};

#[test]
fn escape_leaves_plain_text_alone() {
    assert_eq!(json_escape("hello world"), "hello world");
    assert_eq!(json_escape(""), "");
    assert_eq!(json_escape("/install/path"), "/install/path");
}

#[test]
fn escape_quote_and_backslash() {
    assert_eq!(json_escape("a\"b"), "a\\\"b");
    assert_eq!(json_escape("C:\\Program Files"), "C:\\\\Program Files");
}

#[test]
fn escape_named_control_characters() {
    assert_eq!(json_escape("\u{8}\t\n\u{c}\r"), "\\b\\t\\n\\f\\r");
}

#[test]
fn escape_other_control_characters_as_hex() {
    assert_eq!(json_escape("\u{0}"), "\\u0000");
    assert_eq!(json_escape("\u{1}"), "\\u0001");
    assert_eq!(json_escape("\u{1f}"), "\\u001f");
    assert_eq!(json_escape("a\u{b}z"), "a\\u000bz");
}

#[test]
fn escape_passes_non_ascii_through() {
    assert_eq!(json_escape("héllo wörld ✓"), "héllo wörld ✓");
}

#[test]
fn escape_agrees_with_serde_json() {
    let samples = [
        "plain",
        "a\"b\\c",
        "tab\there",
        "line\nbreak",
        "ctrl\u{1}\u{1f}\u{7f}",
        "uni héllo ✓",
        "",
    ];
    for s in samples {
        let quoted = format!("\"{}\"", json_escape(s));
        let serde_quoted = serde_json::to_string(s).unwrap();
        assert_eq!(quoted, serde_quoted);
    }
}

#[test]
fn file_selection_with_path() {
    let selection = FileSelection {
        path: Some("P".to_string()),
    };
    assert_eq!(selection.to_json(), "{\"path\":\"P\"}");
}

#[test]
fn file_selection_cancelled() {
    let selection = FileSelection { path: None };
    assert_eq!(selection.to_json(), "{\"path\":null}");
}

#[test]
fn file_selection_escapes_and_parses_back() {
    let original = "C:\\Users\\me\\\"quoted\" dir";
    let selection = FileSelection {
        path: Some(original.to_string()),
    };
    let body = selection.to_json();
    let value: serde_json::Value = serde_json::from_str(&body).unwrap();
    assert_eq!(
        value.get("path").unwrap(),
        &serde_json::Value::String(original.to_string())
    );
}

#[test]
fn enscapsulate_wraps_json_as_script() {
    assert_eq!(
        enscapsulate_json("config", "{\"a\":1}"),
        "var config = {\"a\":1};"
    );
    assert_eq!(enscapsulate_json("data", "null"), "var data = null;");
}
