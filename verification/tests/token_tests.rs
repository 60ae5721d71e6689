use rustech::token::{extract_token, find_execution_value};

#[test]
fn extracts_token_value() {
    let html = "<html><body><form>\
        <input type=\"hidden\" name=\"lt\" value=\"other\"/>\
        <input type=\"hidden\" name=\"execution\" value=\"e1s1\"/>\
        <input type=\"submit\" value=\"Log in\"/>\
        </form></body></html>";
    assert_eq!(extract_token(html), Some("e1s1".to_string()));
}

#[test]
fn missing_token_input() {
    let html = "<html><body><form><input name=\"username\" value=\"u\"/></form></body></html>";
    assert_eq!(extract_token(html), None);
}

#[test]
fn empty_page_has_no_token() {
    assert_eq!(extract_token(""), None);
}

#[test]
fn first_execution_input_wins() {
    let html = "<input name=\"execution\" value=\"first\"><input name=\"execution\" value=\"second\">";
    assert_eq!(extract_token(html), Some("first".to_string()));
}

#[test]
fn execution_input_without_value() {
    let html = "<input name=\"execution\"><input name=\"other\" value=\"x\">";
    assert_eq!(extract_token(html), None);
}

#[test]
fn unnamed_inputs_are_skipped() {
    let html = "<input value=\"x\"><input name=\"execution\" value=\"tok\">";
    assert_eq!(extract_token(html), Some("tok".to_string()));
}

#[test]
fn find_execution_value_on_parsed_fields() {
    let fields = vec![
        ("lt".to_string(), Some("x".to_string())),
        ("execution".to_string(), Some("tok".to_string())),
        ("execution".to_string(), Some("later".to_string())),
    ];
    assert_eq!(find_execution_value(&fields), Some("tok".to_string()));
}

#[test]
fn find_execution_value_on_empty_fields() {
    let fields: Vec<(String, Option<String>)> = Vec::new();
    assert_eq!(find_execution_value(&fields), None);
}
