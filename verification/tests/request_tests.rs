use framed_bridge::bridge::BridgeError;
use framed_bridge::request::{
    frame_line, render_command_only, render_command_with_raw, render_command_with_text,
    render_request, PythonRequest,
};

#[test]
fn render_minimal_request() {
    let r = PythonRequest {
        command: b"parse".to_vec(),
        file_path: b"doc.pdf".to_vec(),
        content: None,
        file_name: None,
        options: None,
    };
    assert_eq!(
        render_request(&r),
        b"{\"command\":\"parse\",\"filePath\":\"doc.pdf\"}".to_vec(),
    );
}

#[test]
fn render_full_request() {
    let r = PythonRequest {
        command: b"parse".to_vec(),
        file_path: b"/tmp/a.pdf".to_vec(),
        content: Some(b"raw text".to_vec()),
        file_name: Some(b"a.pdf".to_vec()),
        options: Some(b"{\"ocr\":true}".to_vec()),
    };
    assert_eq!(
        render_request(&r),
        b"{\"command\":\"parse\",\"filePath\":\"/tmp/a.pdf\",\"content\":\"raw text\",\"fileName\":\"a.pdf\",\"options\":{\"ocr\":true}}"
            .to_vec(),
    );
}

#[test]
fn rendered_strings_are_escaped() {
    let r = PythonRequest {
        command: b"parse".to_vec(),
        file_path: b"a\"b\\c\nd".to_vec(),
        content: None,
        file_name: None,
        options: None,
    };
    assert_eq!(
        render_request(&r),
        b"{\"command\":\"parse\",\"filePath\":\"a\\\"b\\\\c\\u000ad\"}".to_vec(),
    );
}

#[test]
fn rendered_request_decodes_back() {
    let r = PythonRequest {
        command: b"parse".to_vec(),
        file_path: b"we\"ird\\path\twith\nbreaks".to_vec(),
        content: Some(b"line one\nline two".to_vec()),
        file_name: None,
        options: Some(b"{\"n\":3}".to_vec()),
    };
    let rendered = render_request(&r);
    let text = String::from_utf8(rendered).unwrap();
    let v: serde_json::Value = serde_json::from_str(&text).expect("must be valid JSON");
    assert_eq!(v["command"], "parse");
    assert_eq!(v["filePath"], "we\"ird\\path\twith\nbreaks");
    assert_eq!(v["content"], "line one\nline two");
    assert_eq!(v["options"]["n"], 3);
}

#[test]
fn command_documents() {
    assert_eq!(
        render_command_only(&b"get_db_data".to_vec()),
        b"{\"command\":\"get_db_data\"}".to_vec(),
    );
    assert_eq!(
        render_command_with_raw(
            &b"update_mapping".to_vec(),
            &b"mappings".to_vec(),
            &b"{\"a\":\"b\"}".to_vec(),
        ),
        b"{\"command\":\"update_mapping\",\"mappings\":{\"a\":\"b\"}}".to_vec(),
    );
    assert_eq!(
        render_command_with_text(
            &b"calculate_metrics".to_vec(),
            &b"items_json".to_vec(),
            &b"[{\"x\":1}]".to_vec(),
        ),
        b"{\"command\":\"calculate_metrics\",\"items_json\":\"[{\\\"x\\\":1}]\"}".to_vec(),
    );
}

#[test]
fn framing_appends_one_line_terminator() {
    let framed = frame_line(&b"{\"command\":\"x\"}".to_vec()).unwrap();
    assert_eq!(framed, b"{\"command\":\"x\"}\n".to_vec());
}

#[test]
fn framing_refuses_embedded_line_breaks() {
    // Only caller-supplied raw JSON can carry a line break into the
    // document; framing such a document is a write failure.
    let body = render_command_with_raw(
        &b"update_mapping".to_vec(),
        &b"mappings".to_vec(),
        &b"{\"a\":\n\"b\"}".to_vec(),
    );
    match frame_line(&body) {
        Err(BridgeError::WriteFailure) => {},
        other => panic!("expected a write failure, got {:?}", other),
    }
}
