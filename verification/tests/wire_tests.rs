use framed_bridge::wire::{classify_line, classify_chat_line, LineClass};

fn classify(line: &str, progress_mode: bool) -> LineClass {
    classify_line(&line.as_bytes().to_vec(), progress_mode)
}

#[test]
fn progress_line_is_progress() {
    let r = classify(
        "{\"status\":\"progress\",\"currentPage\":1,\"totalPages\":3,\"percentage\":33,\"message\":\"page 1\"}",
        true,
    );
    match r {
        LineClass::Progress(p) => {
            assert_eq!(p.status, b"progress".to_vec());
            assert_eq!(p.current_page, 1);
            assert_eq!(p.total_pages, 3);
            assert_eq!(p.percentage, 33);
            assert_eq!(p.message, b"page 1".to_vec());
            assert_eq!(p.partial_items, None);
            assert_eq!(p.partial_text, None);
        },
        other => panic!("expected progress, got {:?}", other),
    }
}

#[test]
fn progress_line_with_partials() {
    let r = classify(
        "{\"status\":\"progress\",\"currentPage\":2,\"totalPages\":3,\"percentage\":66,\"message\":\"p\",\"partialItems\":[1,2],\"partialText\":\"so far\"}",
        true,
    );
    match r {
        LineClass::Progress(p) => {
            assert_eq!(p.percentage, 66);
            assert_eq!(p.partial_items, Some(b"[1,2]".to_vec()));
            assert_eq!(p.partial_text, Some(b"so far".to_vec()));
        },
        other => panic!("expected progress, got {:?}", other),
    }
}

#[test]
fn terminal_line_is_terminal() {
    let r = classify("{\"status\":\"success\",\"extractedData\":{\"rows\":12}}", true);
    match r {
        LineClass::Terminal(t) => {
            assert_eq!(t.status, b"success".to_vec());
            assert_eq!(t.extracted_data, Some(b"{\"rows\":12}".to_vec()));
            assert_eq!(t.metrics, None);
            assert_eq!(t.message, None);
            assert_eq!(t.error, None);
        },
        other => panic!("expected terminal, got {:?}", other),
    }
}

#[test]
fn error_terminal_line() {
    let r = classify("{\"status\":\"error\",\"error\":\"boom\",\"message\":\"failed\"}", true);
    match r {
        LineClass::Terminal(t) => {
            assert_eq!(t.status, b"error".to_vec());
            assert_eq!(t.error, Some(b"boom".to_vec()));
            assert_eq!(t.message, Some(b"failed".to_vec()));
        },
        other => panic!("expected terminal, got {:?}", other),
    }
}

#[test]
fn non_json_line_is_noise() {
    assert_eq!(classify("DEBUG: loading...", true), LineClass::Noise);
    assert_eq!(classify("", true), LineClass::Noise);
    assert_eq!(classify("   ", true), LineClass::Noise);
    assert_eq!(classify("[1,2,3]", true), LineClass::Noise);
    assert_eq!(classify("{broken", true), LineClass::Noise);
    assert_eq!(classify("{\"status\":\"x\" \"y\":1}", true), LineClass::Noise);
}

#[test]
fn whitespace_around_object_is_tolerated() {
    let r = classify("  {\"status\":\"ok\"}  ", true);
    match r {
        LineClass::Terminal(t) => assert_eq!(t.status, b"ok".to_vec()),
        other => panic!("expected terminal, got {:?}", other),
    }
}

#[test]
fn progress_shape_with_other_status_is_terminal() {
    // The progress shape parses, but the discriminator is not
    // "progress", so the line falls through to the terminal shape.
    let r = classify(
        "{\"status\":\"done\",\"currentPage\":3,\"totalPages\":3,\"percentage\":100,\"message\":\"end\"}",
        true,
    );
    match r {
        LineClass::Terminal(t) => assert_eq!(t.status, b"done".to_vec()),
        other => panic!("expected terminal, got {:?}", other),
    }
}

#[test]
fn progress_status_without_pages_is_terminal() {
    // Not the progress shape (no page fields), but status is a string,
    // so the terminal shape accepts it.
    let r = classify("{\"status\":\"progress\",\"message\":\"hi\"}", true);
    match r {
        LineClass::Terminal(t) => assert_eq!(t.status, b"progress".to_vec()),
        other => panic!("expected terminal, got {:?}", other),
    }
}

#[test]
fn duplicate_status_is_noise() {
    assert_eq!(
        classify("{\"status\":\"a\",\"status\":\"b\"}", true),
        LineClass::Noise,
    );
}

#[test]
fn page_count_beyond_i32_is_terminal() {
    // 3000000000 does not fit the page counter, so the progress shape
    // fails; the terminal shape ignores the unknown-kind member.
    let r = classify(
        "{\"status\":\"progress\",\"currentPage\":3000000000,\"totalPages\":3,\"percentage\":1,\"message\":\"m\"}",
        true,
    );
    match r {
        LineClass::Terminal(t) => assert_eq!(t.status, b"progress".to_vec()),
        other => panic!("expected terminal, got {:?}", other),
    }
}

#[test]
fn page_counters_span_the_full_range() {
    let r = classify(
        "{\"status\":\"progress\",\"currentPage\":2147483647,\"totalPages\":-2147483648,\"percentage\":0,\"message\":\"m\"}",
        true,
    );
    match r {
        LineClass::Progress(p) => {
            assert_eq!(p.current_page, i32::MAX);
            assert_eq!(p.total_pages, i32::MIN);
            assert_eq!(p.percentage, 0);
        },
        other => panic!("expected progress, got {:?}", other),
    }
}

#[test]
fn without_progress_mode_progress_lines_are_terminal() {
    let r = classify(
        "{\"status\":\"progress\",\"currentPage\":1,\"totalPages\":3,\"percentage\":33,\"message\":\"page 1\"}",
        false,
    );
    match r {
        LineClass::Terminal(t) => assert_eq!(t.status, b"progress".to_vec()),
        other => panic!("expected terminal, got {:?}", other),
    }
}

#[test]
fn string_contents_keep_escapes() {
    let r = classify("{\"status\":\"a\\\"b\\\\c\"}", true);
    match r {
        LineClass::Terminal(t) => assert_eq!(t.status, b"a\\\"b\\\\c".to_vec()),
        other => panic!("expected terminal, got {:?}", other),
    }
}

#[test]
fn nested_payloads_are_skipped_whole() {
    let r = classify(
        "{\"status\":\"success\",\"metadata\":{\"a\":[1,{\"b\":\"}\"}],\"c\":null},\"metrics\":[true,false]}",
        true,
    );
    match r {
        LineClass::Terminal(t) => {
            assert_eq!(t.metadata, Some(b"{\"a\":[1,{\"b\":\"}\"}],\"c\":null}".to_vec()));
            assert_eq!(t.metrics, Some(b"[true,false]".to_vec()));
        },
        other => panic!("expected terminal, got {:?}", other),
    }
}

#[test]
fn status_must_be_a_string() {
    assert_eq!(classify("{\"status\":5}", true), LineClass::Noise);
    assert_eq!(classify("{\"status\":null}", true), LineClass::Noise);
}

#[test]
fn classification_agrees_with_a_reference_decoder_on_samples() {
    // Lines our scanner rejects as noise are not decodable JSON
    // objects for the reference decoder either, and vice versa.
    let samples = [
        "{\"status\":\"ok\"}",
        "not json",
        "{\"status\":\"progress\",\"currentPage\":1,\"totalPages\":2,\"percentage\":50,\"message\":\"m\"}",
        "{\"a\":1,}",
        "{\"a\" 1}",
        "  {\"deep\":{\"x\":[1,2,{\"y\":\"z\"}]}}",
        "[]",
        "{}",
    ];
    for s in samples {
        let ours = framed_bridge::json::top_entries(&s.as_bytes().to_vec()).is_some();
        let reference = serde_json::from_str::<serde_json::Value>(s)
            .map(|v| v.is_object())
            .unwrap_or(false);
        assert_eq!(ours, reference, "disagree on {:?}", s);
    }
}

#[test]
fn chat_line_with_content_and_done() {
    let r = classify_chat_line(&b"{\"message\":{\"content\":\"Hi\"},\"done\":false}".to_vec());
    let ev = r.expect("chat line should decode");
    assert_eq!(ev.content, Some(b"Hi".to_vec()));
    assert!(!ev.done);
}

#[test]
fn chat_final_line_sets_done() {
    let r = classify_chat_line(&b"{\"done\":true}".to_vec());
    let ev = r.expect("chat line should decode");
    assert_eq!(ev.content, None);
    assert!(ev.done);
}

#[test]
fn chat_non_json_line_is_skipped() {
    assert_eq!(classify_chat_line(&b"garbage".to_vec()), None);
}

#[test]
fn chat_message_without_object_has_no_content() {
    let ev = classify_chat_line(&b"{\"message\":\"plain\",\"done\":false}".to_vec()).unwrap();
    assert_eq!(ev.content, None);
    let ev = classify_chat_line(&b"{\"message\":{\"content\":7},\"done\":true}".to_vec()).unwrap();
    assert_eq!(ev.content, None);
    assert!(ev.done);
}

#[test]
fn chat_last_member_wins() {
    let ev = classify_chat_line(&b"{\"done\":false,\"done\":true}".to_vec()).unwrap();
    assert!(ev.done);
}
