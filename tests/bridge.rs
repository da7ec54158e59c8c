use agent_bridge::{
    classify, classify_trimmed, decode, encode_request, on_read, request_for, response_from_members, BridgeError,
    LineKind, Member, ProcessSlot, ReadEvent, ReadStep,
};

fn finished(step: ReadStep) -> Result<String, BridgeError> {
    match step {
        ReadStep::Finish(r) => r,
        ReadStep::KeepReading => panic!("the exchange should have ended"),
    }
}

#[test]
fn start_twice_spawns_once() {
    let mut slot: ProcessSlot<u32> = ProcessSlot::new();
    let mut spawns = 0;
    let first = slot.start(|| {
        spawns += 1;
        Ok(7)
    });
    assert_eq!(first.unwrap(), "Agent started successfully");
    let second = slot.start(|| {
        spawns += 1;
        Ok(8)
    });
    assert_eq!(second.unwrap(), "Agent already running");
    assert_eq!(spawns, 1);
    assert_eq!(slot.handle, Some(7));
}

#[test]
fn failed_spawn_holds_nothing() {
    let mut slot: ProcessSlot<u32> = ProcessSlot::new();
    let r = slot.start(|| Err("No such file or directory".to_string()));
    match r {
        Err(BridgeError::SpawnFailure(m)) => assert_eq!(m, "No such file or directory"),
        other => panic!("unexpected {:?}", other),
    }
    assert!(!slot.is_running());
    assert_eq!(slot.handle, None);
}

#[test]
fn running_only_after_start() {
    let mut slot: ProcessSlot<u32> = ProcessSlot::new();
    assert!(!slot.is_running());
    slot.start(|| Ok(1)).unwrap();
    assert!(slot.is_running());
}

#[test]
fn send_before_start_is_not_running() {
    let slot: ProcessSlot<u32> = ProcessSlot::new();
    let r = request_for(slot.is_running(), true, true, "hi", "42");
    assert!(matches!(r, Err(BridgeError::NotRunning)));
}

#[test]
fn missing_stdin_is_reported() {
    let r = request_for(true, false, true, "hi", "42");
    assert!(matches!(r, Err(BridgeError::StdinUnavailable)));
}

#[test]
fn missing_stdout_is_reported() {
    let r = request_for(true, true, false, "hi", "42");
    assert!(matches!(r, Err(BridgeError::StdoutUnavailable)));
}

#[test]
fn request_line_is_one_json_line() {
    let line = request_for(true, true, true, "hi", "42").unwrap();
    assert_eq!(line, "{\"id\":\"42\",\"prompt\":\"hi\"}\n");
}

#[test]
fn request_line_escapes_text() {
    let line = encode_request("a\"b", "line1\nline2").unwrap();
    assert_eq!(line, "{\"id\":\"a\\\"b\",\"prompt\":\"line1\\nline2\"}\n");
}

#[test]
fn trace_line_is_skipped_and_response_returned() {
    let trace = on_read(ReadEvent::Line("ADK_EVENT: thinking\n".to_string()));
    assert!(matches!(trace, ReadStep::KeepReading));
    let resp = on_read(ReadEvent::Line("{\"type\":\"response\",\"id\":\"42\",\"content\":\"hello\"}\n".to_string()));
    assert_eq!(finished(resp).unwrap(), "hello");
}

#[test]
fn blank_line_is_skipped() {
    assert!(matches!(on_read(ReadEvent::Line("   \n".to_string())), ReadStep::KeepReading));
    assert!(matches!(on_read(ReadEvent::Line("\n".to_string())), ReadStep::KeepReading));
}

#[test]
fn end_of_output_is_empty_output() {
    assert!(matches!(finished(on_read(ReadEvent::End)), Err(BridgeError::EmptyOutput)));
}

#[test]
fn read_error_is_read_failure() {
    match finished(on_read(ReadEvent::Failed("broken pipe".to_string()))) {
        Err(BridgeError::ReadFailure(m)) => assert_eq!(m, "broken pipe"),
        other => panic!("unexpected {:?}", other),
    }
}

#[test]
fn invalid_json_is_decode_failure_with_line() {
    match finished(on_read(ReadEvent::Line("not json\n".to_string()))) {
        Err(BridgeError::DecodeFailure { line, detail }) => {
            assert!(line.contains("not json"));
            assert!(!detail.is_empty());
        }
        other => panic!("unexpected {:?}", other),
    }
}

#[test]
fn classify_trims_before_looking() {
    assert_eq!(classify("  ADK_EVENT: step 1  \n"), LineKind::Trace);
    assert_eq!(classify(" \t \n"), LineKind::Blank);
    assert_eq!(classify("{\"type\":\"x\"}"), LineKind::Candidate);
    assert_eq!(classify("ADK_EVENT"), LineKind::Candidate);
}

#[test]
fn classify_trimmed_kinds() {
    assert_eq!(classify_trimmed(""), LineKind::Blank);
    assert_eq!(classify_trimmed("ADK_EVENT:"), LineKind::Trace);
    assert_eq!(classify_trimmed(" ADK_EVENT:"), LineKind::Candidate);
}

#[test]
fn decode_reads_all_fields() {
    let r = decode("{\"type\":\"final\",\"id\":\"7\",\"content\":\"done\",\"extra\":[1,2]}").unwrap();
    assert_eq!(r.msg_type, "final");
    assert_eq!(r.id, Some("7".to_string()));
    assert_eq!(r.content, "done");
}

#[test]
fn decode_accepts_missing_or_null_id() {
    let a = decode("{\"type\":\"final\",\"content\":\"x\"}").unwrap();
    assert_eq!(a.id, None);
    let b = decode("{\"type\":\"final\",\"id\":null,\"content\":\"x\"}").unwrap();
    assert_eq!(b.id, None);
}

#[test]
fn decode_rejects_wrong_shape() {
    let line = "{\"type\":\"final\",\"id\":\"1\"}";
    match decode(line) {
        Err(BridgeError::DecodeFailure { line: l, detail }) => {
            assert_eq!(l, line);
            assert_eq!(detail, "field `content` is missing or not a string");
        }
        other => panic!("unexpected {:?}", other),
    }
    assert!(matches!(decode("{\"type\":\"final\",\"id\":3,\"content\":\"x\"}"), Err(BridgeError::DecodeFailure { .. })));
    assert!(matches!(decode("[1,2]"), Err(BridgeError::DecodeFailure { .. })));
}

#[test]
fn members_make_a_response() {
    let r = response_from_members("raw", Member::Text("t".to_string()), Member::Null, Member::Text("c".to_string()))
        .unwrap();
    assert_eq!(r.msg_type, "t");
    assert_eq!(r.id, None);
    assert_eq!(r.content, "c");
    let bad = response_from_members("raw", Member::Other, Member::Absent, Member::Text("c".to_string()));
    match bad {
        Err(BridgeError::DecodeFailure { line, detail }) => {
            assert_eq!(line, "raw");
            assert_eq!(detail, "field `type` is missing or not a string");
        }
        other => panic!("unexpected {:?}", other),
    }
}

#[test]
fn error_messages() {
    assert_eq!(BridgeError::NotRunning.message(), "Agent not running. Call start_agent first.");
    assert_eq!(BridgeError::EmptyOutput.message(), "Agent process produced no output");
    assert_eq!(BridgeError::SpawnFailure("boom".to_string()).message(), "Failed to start agent: boom");
    let e = BridgeError::DecodeFailure { line: "not json".to_string(), detail: "expected value".to_string() };
    assert_eq!(e.message(), "Failed to parse response: expected value, line: not json");
}

#[test]
fn wrong_id_type_is_named() {
    match decode("{\"type\":\"final\",\"id\":3,\"content\":\"x\"}") {
        Err(BridgeError::DecodeFailure { detail, .. }) => assert_eq!(detail, "field `id` is neither a string nor null"),
        other => panic!("unexpected {:?}", other),
    }
}

#[test]
fn trace_lines_do_not_change_the_result() {
    let candidate = "{\"type\":\"response\",\"content\":\"same\"}\n";
    let mut with_traces = Vec::new();
    for l in ["ADK_EVENT: a\n", "\n", "  ADK_EVENT:b\n", candidate] {
        match on_read(ReadEvent::Line(l.to_string())) {
            ReadStep::KeepReading => {}
            ReadStep::Finish(r) => with_traces.push(r.unwrap()),
        }
    }
    let alone = finished(on_read(ReadEvent::Line(candidate.to_string()))).unwrap();
    assert_eq!(with_traces, vec![alone.clone()]);
    assert_eq!(alone, "same");
}

#[test]
fn unicode_white_space_is_trimmed() {
    assert_eq!(classify("\u{3000}ADK_EVENT: step\u{a0}"), LineKind::Trace);
    assert_eq!(classify("\u{2028}\u{85}"), LineKind::Blank);
}

#[test]
fn control_characters_are_escaped() {
    let line = encode_request("\u{1}", "tab\there\u{8}").unwrap();
    assert_eq!(line, "{\"id\":\"\\u0001\",\"prompt\":\"tab\\there\\b\"}\n");
}
