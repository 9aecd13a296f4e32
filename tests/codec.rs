use deskjarvis::event::{decode_event, Event};
use deskjarvis::extract::extract_json_from_output;
use deskjarvis::wire::{
    decode_task_result, encode_execute_command, encode_task_result, request_id, StepResult,
    TaskResult,
};

fn sample(steps: Vec<StepResult>) -> TaskResult {
    TaskResult {
        success: true,
        message: "done \"quoted\" é".to_string(),
        steps,
        user_instruction: "x".to_string(),
    }
}

fn assert_same(a: &TaskResult, b: &TaskResult) {
    assert_eq!(a.success, b.success);
    assert_eq!(a.message, b.message);
    assert_eq!(a.user_instruction, b.user_instruction);
    assert_eq!(a.steps.len(), b.steps.len());
    for (x, y) in a.steps.iter().zip(b.steps.iter()) {
        assert_eq!(x.step, y.step);
        assert_eq!(x.result, y.result);
    }
}

#[test]
fn extract_is_greedy_first_open_to_last_close() {
    let r = extract_json_from_output("noise{\"a\":1}{\"b\":2}tail");
    assert_eq!(r, Ok("{\"a\":1}{\"b\":2}".to_string()));
}

#[test]
fn extract_single_object_with_unicode_around() {
    let r = extract_json_from_output("日志 {\"k\":\"值\"} 结束");
    assert_eq!(r, Ok("{\"k\":\"值\"}".to_string()));
}

#[test]
fn extract_fails_without_braces() {
    let r = extract_json_from_output("plain text");
    assert_eq!(r, Err("no JSON object found in output: plain text".to_string()));
}

#[test]
fn extract_fails_when_close_precedes_open() {
    assert!(extract_json_from_output("} then {").is_err());
    assert!(extract_json_from_output("").is_err());
}

#[test]
fn extract_empty_object() {
    assert_eq!(extract_json_from_output("{}"), Ok("{}".to_string()));
}

#[test]
fn task_result_round_trip_with_steps() {
    let t = sample(vec![
        StepResult { step: "{\"action\":\"open\"}".to_string(), result: Some("{\"ok\":true}".to_string()) },
        StepResult { step: "\"plain\"".to_string(), result: None },
    ]);
    let text = encode_task_result(&t);
    let back = decode_task_result(&text).expect("decodes");
    assert_same(&t, &back);
}

#[test]
fn task_result_round_trip_empty_steps() {
    let t = sample(vec![]);
    let back = decode_task_result(&encode_task_result(&t)).expect("decodes");
    assert_same(&t, &back);
}

#[test]
fn task_result_encoding_is_exact() {
    let t = TaskResult {
        success: false,
        message: "a\"b".to_string(),
        steps: vec![StepResult { step: "1".to_string(), result: None }],
        user_instruction: "x".to_string(),
    };
    assert_eq!(
        encode_task_result(&t),
        "{\"success\":false,\"message\":\"a\\\"b\",\"steps\":[{\"step\":1,\"result\":null}],\"user_instruction\":\"x\"}"
    );
}

#[test]
fn decode_normalises_member_text() {
    let t = decode_task_result(
        "{\"success\": true, \"message\": \"m\", \"steps\": [{\"step\": {\"x\" : 1}, \"result\": null}, {\"step\": [1, 2]}], \"user_instruction\": \"u\", \"extra\": 3}",
    )
    .expect("decodes");
    assert!(t.success);
    assert_eq!(t.message, "m");
    assert_eq!(t.user_instruction, "u");
    assert_eq!(t.steps.len(), 2);
    assert_eq!(t.steps[0].step, "{\"x\":1}");
    assert_eq!(t.steps[0].result, None);
    assert_eq!(t.steps[1].step, "[1,2]");
    assert_eq!(t.steps[1].result, None);
}

#[test]
fn decode_rejects_incomplete_results() {
    assert!(decode_task_result("{\"success\":true,\"message\":\"m\",\"steps\":[]}").is_none());
    assert!(decode_task_result("{\"success\":\"yes\",\"message\":\"m\",\"steps\":[],\"user_instruction\":\"u\"}").is_none());
    assert!(decode_task_result("{\"success\":true,\"message\":\"m\",\"steps\":[{\"result\":1}],\"user_instruction\":\"u\"}").is_none());
    assert!(decode_task_result("not json").is_none());
}

#[test]
fn execute_command_text() {
    assert_eq!(
        encode_execute_command("task_1", "say \"hi\"", &None),
        Some("{\"cmd\":\"execute\",\"id\":\"task_1\",\"instruction\":\"say \\\"hi\\\"\",\"context\":null}\n".to_string())
    );
    assert_eq!(
        encode_execute_command("task_2", "go", &Some("{\"a\": [1]}".to_string())),
        Some("{\"cmd\":\"execute\",\"id\":\"task_2\",\"instruction\":\"go\",\"context\":{\"a\":[1]}}\n".to_string())
    );
}

#[test]
fn execute_command_is_one_line() {
    let line = encode_execute_command("task_3", "first\nsecond\ttab\u{1}", &Some("{\n  \"k\": \"v\"\n}".to_string()))
        .expect("context is JSON");
    assert_eq!(
        line,
        "{\"cmd\":\"execute\",\"id\":\"task_3\",\"instruction\":\"first\\nsecond\\ttab\\u0001\",\"context\":{\"k\":\"v\"}}\n"
    );
    assert_eq!(line.matches('\n').count(), 1);
    assert!(line.ends_with('\n'));
}

#[test]
fn execute_command_rejects_non_json_context() {
    assert_eq!(encode_execute_command("task_4", "go", &Some("{not json".to_string())), None);
}

#[test]
fn request_ids_are_decimal_millis() {
    assert_eq!(request_id(0), "task_0");
    assert_eq!(request_id(1712345678901), "task_1712345678901");
    assert_eq!(request_id(u64::MAX), "task_18446744073709551615");
}

#[test]
fn decode_control_events() {
    assert!(matches!(decode_event("{\"type\":\"ready\"}"), Some(Event::Ready)));
    assert!(matches!(decode_event("{\"type\":\"pong\"}"), Some(Event::Pong)));
    assert!(matches!(decode_event("{\"type\":\"shutdown_ack\"}"), Some(Event::ShutdownAck)));
}

#[test]
fn decode_error_event_message() {
    match decode_event("{\"type\":\"error\",\"message\":\"no api key\"}") {
        Some(Event::Error(m)) => assert_eq!(m, "no api key"),
        _ => panic!("expected an error event"),
    }
    match decode_event("{\"type\":\"error\"}") {
        Some(Event::Error(m)) => assert_eq!(m, "unknown error"),
        _ => panic!("expected an error event"),
    }
}

#[test]
fn decode_result_event_data() {
    match decode_event("{\"type\":\"result\",\"data\":{\"a\": 1}}") {
        Some(Event::Result(Some(d))) => assert_eq!(d, "{\"a\":1}"),
        _ => panic!("expected a result event"),
    }
    assert!(matches!(decode_event("{\"type\":\"result\"}"), Some(Event::Result(None))));
}

#[test]
fn decode_other_tags_are_progress() {
    let line = "{\"type\":\"progress\",\"pct\":10}";
    match decode_event(line) {
        Some(Event::Progress(l)) => assert_eq!(l, line),
        _ => panic!("expected progress"),
    }
}

#[test]
fn decode_noise_is_no_event() {
    assert!(decode_event("Traceback (most recent call last):").is_none());
    assert!(decode_event("{\"pct\":10}").is_none());
    assert!(decode_event("{\"type\":\"\"}").is_none());
    assert!(decode_event("{\"type\":5}").is_none());
    assert!(decode_event("[1,2]").is_none());
    assert!(decode_event("").is_none());
}
