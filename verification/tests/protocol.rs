use ci_monitor::json::{encode_response, response_object};
use ci_monitor::protocol::{CancelRequest, PipelineKey, RegisterRequest, Response};

fn key(project: &str, merge_request: &str) -> PipelineKey {
    PipelineKey { project_id: project.to_string(), merge_request_id: merge_request.to_string() }
}

#[test]
fn registered_response_names_the_task() {
    let response = Response::registered(&key("6576720", "42"));
    assert_eq!(response.status, "success");
    assert_eq!(response.message, "CI monitoring task registered.");
    assert_eq!(response.task_id, Some("6576720-42".to_string()));
}

#[test]
fn cancelled_response_has_no_task() {
    let response = Response::cancelled();
    assert_eq!(response.status, "success");
    assert_eq!(response.message, "Cancelled matching task.");
    assert_eq!(response.task_id, None);
}

#[test]
fn not_found_response_names_merge_request_and_project() {
    let response = Response::not_found(&key("group/app", "7"));
    assert_eq!(response.status, "error");
    assert_eq!(
        response.message,
        "No active polling task found for MR 7 and Project group/app"
    );
    assert_eq!(response.task_id, None);
}

#[test]
fn invalid_response_is_an_error() {
    let response = Response::invalid();
    assert_eq!(response.status, "error");
    assert_eq!(response.message, "Invalid JSON or unknown command");
    assert_eq!(response.task_id, None);
}

#[test]
fn requests_name_their_pipeline() {
    let register = RegisterRequest {
        project_id: "p".to_string(),
        merge_request_id: "m".to_string(),
        tmux_pane_id: "%3".to_string(),
    };
    let cancel =
        CancelRequest { project_id: "p".to_string(), merge_request_id: "m".to_string() };
    assert_eq!(register.pipeline_key(), key("p", "m"));
    assert_eq!(cancel.pipeline_key(), key("p", "m"));
    assert_eq!(key("p", "m").clone(), key("p", "m"));
    assert_ne!(key("a-b", "c"), key("a", "b-c"));
}

#[test]
fn response_with_task_id_is_encoded() {
    assert_eq!(
        encode_response(&Response::registered(&key("1", "2"))),
        "{\"status\":\"success\",\"message\":\"CI monitoring task registered.\",\"task_id\":\"1-2\"}"
    );
}

#[test]
fn absent_task_id_gets_no_member() {
    assert_eq!(
        encode_response(&Response::cancelled()),
        "{\"status\":\"success\",\"message\":\"Cancelled matching task.\"}"
    );
}

#[test]
fn special_characters_are_escaped() {
    let response = Response {
        status: "a\"b\\c".to_string(),
        message: "\u{8}\t\n\u{c}\r\u{1}\u{1f}\u{7f}/é✓".to_string(),
        task_id: Some("".to_string()),
    };
    assert_eq!(
        encode_response(&response),
        "{\"status\":\"a\\\"b\\\\c\",\"message\":\"\\b\\t\\n\\f\\r\\u0001\\u001f\u{7f}/é✓\",\"task_id\":\"\"}"
    );
}

#[test]
fn responses_that_differ_are_encoded_differently() {
    let absent = Response {
        status: "x".to_string(),
        message: "m\",\"task_id\":\"t".to_string(),
        task_id: None,
    };
    let present = Response {
        status: "x".to_string(),
        message: "m".to_string(),
        task_id: Some("t".to_string()),
    };
    assert_ne!(encode_response(&absent), encode_response(&present));
}

#[test]
fn encoded_responses_can_be_read_by_a_json_parser() {
    let response = Response {
        status: "error".to_string(),
        message: "quote \" and line\nbreak \u{0}".to_string(),
        task_id: Some("ä-1".to_string()),
    };
    let value: serde_json::Value = serde_json::from_str(&encode_response(&response)).unwrap();
    assert_eq!(value["status"], "error");
    assert_eq!(value["message"], "quote \" and line\nbreak \u{0}");
    assert_eq!(value["task_id"], "ä-1");
    assert_eq!(value.as_object().unwrap().len(), 3);
}

#[test]
fn fallback_where_a_member_has_no_json() {
    let fallback =
        "{\"status\":\"error\",\"message\":\"Internal server error during response serialization.\"}";
    let ok = || Ok::<String, ()>("\"x\"".to_string());
    assert_eq!(response_object(Err(()), ok(), None), fallback);
    assert_eq!(response_object(ok(), Err(()), None), fallback);
    assert_eq!(response_object(ok(), ok(), Some(Err(()))), fallback);
    assert_eq!(response_object(ok(), ok(), None), "{\"status\":\"x\",\"message\":\"x\"}");
    assert_eq!(
        response_object(ok(), ok(), Some(ok())),
        "{\"status\":\"x\",\"message\":\"x\",\"task_id\":\"x\"}"
    );
}
