use toggl_tui::api::{
    classify_status, decode_current_body, decode_current_response, decode_entries_body,
    decode_entries_response, decode_entry_body, decode_me_body, decode_me_response,
    decode_stop_response, decode_token_body, decode_token_response, ApiError,
};

const ENTRY_BODY: &str = r#"{
    "id": 3415527565,
    "workspace_id": 8034151,
    "project_id": 202151475,
    "task_id": null,
    "billable": false,
    "start": "2024-04-21T10:35:28+00:00",
    "stop": null,
    "duration": -1713695728,
    "description": "Test Item",
    "tags": [],
    "duronly": true,
    "user_id": 10324100
}"#;

#[test]
fn current_null_body_means_no_running_entry() {
    let r = decode_current_body("null");
    assert_eq!(r, Ok(None));
}

#[test]
fn current_entry_body_decodes() {
    let e = decode_current_body(ENTRY_BODY).expect("must decode").expect("an entry is running");
    assert_eq!(e.id, 3415527565);
    assert_eq!(e.workspace_id, 8034151);
    assert_eq!(e.description, "Test Item");
    assert!(!e.billable);
    assert_eq!(e.start, "2024-04-21T10:35:28+00:00");
    assert_eq!(e.stop, None);
    assert_eq!(e.task_id, None);
    assert_eq!(e.project_id, Some(202151475));
    assert!(e.running());
}

#[test]
fn current_malformed_body_is_a_serialization_error() {
    assert_eq!(decode_current_body("not json"), Err(ApiError::Serialization));
    assert_eq!(decode_current_body("{\"id\": 1}"), Err(ApiError::Serialization));
    assert_eq!(decode_current_body("42"), Err(ApiError::Serialization));
}

#[test]
fn single_entry_body_decodes() {
    let e = decode_entry_body(ENTRY_BODY).expect("must decode");
    assert_eq!(e.id, 3415527565);
    assert_eq!(e.project_id, Some(202151475));
}

#[test]
fn entry_with_stop_time_is_not_running() {
    let body = r#"{"id": 7, "workspace_id": 8, "description": "d", "billable": true,
        "start": "2024-04-21T10:35:28+00:00", "stop": "2024-04-21T11:00:00+00:00",
        "task_id": 5, "project_id": null}"#;
    let e = decode_entry_body(body).expect("must decode");
    assert!(!e.running());
    assert_eq!(e.stop, Some("2024-04-21T11:00:00+00:00".to_string()));
    assert_eq!(e.task_id, Some(5));
    assert_eq!(e.project_id, None);
    assert!(e.billable);
}

#[test]
fn entry_missing_required_field_fails() {
    // no description
    let body = r#"{"id": 7, "workspace_id": 8, "billable": true,
        "start": "2024-04-21T10:35:28+00:00"}"#;
    assert_eq!(decode_entry_body(body), Err(ApiError::Serialization));
    // wrongly typed id
    let body = r#"{"id": "seven", "workspace_id": 8, "description": "d", "billable": true,
        "start": "2024-04-21T10:35:28+00:00"}"#;
    assert_eq!(decode_entry_body(body), Err(ApiError::Serialization));
}

#[test]
fn entries_list_decodes_in_order() {
    let body = format!(
        "[{},{}]",
        r#"{"id": 2, "workspace_id": 8, "description": "newer", "billable": false,
            "start": "2024-04-21T10:35:28+00:00", "stop": null}"#,
        r#"{"id": 1, "workspace_id": 8, "description": "older", "billable": false,
            "start": "2024-04-20T10:35:28+00:00", "stop": "2024-04-20T11:00:00+00:00"}"#,
    );
    let es = decode_entries_body(&body).expect("must decode");
    assert_eq!(es.len(), 2);
    assert_eq!(es[0].id, 2);
    assert_eq!(es[0].description, "newer");
    assert_eq!(es[1].id, 1);
    assert_eq!(es[1].description, "older");
}

#[test]
fn empty_entries_list_decodes() {
    let es = decode_entries_body("[]").expect("must decode");
    assert!(es.is_empty());
}

#[test]
fn entries_list_with_one_bad_element_fails() {
    let body = r#"[{"id": 1}]"#;
    assert_eq!(decode_entries_body(body), Err(ApiError::Serialization));
    assert_eq!(decode_entries_body("{}"), Err(ApiError::Serialization));
}

#[test]
fn profile_body_decodes() {
    let me = decode_me_body(r#"{"email": "a@b.c", "fullname": "A B", "id": 3}"#)
        .expect("must decode");
    assert_eq!(me.email, "a@b.c");
    assert_eq!(me.fullname, "A B");
}

#[test]
fn profile_missing_field_fails() {
    assert_eq!(decode_me_body(r#"{"email": "a@b.c"}"#), Err(ApiError::Serialization));
    assert_eq!(decode_me_body("null"), Err(ApiError::Serialization));
}

#[test]
fn token_body_decodes() {
    let k = decode_token_body(r#"{"api_token": "SECRET-REDACTED", "email": "a@b.c"}"#)
        .expect("must decode");
    assert_eq!(k.api_token, "SECRET-REDACTED");
}

#[test]
fn token_missing_fails() {
    assert_eq!(decode_token_body(r#"{"email": "a@b.c"}"#), Err(ApiError::Serialization));
}

#[test]
fn bad_timestamp_text_fails_to_decode() {
    // the start text must have the RFC 3339 shape
    let body = r#"{"id": 7, "workspace_id": 8, "description": "d", "billable": true,
        "start": "yesterday-ish"}"#;
    assert_eq!(decode_entry_body(body), Err(ApiError::Serialization));
    // a month of 13 has no RFC 3339 shape
    let body = r#"{"id": 7, "workspace_id": 8, "description": "d", "billable": true,
        "start": "2024-13-01T00:00:00Z"}"#;
    assert_eq!(decode_entry_body(body), Err(ApiError::Serialization));
    // a malformed stop text fails too
    let body = r#"{"id": 7, "workspace_id": 8, "description": "d", "billable": true,
        "start": "2024-04-21T10:35:28Z", "stop": "late"}"#;
    assert_eq!(decode_entry_body(body), Err(ApiError::Serialization));
}

#[test]
fn timestamp_shapes_accepted() {
    // Z offset, lower-case z, numeric offset, fractional seconds
    for ts in [
        "2024-04-21T10:35:28Z",
        "2024-04-21T10:35:28z",
        "2024-04-21T10:35:28+00:00",
        "2024-04-21T10:35:28-05:30",
        "2024-04-21T10:35:28.123456+00:00",
    ] {
        let body = format!(
            r#"{{"id": 7, "workspace_id": 8, "description": "d", "billable": true,
                "start": "{}"}}"#,
            ts
        );
        let e = decode_entry_body(&body).expect("shape must be accepted");
        assert_eq!(e.start, ts);
    }
}

#[test]
fn status_classification_is_the_2xx_range() {
    assert_eq!(classify_status(199), Err(ApiError::Transport));
    assert_eq!(classify_status(200), Ok(()));
    assert_eq!(classify_status(204), Ok(()));
    assert_eq!(classify_status(299), Ok(()));
    assert_eq!(classify_status(300), Err(ApiError::Transport));
    assert_eq!(classify_status(401), Err(ApiError::Transport));
    assert_eq!(classify_status(500), Err(ApiError::Transport));
}

#[test]
fn non_success_responses_are_transport_errors() {
    // even a decodable body does not rescue an error status
    let me = r#"{"email": "a@b.c", "fullname": "A B"}"#;
    assert_eq!(decode_me_response(403, me), Err(ApiError::Transport));
    let me_ok = decode_me_response(200, me).expect("success decodes");
    assert_eq!(me_ok.email, "a@b.c");

    assert_eq!(decode_current_response(500, "null"), Err(ApiError::Transport));
    assert_eq!(decode_current_response(200, "null"), Ok(None));

    assert_eq!(decode_entries_response(404, "[]"), Err(ApiError::Transport));
    assert_eq!(decode_entries_response(200, "[]"), Ok(Vec::new()));

    assert_eq!(decode_entry_response_err(401), Err(ApiError::Transport));

    assert_eq!(
        decode_token_response(401, r#"{"api_token": "k"}"#),
        Err(ApiError::Transport)
    );

    assert_eq!(decode_stop_response(200), Ok(()));
    assert_eq!(decode_stop_response(409), Err(ApiError::Transport));
    // a success status with an undecodable body is a serialization failure
    assert_eq!(decode_me_response(200, "not json"), Err(ApiError::Serialization));
}

fn decode_entry_response_err(status: u16) -> Result<toggl_tui::entry::Entry, ApiError> {
    toggl_tui::api::decode_entry_response(status, ENTRY_BODY)
}

#[test]
fn api_error_descriptions() {
    assert_eq!(ApiError::Transport.describe(), "API error: transport failure");
    assert_eq!(ApiError::Serialization.describe(), "API error: serialization failure");
}
