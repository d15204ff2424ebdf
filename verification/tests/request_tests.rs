use toggl_tui::api::{content_type, default_base_url, midnight_utc, Api, Method};
use toggl_tui::commands::{first_entry, plan_restart, plan_stop, CommandError};
use toggl_tui::config::parse_config;
use toggl_tui::entry::Entry;
use toggl_tui::payload::{build_entry_data, encode_entry_data};
use toggl_tui::startup::resolve;
use toggl_tui::text::i64_to_string;

fn api() -> Api {
    Api { base_url: default_base_url().to_string(), api_key: "abc123".to_string() }
}

fn template() -> Entry {
    Entry {
        id: 3415527565,
        workspace_id: 8034151,
        description: "Test Item".to_string(),
        billable: false,
        start: "2024-04-21T10:35:28+00:00".to_string(),
        stop: None,
        task_id: None,
        project_id: Some(202151475),
    }
}

#[test]
fn me_request_shape() {
    let r = api().get_me();
    assert_eq!(r.method, Method::Get);
    assert_eq!(r.url, "https://api.track.toggl.com/api/v9/me");
    assert_eq!(r.auth_user, "abc123");
    assert_eq!(r.auth_pass, "api_token");
    assert_eq!(r.body, None);
    assert_eq!(content_type(), "application/json; charset=utf-8");
}

#[test]
fn current_and_mine_request_shapes() {
    let r = api().get_current();
    assert_eq!(r.url, "https://api.track.toggl.com/api/v9/me/time_entries/current");
    assert_eq!(r.method, Method::Get);
    let r = api().get_mine();
    assert_eq!(r.url, "https://api.track.toggl.com/api/v9/me/time_entries");
    assert_eq!(r.method, Method::Get);
}

#[test]
fn today_request_uses_utc_midnight_as_since() {
    // a key stored nowhere, "-k abc123 today": the override wins and the
    // request filters since the UTC midnight of the current day
    let stored = parse_config("").expect("blank config parses");
    assert_eq!(stored.api_key, None);
    let key = resolve(Some("abc123".to_string()), Some(stored)).expect("override wins");
    assert_eq!(key, "abc123");
    let api = Api { base_url: default_base_url().to_string(), api_key: key };

    let now: i64 = 1713695728; // 2024-04-21T10:35:28Z
    assert_eq!(midnight_utc(now), 1713657600); // 2024-04-21T00:00:00Z
    let r = api.get_today_at(now);
    assert_eq!(r.method, Method::Get);
    assert_eq!(
        r.url,
        "https://api.track.toggl.com/api/v9/me/time_entries?since=1713657600"
    );
    assert_eq!(r.auth_user, "abc123");
    assert_eq!(r.auth_pass, "api_token");
}

#[test]
fn midnight_is_idempotent_and_a_whole_day() {
    assert_eq!(midnight_utc(0), 0);
    assert_eq!(midnight_utc(86399), 0);
    assert_eq!(midnight_utc(86400), 86400);
    assert_eq!(midnight_utc(midnight_utc(1713695728)), 1713657600);
}

#[test]
fn stop_request_shape() {
    let r = api().stop_entry(8034151, 3415527565);
    assert_eq!(r.method, Method::Patch);
    assert_eq!(
        r.url,
        "https://api.track.toggl.com/api/v9/workspaces/8034151/time_entries/3415527565/stop"
    );
    assert_eq!(r.body, None);
}

#[test]
fn start_request_maps_the_template() {
    let start = "2024-04-21T10:35:28+00:00".to_string();
    let r = api().start_entry_at(&template(), start.clone());
    assert_eq!(r.method, Method::Post);
    assert_eq!(
        r.url,
        "https://api.track.toggl.com/api/v9/workspaces/8034151/time_entries"
    );
    let body = r.body.expect("a create request has a body");
    // the body must be real JSON carrying exactly the forced and copied fields
    let v: serde_json::Value = serde_json::from_str(&body).expect("body is JSON");
    assert_eq!(v["created_with"], "toggl-cli");
    assert_eq!(v["description"], "Test Item");
    assert_eq!(v["tags"], serde_json::Value::Array(vec![]));
    assert_eq!(v["billable"], false);
    assert_eq!(v["workspace_id"], 8034151);
    assert_eq!(v["duration"], -1);
    assert_eq!(v["start"], "2024-04-21T10:35:28+00:00");
    assert!(v["stop"].is_null());
    assert!(v["task_id"].is_null());
    assert_eq!(v["project_id"], 202151475);
}

#[test]
fn encoded_payload_text_is_exact() {
    let data = build_entry_data(&template(), "2024-04-21T10:35:28+00:00".to_string());
    assert_eq!(data.duration, -1);
    assert_eq!(data.stop, None);
    assert_eq!(data.tags, Vec::<String>::new());
    let body = encode_entry_data(&data);
    assert_eq!(
        body,
        "{\"created_with\":\"toggl-cli\",\"description\":\"Test Item\",\"tags\":[],\
         \"billable\":false,\"workspace_id\":8034151,\"duration\":-1,\
         \"start\":\"2024-04-21T10:35:28+00:00\",\"stop\":null,\
         \"task_id\":null,\"project_id\":202151475}"
    );
}

#[test]
fn payload_escaping_round_trips_through_a_json_parser() {
    let mut t = template();
    t.description = "line\nbreak \"quoted\" back\\slash \u{1} end".to_string();
    let data = build_entry_data(&t, "2024-04-21T10:35:28+00:00".to_string());
    let body = encode_entry_data(&data);
    let v: serde_json::Value = serde_json::from_str(&body).expect("body is JSON");
    assert_eq!(v["description"], "line\nbreak \"quoted\" back\\slash \u{1} end");
}

#[test]
fn restart_with_no_entries_fails_without_a_request() {
    let r = plan_restart(&api(), &Vec::new(), "2024-04-21T10:35:28+00:00".to_string());
    let e = r.expect_err("no entries: the restart must fail");
    assert_eq!(e, CommandError::NoTasksFound);
    assert_eq!(e.describe(), "No tasks found");
}

#[test]
fn restart_starts_from_the_most_recent_entry() {
    let mut older = template();
    older.id = 1;
    older.description = "older".to_string();
    let entries = vec![template(), older];
    let r = plan_restart(&api(), &entries, "2024-04-21T10:35:28+00:00".to_string())
        .expect("entries exist");
    assert_eq!(r.method, Method::Post);
    let v: serde_json::Value =
        serde_json::from_str(&r.body.expect("create body")).expect("body is JSON");
    assert_eq!(v["description"], "Test Item");
}

#[test]
fn stop_plan_follows_the_current_entry() {
    let r = plan_stop(&api(), &Some(template())).expect("a running entry is stopped");
    assert_eq!(r.method, Method::Patch);
    assert_eq!(
        r.url,
        "https://api.track.toggl.com/api/v9/workspaces/8034151/time_entries/3415527565/stop"
    );
    assert_eq!(plan_stop(&api(), &None), None);
}

#[test]
fn first_entry_is_the_head_of_the_listing() {
    assert_eq!(first_entry(&Vec::new()), None);
    let entries = vec![template()];
    assert_eq!(first_entry(&entries), Some(&entries[0]));
}

#[test]
fn login_request_uses_the_given_credentials() {
    let base = default_base_url().to_string();
    let r = Api::get_api_key(&base, "user@example.com", "hunter2");
    assert_eq!(r.method, Method::Get);
    assert_eq!(r.url, "https://api.track.toggl.com/api/v9/me");
    assert_eq!(r.auth_user, "user@example.com");
    assert_eq!(r.auth_pass, "hunter2");
}

#[test]
fn decimal_rendering_is_exact() {
    assert_eq!(i64_to_string(0), "0");
    assert_eq!(i64_to_string(-1), "-1");
    assert_eq!(i64_to_string(1713657600), "1713657600");
    assert_eq!(i64_to_string(i64::MAX), "9223372036854775807");
    assert_eq!(i64_to_string(i64::MIN), "-9223372036854775808");
}
