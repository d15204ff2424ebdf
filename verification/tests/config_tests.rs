use toggl_tui::config::{parse_config, render_config, save_content, ConfigError, ConfigFile};

#[test]
fn render_writes_the_expected_line() {
    let c = ConfigFile { api_key: Some("abc123".to_string()) };
    assert_eq!(render_config(&c), "api_key = \"abc123\"\n");
}

#[test]
fn render_of_empty_config_is_empty() {
    let c = ConfigFile { api_key: None };
    assert_eq!(render_config(&c), "");
}

#[test]
fn save_then_load_round_trips_plain_key() {
    let content = save_content(None, "abc123");
    let loaded = parse_config(&content).expect("saved file must parse");
    assert_eq!(loaded.api_key, Some("abc123".to_string()));
}

#[test]
fn save_then_load_round_trips_reserved_characters() {
    let key = "a\"b\\c\nd\te\rf";
    let content = save_content(None, key);
    let loaded = parse_config(&content).expect("saved file must parse");
    assert_eq!(loaded.api_key, Some(key.to_string()));
}

#[test]
fn save_escapes_quotes_and_newlines() {
    let content = save_content(None, "a\"b\nc");
    assert_eq!(content, "api_key = \"a\\\"b\\nc\"\n");
}

#[test]
fn second_save_leaves_no_trace_of_first_key() {
    let first = save_content(None, "first-key");
    let second = save_content(Some(&first), "second-key");
    assert!(!second.contains("first-key"));
    let loaded = parse_config(&second).expect("saved file must parse");
    assert_eq!(loaded.api_key, Some("second-key".to_string()));
}

#[test]
fn blank_file_means_no_key() {
    assert_eq!(parse_config("").map(|c| c.api_key), Some(None));
    assert_eq!(parse_config("  \n\t").map(|c| c.api_key), Some(None));
}

#[test]
fn unrecognized_lines_are_ignored() {
    // a wider file: unknown fields around the key line still yield the key
    let text = "other = 1\napi_key = \"x\"\nmore = \"y\"\n";
    assert_eq!(parse_config(text).map(|c| c.api_key), Some(Some("x".to_string())));
    // a file with no key line stores no key
    assert_eq!(parse_config("not a config").map(|c| c.api_key), Some(None));
}

#[test]
fn malformed_key_line_does_not_parse() {
    assert_eq!(parse_config("api_key = \"unterminated"), None);
    assert_eq!(parse_config("api_key = \"bad\\escape\""), None);
    assert_eq!(parse_config("api_key = \"x\" trailing"), None);
}

#[test]
fn trailing_newline_after_key_is_accepted() {
    let parsed = parse_config("api_key = \"x\"\n").expect("must parse");
    assert_eq!(parsed.api_key, Some("x".to_string()));
}

#[test]
fn config_error_descriptions() {
    assert_eq!(ConfigError::PathNotFound.describe(), "unable to find default config path");
    assert_eq!(ConfigError::FileNotParsed.describe(), "unable to parse config file");
    assert_eq!(ConfigError::CantCreateDirectory.describe(), "unable to create config directory");
    assert_eq!(ConfigError::FileNotCreated.describe(), "unable to create a config file");
    assert_eq!(ConfigError::CantWriteToFile.describe(), "unable to write to a config file");
}
