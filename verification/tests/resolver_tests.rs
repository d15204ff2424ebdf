use toggl_tui::cli::{TogglArgs, TogglCommand};
use toggl_tui::config::ConfigFile;
use toggl_tui::startup::{resolve, Config};

fn cfg(key: Option<&str>) -> ConfigFile {
    ConfigFile { api_key: key.map(|k| k.to_string()) }
}

#[test]
fn resolve_prefers_cli_override() {
    let r = resolve(Some("cli-key".to_string()), Some(cfg(Some("stored-key"))));
    assert_eq!(r, Some("cli-key".to_string()));
}

#[test]
fn resolve_cli_override_wins_without_config() {
    let r = resolve(Some("cli-key".to_string()), None);
    assert_eq!(r, Some("cli-key".to_string()));
}

#[test]
fn resolve_falls_back_to_stored_key() {
    let r = resolve(None, Some(cfg(Some("stored-key"))));
    assert_eq!(r, Some("stored-key".to_string()));
}

#[test]
fn resolve_none_when_nothing_is_known() {
    assert_eq!(resolve(None, None), None);
    assert_eq!(resolve(None, Some(cfg(None))), None);
}

#[test]
fn merge_keeps_command_and_defaults_to_interactive() {
    let args = TogglArgs { api_key: None, command: Some(TogglCommand::Stop) };
    let merged = Config::new(args, None);
    assert_eq!(merged.command, TogglCommand::Stop);
    assert_eq!(merged.api_key, None);

    let args = TogglArgs { api_key: Some("k".to_string()), command: None };
    let merged = Config::new(args, Some(cfg(Some("other"))));
    assert_eq!(merged.command, TogglCommand::Interactive);
    assert_eq!(merged.api_key, Some("k".to_string()));
}

#[test]
fn command_accessor_defaults_to_interactive() {
    let args = TogglArgs { api_key: None, command: None };
    assert_eq!(args.command(), TogglCommand::Interactive);
    let args = TogglArgs { api_key: None, command: Some(TogglCommand::Restart) };
    assert_eq!(args.command(), TogglCommand::Restart);
}
