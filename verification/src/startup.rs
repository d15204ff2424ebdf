//! Startup: merging the parsed arguments with the stored configuration into
//! one effective credential and command.

use vstd::prelude::*;
use crate::cli::{TogglArgs, TogglCommand};
use crate::config::{config_error_text, ConfigError, ConfigFile};

verus! {

/// What can go wrong while assembling the startup configuration.
#[derive(Debug, PartialEq)]
pub enum StartupError {
    /// Loading the stored configuration failed.
    ConfigurationError(ConfigError),
}

impl StartupError {
    /// A human-readable description: the underlying configuration error's
    /// own description.
    pub fn describe(&self) -> (r: &'static str)
        ensures
            r@ == match self {
                StartupError::ConfigurationError(c) => config_error_text(*c),
            },
    {
        match self {
            StartupError::ConfigurationError(c) => c.describe(),
        }
    }
}

/// The effective configuration of one invocation: the resolved API key, if
/// any, and the command to run.
#[derive(Debug)]
pub struct Config {
    pub api_key: Option<String>,
    pub command: TogglCommand,
}

/// The credential that `resolve` picks, as a function of its inputs: the
/// CLI override wins unconditionally; otherwise the stored key; otherwise
/// nothing.
pub open spec fn resolved_key(
    cli_override: Option<String>,
    config: Option<ConfigFile>,
) -> Option<String> {
    match cli_override {
        Some(k) => Some(k),
        None => match config {
            Some(c) => c.api_key,
            None => None,
        },
    }
}

/// Merge the CLI-supplied key with the stored one.  Pure and total: the CLI
/// override takes precedence, then the stored key, then none.  Turning a
/// `None` into a "missing credential" error is the caller's business, since
/// some commands (storing or acquiring a key) need no prior credential.
pub fn resolve(cli_override: Option<String>, config: Option<ConfigFile>) -> (r: Option<String>)
    ensures
        r == resolved_key(cli_override, config),
{
    match cli_override {
        Some(k) => Some(k),
        None => match config {
            Some(c) => c.api_key,
            None => None,
        },
    }
}

/// The credential precedence law: for every `(cli, config)` pair the
/// resolved key is the CLI override when one is present, else the stored
/// key when a config is present, else nothing.
pub proof fn lemma_resolve_precedence(cli_override: Option<String>, config: Option<ConfigFile>)
    ensures
        cli_override is Some ==> resolved_key(cli_override, config) == cli_override,
        cli_override is None && config is Some ==> resolved_key(cli_override, config)
            == config->Some_0.api_key,
        cli_override is None && config is None ==> resolved_key(cli_override, config) is None,
{
}

impl Config {
    /// Merge parsed arguments and stored configuration into the effective
    /// startup configuration.
    pub fn merge_values(args: TogglArgs, stored: Option<ConfigFile>) -> (r: Config)
        ensures
            r.api_key == resolved_key(args.api_key, stored),
            r.command == match args.command {
                Some(c) => c,
                None => TogglCommand::Interactive,
            },
    {
        let command = args.command();
        Config { api_key: resolve(args.api_key, stored), command }
    }

    /// The effective configuration for the given arguments and stored
    /// config file.
    pub fn new(args: TogglArgs, stored: Option<ConfigFile>) -> (r: Config)
        ensures
            r.api_key == resolved_key(args.api_key, stored),
            r.command == match args.command {
                Some(c) => c,
                None => TogglCommand::Interactive,
            },
    {
        Self::merge_values(args, stored)
    }
}

} // verus!
