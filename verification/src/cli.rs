//! The command surface of the client: which subcommand was requested and an
//! optional API-key override.  Parsing process arguments happens outside the
//! crate; these are the plain values that parsing produces.

use vstd::prelude::*;

verus! {

/// One authentication subcommand: store a key directly, or exchange a
/// username/password pair for a service-issued key.
#[derive(Debug, PartialEq)]
pub enum AuthCommand {
    /// Store the given API key in the config file.
    Key { api_key: String },
    /// Log in with username and password to obtain an API key.
    Login { username: String, password: String },
}

/// The command requested on the command line.
#[derive(Debug, PartialEq)]
pub enum TogglCommand {
    /// Auth subcommands.
    Auth { command: AuthCommand },
    /// Get profile information.
    Me,
    /// Get my time entries.
    Mine,
    /// Get the last time entry.
    Last,
    /// Show the currently running task.
    Current,
    /// Show today's tasks.
    Today,
    /// Stop the currently running task.
    Stop,
    /// Restart the last task.
    Restart,
    /// Run in interactive mode.
    Interactive,
}

/// The parsed process arguments: an optional API-key override and an
/// optional subcommand.
#[derive(Debug)]
pub struct TogglArgs {
    /// Key for the service API, overriding any stored one.
    pub api_key: Option<String>,
    /// The subcommand, if one was given.
    pub command: Option<TogglCommand>,
}

impl AuthCommand {
    /// An explicit deep copy; the contract states that the copy equals the
    /// original.
    pub fn duplicate(&self) -> (r: AuthCommand)
        ensures
            r == *self,
    {
        match self {
            AuthCommand::Key { api_key } => AuthCommand::Key { api_key: api_key.clone() },
            AuthCommand::Login { username, password } => AuthCommand::Login {
                username: username.clone(),
                password: password.clone(),
            },
        }
    }
}

impl TogglCommand {
    /// An explicit deep copy; the contract states that the copy equals the
    /// original.
    pub fn duplicate(&self) -> (r: TogglCommand)
        ensures
            r == *self,
    {
        match self {
            TogglCommand::Auth { command } => TogglCommand::Auth { command: command.duplicate() },
            TogglCommand::Me => TogglCommand::Me,
            TogglCommand::Mine => TogglCommand::Mine,
            TogglCommand::Last => TogglCommand::Last,
            TogglCommand::Current => TogglCommand::Current,
            TogglCommand::Today => TogglCommand::Today,
            TogglCommand::Stop => TogglCommand::Stop,
            TogglCommand::Restart => TogglCommand::Restart,
            TogglCommand::Interactive => TogglCommand::Interactive,
        }
    }
}

impl TogglArgs {
    /// The effective command: the given subcommand, or interactive mode when
    /// none was given.
    pub fn command(&self) -> (r: TogglCommand)
        ensures
            r == match self.command {
                Some(c) => c,
                None => TogglCommand::Interactive,
            },
    {
        match &self.command {
            Some(c) => c.duplicate(),
            None => TogglCommand::Interactive,
        }
    }
}

} // verus!
