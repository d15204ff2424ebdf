//! The decisions each command makes between its calls to the service.
//! The caller performs the transport; these functions turn what came back
//! into the next request, or into a definitive answer.

use vstd::prelude::*;
use crate::api::{start_request_spec, stop_request_spec, Api, ApiRequest};
use crate::entry::Entry;

verus! {

/// A command-level failure: the account state does not allow the command.
#[derive(Debug, PartialEq, Eq, Structural, Clone, Copy)]
pub enum CommandError {
    /// There is no entry to act on.
    NoTasksFound,
}

impl CommandError {
    /// A human-readable description of the error.
    pub fn describe(&self) -> (r: &'static str)
        ensures
            r@ == "No tasks found"@,
    {
        "No tasks found"
    }
}

/// The first entry of a listing, if any: with the service's most-recent-
/// first order, the most recent entry.
pub fn first_entry(entries: &Vec<Entry>) -> (r: Option<&Entry>)
    ensures
        match r {
            Some(e) => entries@.len() > 0 && *e == entries@[0],
            None => entries@.len() == 0,
        },
{
    if entries.len() == 0 {
        None
    } else {
        Some(&entries[0])
    }
}

/// What the stop command does once the current entry is known: stop it
/// within its workspace, or nothing when no entry is running.
pub fn plan_stop(api: &Api, current: &Option<Entry>) -> (r: Option<ApiRequest>)
    ensures
        match current {
            Some(e) => r matches Some(req) && req@ == stop_request_spec(
                api@,
                e.workspace_id,
                e.id,
            ),
            None => r is None,
        },
{
    match current {
        Some(e) => Some(api.stop_entry(e.workspace_id, e.id)),
        None => None,
    }
}

/// What the restart command does once the listing is known: start a fresh
/// entry copied from the most recent one, stamped `start`.  On an account
/// with no entries it fails definitively — no create request exists in
/// that case.  Nothing checks that the copied entry has stopped: starting
/// a second running entry is possible and deliberately not guarded.
pub fn plan_restart(api: &Api, entries: &Vec<Entry>, start: String) -> (r: Result<
    ApiRequest,
    CommandError,
>)
    ensures
        match r {
            Ok(req) => entries@.len() > 0 && req@ == start_request_spec(
                api@,
                entries@[0]@,
                start@,
            ),
            Err(e) => entries@.len() == 0 && e == CommandError::NoTasksFound,
        },
{
    match first_entry(entries) {
        None => Err(CommandError::NoTasksFound),
        Some(template) => Ok(api.start_entry_at(template, start)),
    }
}

} // verus!
