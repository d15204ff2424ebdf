//! The time-tracking entry: one started and optionally stopped interval on
//! the remote service, and how one is read out of a JSON document.

use vstd::prelude::*;
use crate::json::{
    field_bool, field_i64, field_str, get_bool, get_i64, get_opt_i64, get_opt_string, get_string,
    json_model, opt_field_i64, opt_field_str, value_as_array, JsonData,
};
use crate::timestamp::{check_rfc3339, is_rfc3339};

verus! {

/// One time-tracking record.  `stop` being absent is the sole signal that
/// the entry is currently running.  Timestamps are carried as the RFC 3339
/// text the service sends and expects.
#[derive(Debug, PartialEq)]
pub struct Entry {
    /// Server-assigned identifier.
    pub id: i64,
    /// The workspace the entry belongs to.
    pub workspace_id: i64,
    pub description: String,
    pub billable: bool,
    /// When the entry started, UTC.
    pub start: String,
    /// When the entry stopped, UTC; `None` while it is running.
    pub stop: Option<String>,
    pub task_id: Option<i64>,
    pub project_id: Option<i64>,
}

/// The mathematical shape of an entry.
pub ghost struct EntryView {
    pub id: i64,
    pub workspace_id: i64,
    pub description: Seq<char>,
    pub billable: bool,
    pub start: Seq<char>,
    pub stop: Option<Seq<char>>,
    pub task_id: Option<i64>,
    pub project_id: Option<i64>,
}

impl DeepView for Entry {
    type V = EntryView;

    open spec fn deep_view(&self) -> EntryView {
        self.view()
    }
}

impl View for Entry {
    type V = EntryView;

    open spec fn view(&self) -> EntryView {
        EntryView {
            id: self.id,
            workspace_id: self.workspace_id,
            description: self.description@,
            billable: self.billable,
            start: self.start@,
            stop: match self.stop {
                Some(s) => Some(s@),
                None => None,
            },
            task_id: self.task_id,
            project_id: self.project_id,
        }
    }
}

/// Whether an entry is currently running.
pub open spec fn is_running(e: EntryView) -> bool {
    e.stop is None
}

impl Entry {
    /// Whether this entry is currently running: it has no stop time.
    pub fn running(&self) -> (r: bool)
        ensures
            r == is_running(self@),
    {
        self.stop.is_none()
    }
}

/// The entry a JSON document denotes, if it has the required shape: an
/// object with integer `id` and `workspace_id`, string `description` and
/// `start`, boolean `billable`, and optional (absent or null reading as
/// "none") `stop`, `task_id` and `project_id`.  The `start` and `stop`
/// texts must have the RFC 3339 timestamp shape.
pub open spec fn entry_of_json(j: JsonData) -> Option<EntryView> {
    match j {
        JsonData::Obj(m) => {
            if field_i64(m, "id"@) is Some && field_i64(m, "workspace_id"@) is Some && field_str(
                m,
                "description"@,
            ) is Some && field_bool(m, "billable"@) is Some && field_str(m, "start"@) is Some
                && opt_field_str(m, "stop"@) is Some && opt_field_i64(m, "task_id"@) is Some
                && opt_field_i64(m, "project_id"@) is Some && is_rfc3339(
                field_str(m, "start"@)->Some_0,
            ) && (opt_field_str(m, "stop"@)->Some_0 matches Some(st) ==> is_rfc3339(st)) {
                Some(
                    EntryView {
                        id: field_i64(m, "id"@)->Some_0,
                        workspace_id: field_i64(m, "workspace_id"@)->Some_0,
                        description: field_str(m, "description"@)->Some_0,
                        billable: field_bool(m, "billable"@)->Some_0,
                        start: field_str(m, "start"@)->Some_0,
                        stop: opt_field_str(m, "stop"@)->Some_0,
                        task_id: opt_field_i64(m, "task_id"@)->Some_0,
                        project_id: opt_field_i64(m, "project_id"@)->Some_0,
                    },
                )
            } else {
                None
            }
        },
        _ => None,
    }
}

/// Decode one entry from a parsed JSON value.
pub fn decode_entry(v: &serde_json::Value) -> (r: Option<Entry>)
    ensures
        match r {
            Some(e) => entry_of_json(json_model(*v)) == Some(e@),
            None => entry_of_json(json_model(*v)) is None,
        },
{
    if !crate::json::value_is_obj(v) {
        return None;
    }
    let id = match get_i64(v, "id") {
        Some(x) => x,
        None => {
            return None;
        },
    };
    let workspace_id = match get_i64(v, "workspace_id") {
        Some(x) => x,
        None => {
            return None;
        },
    };
    let description = match get_string(v, "description") {
        Some(x) => x,
        None => {
            return None;
        },
    };
    let billable = match get_bool(v, "billable") {
        Some(x) => x,
        None => {
            return None;
        },
    };
    let start = match get_string(v, "start") {
        Some(x) => x,
        None => {
            return None;
        },
    };
    if !check_rfc3339(start.as_str()) {
        return None;
    }
    let stop = match get_opt_string(v, "stop") {
        Some(x) => x,
        None => {
            return None;
        },
    };
    if let Some(st) = &stop {
        if !check_rfc3339(st.as_str()) {
            return None;
        }
    }
    let task_id = match get_opt_i64(v, "task_id") {
        Some(x) => x,
        None => {
            return None;
        },
    };
    let project_id = match get_opt_i64(v, "project_id") {
        Some(x) => x,
        None => {
            return None;
        },
    };
    Some(Entry { id, workspace_id, description, billable, start, stop, task_id, project_id })
}

/// The entries a JSON document denotes, if it is an array whose every
/// element has the entry shape.
pub open spec fn entries_of_json(j: JsonData) -> Option<Seq<EntryView>> {
    match j {
        JsonData::Arr(items) => {
            if forall|i: int| 0 <= i < items.len() ==> entry_of_json(#[trigger] items[i]) is Some {
                Some(Seq::new(items.len(), |i: int| entry_of_json(items[i])->Some_0))
            } else {
                None
            }
        },
        _ => None,
    }
}

/// Decode a whole array of entries from a parsed JSON value, in the order
/// the array gives them.
pub fn decode_entries(v: &serde_json::Value) -> (r: Option<Vec<Entry>>)
    ensures
        match r {
            Some(es) => entries_of_json(json_model(*v)) == Some(es.deep_view()),
            None => entries_of_json(json_model(*v)) is None,
        },
{
    let arr = match value_as_array(v) {
        Some(a) => a,
        None => {
            return None;
        },
    };
    let ghost items = json_model(*v)->Arr_0;
    let mut out: Vec<Entry> = Vec::new();
    let n = arr.len();
    let mut i: usize = 0;
    while i < n
        invariant
            n == arr@.len(),
            n == items.len(),
            i <= n,
            json_model(*v) == JsonData::Arr(items),
            forall|j: int| 0 <= j < n ==> json_model(#[trigger] arr@[j]) == items[j],
            out@.len() == i,
            forall|j: int| 0 <= j < i ==> entry_of_json(#[trigger] items[j]) == Some(out@[j]@),
        decreases n - i,
    {
        match decode_entry(&arr[i]) {
            Some(e) => {
                out.push(e);
            },
            None => {
                assert(entry_of_json(items[i as int]) is None);
                return None;
            },
        }
        i = i + 1;
    }
    proof {
        assert(entries_of_json(json_model(*v)) == Some(
            Seq::new(items.len(), |j: int| entry_of_json(items[j])->Some_0),
        ));
        assert(out.deep_view() =~= Seq::new(items.len(), |j: int| entry_of_json(items[j])->Some_0));
    }
    Some(out)
}

} // verus!
