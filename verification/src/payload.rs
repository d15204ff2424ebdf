//! The outbound payload for creating a time entry, and its JSON encoding.
//!
//! The service expects one JSON object per created entry.  The encoder
//! here is verified: the contract states the exact text produced for any
//! payload, escaping included.

use vstd::prelude::*;
use vstd::string::{StrSliceExecFns, StringExecFns};
use crate::entry::{Entry, EntryView};
use crate::text::{chars_to_string, dec_int, digit_char, push_i64_dec, push_str_chars};

verus! {

/// The body of a "create entry" request, field for field.
#[derive(Debug, PartialEq)]
pub struct EntryData {
    pub created_with: String,
    pub description: String,
    pub tags: Vec<String>,
    pub billable: bool,
    pub workspace_id: i64,
    pub duration: i64,
    pub start: String,
    pub stop: Option<String>,
    pub task_id: Option<i64>,
    pub project_id: Option<i64>,
}

/// The mathematical shape of the payload.
pub ghost struct EntryDataView {
    pub created_with: Seq<char>,
    pub description: Seq<char>,
    pub tags: Seq<Seq<char>>,
    pub billable: bool,
    pub workspace_id: i64,
    pub duration: i64,
    pub start: Seq<char>,
    pub stop: Option<Seq<char>>,
    pub task_id: Option<i64>,
    pub project_id: Option<i64>,
}

impl View for EntryData {
    type V = EntryDataView;

    open spec fn view(&self) -> EntryDataView {
        EntryDataView {
            created_with: self.created_with@,
            description: self.description@,
            tags: self.tags.deep_view(),
            billable: self.billable,
            workspace_id: self.workspace_id,
            duration: self.duration,
            start: self.start@,
            stop: match self.stop {
                Some(s) => Some(s@),
                None => None,
            },
            task_id: self.task_id,
            project_id: self.project_id,
        }
    }
}

/// The payload that starts a fresh entry from a template: description,
/// billable flag, workspace, task and project are copied; the duration is
/// forced to -1 (meaning "running"), the stop time left out, the tag list
/// empty, and the start time stamped by the caller.
pub open spec fn template_payload(t: EntryView, start: Seq<char>) -> EntryDataView {
    EntryDataView {
        created_with: "toggl-cli"@,
        description: t.description,
        tags: Seq::empty(),
        billable: t.billable,
        workspace_id: t.workspace_id,
        duration: -1i64,
        start: start,
        stop: None,
        task_id: t.task_id,
        project_id: t.project_id,
    }
}

/// Build the payload that starts a fresh entry from `template`, stamped
/// with the given start time.
pub fn build_entry_data(template: &Entry, start: String) -> (r: EntryData)
    ensures
        r@ == template_payload(template@, start@),
{
    let r = EntryData {
        created_with: String::from_str("toggl-cli"),
        description: template.description.clone(),
        tags: Vec::new(),
        billable: template.billable,
        workspace_id: template.workspace_id,
        duration: -1i64,
        start,
        stop: None,
        task_id: template.task_id,
        project_id: template.project_id,
    };
    proof {
        assert(r@.tags =~= Seq::<Seq<char>>::empty());
    }
    r
}

// ---------------------------------------------------------------------------
// JSON encoding.
// ---------------------------------------------------------------------------

/// A hexadecimal digit character (lower case).
pub open spec fn hex_digit(d: nat) -> char {
    if d < 10 {
        digit_char(d)
    } else if d == 10 {
        'a'
    } else if d == 11 {
        'b'
    } else if d == 12 {
        'c'
    } else if d == 13 {
        'd'
    } else if d == 14 {
        'e'
    } else {
        'f'
    }
}

/// How one character is written inside a JSON string: quote, backslash and
/// the named control characters get a two-character escape, any other
/// control character a `\u00..` escape, everything else stands for itself.
pub open spec fn json_escape_char(c: char) -> Seq<char> {
    if c == '"' {
        seq!['\\', '"']
    } else if c == '\\' {
        seq!['\\', '\\']
    } else if c == '\n' {
        seq!['\\', 'n']
    } else if c == '\r' {
        seq!['\\', 'r']
    } else if c == '\t' {
        seq!['\\', 't']
    } else if (c as u32) < 32 {
        seq!['\\', 'u', '0', '0', hex_digit((c as u32 / 16) as nat), hex_digit((c as u32 % 16) as nat)]
    } else {
        seq![c]
    }
}

/// How a whole string is written inside its JSON quotes.
pub open spec fn json_escape(s: Seq<char>) -> Seq<char>
    decreases s.len(),
{
    if s.len() == 0 {
        Seq::empty()
    } else {
        json_escape_char(s[0]) + json_escape(s.drop_first())
    }
}

/// JSON escaping distributes over concatenation.
pub proof fn lemma_json_escape_append(a: Seq<char>, b: Seq<char>)
    ensures
        json_escape(a + b) == json_escape(a) + json_escape(b),
    decreases a.len(),
{
    if a.len() == 0 {
        assert(a + b =~= b);
        assert(json_escape(a) + json_escape(b) =~= json_escape(b));
    } else {
        lemma_json_escape_append(a.drop_first(), b);
        assert((a + b).drop_first() =~= a.drop_first() + b);
        assert(json_escape(a + b) =~= json_escape(a) + json_escape(b));
    }
}

/// A JSON string literal: the escaped text between quotes.
pub open spec fn json_string(s: Seq<char>) -> Seq<char> {
    seq!['"'] + json_escape(s) + seq!['"']
}

/// A JSON boolean literal.
pub open spec fn json_bool(b: bool) -> Seq<char> {
    if b {
        "true"@
    } else {
        "false"@
    }
}

/// An optional number: `null` when absent.
pub open spec fn json_opt_i64(v: Option<i64>) -> Seq<char> {
    match v {
        None => "null"@,
        Some(i) => dec_int(i as int),
    }
}

/// An optional string: `null` when absent.
pub open spec fn json_opt_string(v: Option<Seq<char>>) -> Seq<char> {
    match v {
        None => "null"@,
        Some(s) => json_string(s),
    }
}

/// The elements of a JSON array of strings, comma-separated.
pub open spec fn json_string_list(items: Seq<Seq<char>>) -> Seq<char>
    decreases items.len(),
{
    if items.len() == 0 {
        Seq::empty()
    } else if items.len() == 1 {
        json_string(items[0])
    } else {
        json_string(items[0]) + seq![','] + json_string_list(items.drop_first())
    }
}

/// A JSON array of strings.
pub open spec fn json_string_array(items: Seq<Seq<char>>) -> Seq<char> {
    seq!['['] + json_string_list(items) + seq![']']
}

/// Appending one more string to the list appends one more element to its
/// rendering (with a separating comma unless the list was empty).
proof fn lemma_json_string_list_push(items: Seq<Seq<char>>, x: Seq<char>)
    ensures
        json_string_list(items.push(x)) == if items.len() == 0 {
            json_string(x)
        } else {
            json_string_list(items) + seq![','] + json_string(x)
        },
    decreases items.len(),
{
    if items.len() == 0 {
        assert(items.push(x).len() == 1);
        assert(items.push(x)[0] == x);
    } else {
        lemma_json_string_list_push(items.drop_first(), x);
        assert(items.push(x).drop_first() =~= items.drop_first().push(x));
        assert(items.push(x)[0] == items[0]);
        if items.len() == 1 {
            assert(json_string_list(items.push(x)) =~= json_string_list(items) + seq![',']
                + json_string(x));
        } else {
            assert(json_string_list(items.push(x)) =~= json_string_list(items) + seq![',']
                + json_string(x));
        }
    }
}

/// The exact JSON text of a payload: one object, fields in the fixed
/// order the service is sent.
pub open spec fn entry_data_json(d: EntryDataView) -> Seq<char> {
    "{\"created_with\":"@ + json_string(d.created_with) + ",\"description\":"@ + json_string(
        d.description,
    ) + ",\"tags\":"@ + json_string_array(d.tags) + ",\"billable\":"@ + json_bool(d.billable)
        + ",\"workspace_id\":"@ + dec_int(d.workspace_id as int) + ",\"duration\":"@ + dec_int(
        d.duration as int,
    ) + ",\"start\":"@ + json_string(d.start) + ",\"stop\":"@ + json_opt_string(d.stop)
        + ",\"task_id\":"@ + json_opt_i64(d.task_id) + ",\"project_id\":"@ + json_opt_i64(
        d.project_id,
    ) + "}"@
}

/// Append the escaped form of `s` (without quotes) to `out`.
fn push_json_escaped(out: &mut Vec<char>, s: &str)
    ensures
        final(out)@ == old(out)@ + json_escape(s@),
{
    let n = s.unicode_len();
    let mut i: usize = 0;
    while i < n
        invariant
            n == s@.len(),
            i <= n,
            out@ == old(out)@ + json_escape(s@.subrange(0, i as int)),
        decreases n - i,
    {
        let c = s.get_char(i);
        if c == '"' {
            out.push('\\');
            out.push('"');
        } else if c == '\\' {
            out.push('\\');
            out.push('\\');
        } else if c == '\n' {
            out.push('\\');
            out.push('n');
        } else if c == '\r' {
            out.push('\\');
            out.push('r');
        } else if c == '\t' {
            out.push('\\');
            out.push('t');
        } else if (c as u32) < 32 {
            out.push('\\');
            out.push('u');
            out.push('0');
            out.push('0');
            out.push(hex_digit_exec(c as u32 / 16));
            out.push(hex_digit_exec(c as u32 % 16));
        } else {
            out.push(c);
        }
        proof {
            let pre = s@.subrange(0, i as int);
            assert(s@.subrange(0, i + 1 as int) =~= pre + seq![s@[i as int]]);
            lemma_json_escape_append(pre, seq![s@[i as int]]);
            assert(seq![s@[i as int]].drop_first() =~= Seq::<char>::empty());
            assert(json_escape(seq![s@[i as int]]) =~= json_escape_char(s@[i as int])
                + json_escape(Seq::<char>::empty()));
            assert(json_escape(seq![s@[i as int]]) =~= json_escape_char(s@[i as int]));
            assert(out@ =~= old(out)@ + json_escape(s@.subrange(0, i + 1 as int)));
        }
        i = i + 1;
    }
    assert(s@.subrange(0, n as int) =~= s@);
}

fn hex_digit_exec(d: u32) -> (c: char)
    requires
        d < 16,
    ensures
        c == hex_digit(d as nat),
{
    if d == 0 {
        '0'
    } else if d == 1 {
        '1'
    } else if d == 2 {
        '2'
    } else if d == 3 {
        '3'
    } else if d == 4 {
        '4'
    } else if d == 5 {
        '5'
    } else if d == 6 {
        '6'
    } else if d == 7 {
        '7'
    } else if d == 8 {
        '8'
    } else if d == 9 {
        '9'
    } else if d == 10 {
        'a'
    } else if d == 11 {
        'b'
    } else if d == 12 {
        'c'
    } else if d == 13 {
        'd'
    } else if d == 14 {
        'e'
    } else {
        'f'
    }
}

/// Append a quoted JSON string to `out`.
fn push_json_string(out: &mut Vec<char>, s: &str)
    ensures
        final(out)@ == old(out)@ + json_string(s@),
{
    out.push('"');
    push_json_escaped(out, s);
    out.push('"');
    assert(out@ =~= old(out)@ + json_string(s@));
}

/// Append a JSON array of strings to `out`.
fn push_json_string_array(out: &mut Vec<char>, items: &Vec<String>)
    ensures
        final(out)@ == old(out)@ + json_string_array(items.deep_view()),
{
    out.push('[');
    let n = items.len();
    let mut i: usize = 0;
    while i < n
        invariant
            n == items@.len(),
            i <= n,
            out@ == old(out)@ + seq!['['] + json_string_list(items.deep_view().subrange(0, i as int)),
        decreases n - i,
    {
        if i > 0 {
            out.push(',');
        }
        push_json_string(out, items[i].as_str());
        proof {
            let views = items.deep_view();
            let pre = views.subrange(0, i as int);
            assert(views.subrange(0, i + 1 as int) =~= pre.push(views[i as int]));
            lemma_json_string_list_push(pre, views[i as int]);
            assert(views[i as int] == items@[i as int]@);
            assert(out@ =~= old(out)@ + seq!['['] + json_string_list(
                views.subrange(0, i + 1 as int),
            ));
        }
        i = i + 1;
    }
    out.push(']');
    proof {
        assert(items.deep_view().subrange(0, n as int) =~= items.deep_view());
        assert(out@ =~= old(out)@ + json_string_array(items.deep_view()));
    }
}

/// The exact JSON text of the payload.
pub fn encode_entry_data(d: &EntryData) -> (r: String)
    ensures
        r@ == entry_data_json(d@),
{
    let mut out: Vec<char> = Vec::new();
    push_str_chars(&mut out, "{\"created_with\":");
    push_json_string(&mut out, d.created_with.as_str());
    push_str_chars(&mut out, ",\"description\":");
    push_json_string(&mut out, d.description.as_str());
    push_str_chars(&mut out, ",\"tags\":");
    push_json_string_array(&mut out, &d.tags);
    push_str_chars(&mut out, ",\"billable\":");
    if d.billable {
        push_str_chars(&mut out, "true");
    } else {
        push_str_chars(&mut out, "false");
    }
    push_str_chars(&mut out, ",\"workspace_id\":");
    push_i64_dec(&mut out, d.workspace_id);
    push_str_chars(&mut out, ",\"duration\":");
    push_i64_dec(&mut out, d.duration);
    push_str_chars(&mut out, ",\"start\":");
    push_json_string(&mut out, d.start.as_str());
    push_str_chars(&mut out, ",\"stop\":");
    match &d.stop {
        None => push_str_chars(&mut out, "null"),
        Some(s) => push_json_string(&mut out, s.as_str()),
    }
    push_str_chars(&mut out, ",\"task_id\":");
    match d.task_id {
        None => push_str_chars(&mut out, "null"),
        Some(i) => push_i64_dec(&mut out, i),
    }
    push_str_chars(&mut out, ",\"project_id\":");
    match d.project_id {
        None => push_str_chars(&mut out, "null"),
        Some(i) => push_i64_dec(&mut out, i),
    }
    push_str_chars(&mut out, "}");
    proof {
        assert(out@ =~= entry_data_json(d@));
    }
    chars_to_string(out)
}

} // verus!
