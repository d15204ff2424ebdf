//! The persisted configuration: a single optional API key, stored in a
//! key-value text file.  The module holds the record type, the errors the
//! filesystem side can report, and the codec for the file's text, with its
//! round-trip laws.

use vstd::prelude::*;
use vstd::string::StrSliceExecFns;
use crate::text::{chars_to_string, push_str_chars};

verus! {

/// What can go wrong around the config file.  All variants are produced by
/// the filesystem side of the program; the codec itself is total.
#[derive(Debug, PartialEq, Eq, Structural, Clone, Copy)]
pub enum ConfigError {
    /// The platform offers no config directory.
    PathNotFound,
    /// The config file exists but could not be read.
    FileNotParsed,
    /// The config directory could not be created.
    CantCreateDirectory,
    /// The config file could not be created.
    FileNotCreated,
    /// The config file could not be written.
    CantWriteToFile,
}

/// The description of each config error.
pub open spec fn config_error_text(e: ConfigError) -> Seq<char> {
    match e {
        ConfigError::PathNotFound => "unable to find default config path"@,
        ConfigError::FileNotParsed => "unable to parse config file"@,
        ConfigError::CantCreateDirectory => "unable to create config directory"@,
        ConfigError::FileNotCreated => "unable to create a config file"@,
        ConfigError::CantWriteToFile => "unable to write to a config file"@,
    }
}

impl ConfigError {
    /// A human-readable description of the error.
    pub fn describe(&self) -> (r: &'static str)
        ensures
            r@ == config_error_text(*self),
    {
        match self {
            ConfigError::PathNotFound => "unable to find default config path",
            ConfigError::FileNotParsed => "unable to parse config file",
            ConfigError::CantCreateDirectory => "unable to create config directory",
            ConfigError::FileNotCreated => "unable to create a config file",
            ConfigError::CantWriteToFile => "unable to write to a config file",
        }
    }
}

/// The contents of the config file: at most one API key.
#[derive(Debug, PartialEq)]
pub struct ConfigFile {
    pub api_key: Option<String>,
}

// ---------------------------------------------------------------------------
// The file format.
//
// The config file holds one recognized key.  A file with a stored API key
// consists of the single line
//
//     api_key = "<escaped key>"
//
// where the key is written as a basic string: backslash, double quote,
// newline, carriage return and tab are escaped as \\ \" \n \r \t, every
// other character stands for itself.  Reading is lenient: lines that do
// not open the key assignment — blank ones, or unrecognized fields from a
// wider format — are ignored, and the first key line decides.  A file with
// no key line means "no key stored".  Only a malformed key line does not
// parse, and the loader treats that as an absent config rather than an
// error.
// ---------------------------------------------------------------------------

/// The characters that must be escaped inside the quoted key.
pub open spec fn is_special(c: char) -> bool {
    c == '"' || c == '\\' || c == '\n' || c == '\r' || c == '\t'
}

/// The letter standing for a special character after a backslash.
pub open spec fn escape_code(c: char) -> char {
    if c == '"' {
        '"'
    } else if c == '\\' {
        '\\'
    } else if c == '\n' {
        'n'
    } else if c == '\r' {
        'r'
    } else {
        't'
    }
}

/// The character a letter after a backslash stands for, if it is a valid
/// escape.
pub open spec fn unescape_code(c: char) -> Option<char> {
    if c == '"' {
        Some('"')
    } else if c == '\\' {
        Some('\\')
    } else if c == 'n' {
        Some('\n')
    } else if c == 'r' {
        Some('\r')
    } else if c == 't' {
        Some('\t')
    } else {
        None
    }
}

/// How one character is written inside the quoted key.
pub open spec fn escape_char(c: char) -> Seq<char> {
    if is_special(c) {
        seq!['\\', escape_code(c)]
    } else {
        seq![c]
    }
}

/// How a whole key is written inside the quotes.
pub open spec fn escape_str(s: Seq<char>) -> Seq<char>
    decreases s.len(),
{
    if s.len() == 0 {
        Seq::empty()
    } else {
        escape_char(s[0]) + escape_str(s.drop_first())
    }
}

/// Reading a quoted string body from the front of `s`: the decoded
/// characters up to the closing quote, and what follows the quote.  `None`
/// when the quote never comes or an escape is invalid.
pub open spec fn scan_string_body(s: Seq<char>) -> Option<(Seq<char>, Seq<char>)>
    decreases s.len(),
{
    if s.len() == 0 {
        None
    } else if s[0] == '"' {
        Some((Seq::empty(), s.drop_first()))
    } else if s[0] == '\\' {
        if s.len() == 1 {
            None
        } else {
            match unescape_code(s[1]) {
                Some(c) => match scan_string_body(s.skip(2)) {
                    Some(p) => Some((seq![c] + p.0, p.1)),
                    None => None,
                },
                None => None,
            }
        }
    } else {
        match scan_string_body(s.drop_first()) {
            Some(p) => Some((seq![s[0]] + p.0, p.1)),
            None => None,
        }
    }
}

/// The fixed text before the quoted key.
pub open spec fn key_line_prefix() -> Seq<char> {
    seq!['a', 'p', 'i', '_', 'k', 'e', 'y', ' ', '=', ' ', '"']
}

/// Whitespace-only text: what may surround the key line.
pub open spec fn is_blank(s: Seq<char>) -> bool {
    forall|i: int| 0 <= i < s.len() ==> is_blank_char(#[trigger] s[i])
}

pub open spec fn is_blank_char(c: char) -> bool {
    c == ' ' || c == '\n' || c == '\r' || c == '\t'
}

/// The text of the whole config file for a given stored key.
pub open spec fn render_config_spec(api_key: Option<Seq<char>>) -> Seq<char> {
    match api_key {
        None => Seq::empty(),
        Some(k) => key_line_prefix() + escape_str(k) + seq!['"', '\n'],
    }
}

/// The position of the first line break in `s`, or `s.len()` when there
/// is none.
pub open spec fn eol_index(s: Seq<char>) -> int
    decreases s.len(),
{
    if s.len() == 0 {
        0
    } else if s[0] == '\n' {
        0
    } else {
        1 + eol_index(s.drop_first())
    }
}

/// The first line break lies within the text.
pub proof fn lemma_eol_index_bounds(s: Seq<char>)
    ensures
        0 <= eol_index(s) <= s.len(),
    decreases s.len(),
{
    if s.len() != 0 && s[0] != '\n' {
        lemma_eol_index_bounds(s.drop_first());
    }
}

/// `eol_index` is the one position with no break before it and a break
/// (or the end) at it.
proof fn lemma_eol_index_unique(s: Seq<char>, e: int)
    requires
        0 <= e <= s.len(),
        forall|m: int| 0 <= m < e ==> s[m] != '\n',
        e < s.len() ==> s[e] == '\n',
    ensures
        eol_index(s) == e,
    decreases s.len(),
{
    if s.len() == 0 {
    } else if s[0] == '\n' {
        assert(e == 0);
    } else {
        assert(e >= 1);
        assert(forall|m: int| 0 <= m < e - 1 ==> s.drop_first()[m] == s[m + 1]);
        if e - 1 < s.drop_first().len() {
            assert(s.drop_first()[e - 1] == s[e]);
        }
        lemma_eol_index_unique(s.drop_first(), e - 1);
    }
}

/// A line that opens the key assignment.
pub open spec fn is_key_line_start(line: Seq<char>) -> bool {
    line.len() >= 11 && line.subrange(0, 11) == key_line_prefix()
}

/// What a config file's text means, read line by line.  The first line
/// opening the key assignment decides: `Some(Some(k))` when its quoted
/// string scans and only blanks follow on that line, `None` (the file
/// does not parse) when that line is malformed.  Every other line is
/// ignored, so a file holding unrecognized fields still yields its key;
/// a file with no key line means "no key stored", `Some(None)`.
pub open spec fn parse_config_spec(s: Seq<char>) -> Option<Option<Seq<char>>>
    decreases s.len(),
    via parse_config_spec_decreases
{
    if s.len() == 0 {
        Some(None)
    } else {
        let e = eol_index(s);
        let line = s.subrange(0, e);
        if is_key_line_start(line) {
            match scan_string_body(line.skip(11)) {
                Some(p) => if is_blank(p.1) {
                    Some(Some(p.0))
                } else {
                    None
                },
                None => None,
            }
        } else if e < s.len() {
            parse_config_spec(s.skip(e + 1))
        } else {
            Some(None)
        }
    }
}

#[via_fn]
proof fn parse_config_spec_decreases(s: Seq<char>) {
    lemma_eol_index_bounds(s);
}

/// The text written when the key `k` is saved over a file holding `prior`.
/// Saving parses the prior contents, replaces the key field and renders the
/// record again; with one recognized field nothing of the prior file
/// survives, so the result does not depend on `prior`.
pub open spec fn saved_content_spec(prior: Seq<char>, k: Seq<char>) -> Seq<char> {
    render_config_spec(Some(k))
}

// ---------------------------------------------------------------------------
// Laws of the codec.
// ---------------------------------------------------------------------------

/// Escaping distributes over concatenation.
pub proof fn lemma_escape_append(a: Seq<char>, b: Seq<char>)
    ensures
        escape_str(a + b) == escape_str(a) + escape_str(b),
    decreases a.len(),
{
    if a.len() == 0 {
        assert(a + b =~= b);
        assert(escape_str(a) + escape_str(b) =~= escape_str(b));
    } else {
        lemma_escape_append(a.drop_first(), b);
        assert((a + b).drop_first() =~= a.drop_first() + b);
        assert(escape_str(a + b) =~= escape_str(a) + escape_str(b));
    }
}

/// Scanning an escaped key followed by the closing quote decodes the key
/// exactly and leaves the rest untouched.
proof fn lemma_scan_escaped(k: Seq<char>, rest: Seq<char>)
    ensures
        scan_string_body(escape_str(k) + seq!['"'] + rest) == Some((k, rest)),
    decreases k.len(),
{
    let s = escape_str(k) + seq!['"'] + rest;
    if k.len() == 0 {
        assert(s[0] == '"');
        assert(s.drop_first() =~= rest);
        assert(scan_string_body(s) == Some((Seq::<char>::empty(), rest)));
        assert(Seq::<char>::empty() =~= k);
    } else {
        let k0 = k[0];
        let kt = k.drop_first();
        lemma_scan_escaped(kt, rest);
        assert(escape_str(k) =~= escape_char(k0) + escape_str(kt));
        if is_special(k0) {
            assert(s[0] == '\\');
            assert(s[1] == escape_code(k0));
            assert(unescape_code(escape_code(k0)) == Some(k0));
            assert(s.skip(2) =~= escape_str(kt) + seq!['"'] + rest);
            let p = (kt, rest);
            assert(scan_string_body(s.skip(2)) == Some(p));
            assert(seq![k0] + p.0 =~= k);
        } else {
            assert(s[0] == k0);
            assert(k0 != '"' && k0 != '\\');
            assert(s.drop_first() =~= escape_str(kt) + seq!['"'] + rest);
            let p = (kt, rest);
            assert(scan_string_body(s.drop_first()) == Some(p));
            assert(seq![k0] + p.0 =~= k);
        }
    }
}

/// The escaped form of a key never holds a raw line break: the break is
/// what escaping is for.
proof fn lemma_escape_no_newline(k: Seq<char>)
    ensures
        forall|i: int| 0 <= i < escape_str(k).len() ==> escape_str(k)[i] != '\n',
    decreases k.len(),
{
    if k.len() != 0 {
        lemma_escape_no_newline(k.drop_first());
        assert(forall|i: int|
            0 <= i < escape_char(k[0]).len() ==> escape_char(k[0])[i] != '\n');
        assert(forall|i: int| 0 <= i < escape_str(k).len() ==> escape_str(k)[i] != '\n') by {
            assert(escape_str(k) =~= escape_char(k[0]) + escape_str(k.drop_first()));
        }
    }
}

/// Round trip of the codec: the rendered config parses back to the same
/// stored key (or to "no key" for an empty config).
pub proof fn lemma_config_round_trip(api_key: Option<Seq<char>>)
    ensures
        parse_config_spec(render_config_spec(api_key)) == Some(api_key),
{
    match api_key {
        None => {
        },
        Some(k) => {
            let s = render_config_spec(Some(k));
            let esc = escape_str(k);
            let last = s.len() - 1;
            assert(s.len() == 13 + esc.len());
            // the one line break is the final character
            lemma_escape_no_newline(k);
            assert forall|m: int| 0 <= m < last implies s[m] != '\n' by {
                if m < 11 {
                    assert(s[m] == key_line_prefix()[m]);
                } else if m < 11 + esc.len() {
                    assert(s[m] == esc[m - 11]);
                } else {
                    assert(s[m] == '"');
                }
            }
            assert(s[last] == '\n');
            lemma_eol_index_unique(s, last);
            let line = s.subrange(0, last);
            assert(line.subrange(0, 11) =~= key_line_prefix());
            assert(is_key_line_start(line));
            assert(line.skip(11) =~= esc + seq!['"'] + Seq::<char>::empty());
            lemma_scan_escaped(k, Seq::<char>::empty());
            assert(is_blank(Seq::<char>::empty()));
        },
    }
}

/// Saving a key and loading the file back yields exactly that key, for
/// every key, including ones holding quotes, backslashes or newlines, and
/// whatever the file held before.
pub proof fn lemma_save_then_load(prior: Seq<char>, k: Seq<char>)
    ensures
        parse_config_spec(saved_content_spec(prior, k)) == Some(Some(k)),
{
    lemma_config_round_trip(Some(k));
}

/// Saving twice keeps only the second key: the file after saving `k1` and
/// then `k2` parses to `k2` alone, with no trace of `k1`.
pub proof fn lemma_save_overwrites(prior: Seq<char>, k1: Seq<char>, k2: Seq<char>)
    ensures
        parse_config_spec(saved_content_spec(saved_content_spec(prior, k1), k2)) == Some(
            Some(k2),
        ),
{
    lemma_save_then_load(saved_content_spec(prior, k1), k2);
}

// ---------------------------------------------------------------------------
// The executable codec.
// ---------------------------------------------------------------------------

fn is_blank_char_exec(c: char) -> (r: bool)
    ensures
        r == is_blank_char(c),
{
    c == ' ' || c == '\n' || c == '\r' || c == '\t'
}

fn unescape_code_exec(c: char) -> (r: Option<char>)
    ensures
        r == unescape_code(c),
{
    if c == '"' {
        Some('"')
    } else if c == '\\' {
        Some('\\')
    } else if c == 'n' {
        Some('\n')
    } else if c == 'r' {
        Some('\r')
    } else if c == 't' {
        Some('\t')
    } else {
        None
    }
}

/// Append the escaped form of `s` to `out`.
fn push_escaped(out: &mut Vec<char>, s: &str)
    ensures
        final(out)@ == old(out)@ + escape_str(s@),
{
    let n = s.unicode_len();
    let mut i: usize = 0;
    while i < n
        invariant
            n == s@.len(),
            i <= n,
            out@ == old(out)@ + escape_str(s@.subrange(0, i as int)),
        decreases n - i,
    {
        let c = s.get_char(i);
        if c == '"' {
            out.push('\\');
            out.push('"');
        } else if c == '\\' {
            out.push('\\');
            out.push('\\');
        } else if c == '\n' {
            out.push('\\');
            out.push('n');
        } else if c == '\r' {
            out.push('\\');
            out.push('r');
        } else if c == '\t' {
            out.push('\\');
            out.push('t');
        } else {
            out.push(c);
        }
        proof {
            let pre = s@.subrange(0, i as int);
            assert(s@.subrange(0, i + 1 as int) =~= pre + seq![s@[i as int]]);
            lemma_escape_append(pre, seq![s@[i as int]]);
            assert(seq![s@[i as int]].drop_first() =~= Seq::<char>::empty());
            assert(escape_str(seq![s@[i as int]]) =~= escape_char(s@[i as int]) + escape_str(
                Seq::<char>::empty(),
            ));
            assert(escape_str(seq![s@[i as int]]) =~= escape_char(s@[i as int]));
            assert(out@ =~= old(out)@ + escape_str(s@.subrange(0, i + 1 as int)));
        }
        i = i + 1;
    }
    assert(s@.subrange(0, n as int) =~= s@);
}

/// The text of the config file for the given record.
pub fn render_config(c: &ConfigFile) -> (r: String)
    ensures
        r@ == render_config_spec(c.api_key.deep_view()),
{
    match &c.api_key {
        None => String::new(),
        Some(k) => {
            let mut out: Vec<char> = Vec::new();
            push_str_chars(&mut out, "api_key = \"");
            proof {
                reveal_strlit("api_key = \"");
                assert("api_key = \""@ =~= key_line_prefix());
            }
            push_escaped(&mut out, k.as_str());
            out.push('"');
            out.push('\n');
            proof {
                assert(out@ =~= key_line_prefix() + escape_str(k@) + seq!['"', '\n']);
            }
            chars_to_string(out)
        },
    }
}

/// Whether `s` is whitespace only from position `start` on.
fn blank_from(s: &str, start: usize) -> (r: bool)
    requires
        start <= s@.len(),
    ensures
        r == is_blank(s@.skip(start as int)),
{
    let n = s.unicode_len();
    let mut i: usize = start;
    while i < n
        invariant
            n == s@.len(),
            start <= i <= n,
            forall|j: int| start <= j < i ==> is_blank_char(#[trigger] s@[j]),
        decreases n - i,
    {
        let c = s.get_char(i);
        if !is_blank_char_exec(c) {
            assert(!is_blank(s@.skip(start as int))) by {
                assert(s@.skip(start as int)[i - start] == s@[i as int]);
            }
            return false;
        }
        i = i + 1;
    }
    assert(is_blank(s@.skip(start as int))) by {
        assert(forall|j: int| 0 <= j < s@.skip(start as int).len() ==> #[trigger] s@.skip(
            start as int,
        )[j] == s@[j + start]);
    }
    true
}

/// Read the quoted string body starting at `start`: the decoded key and
/// the position just past the closing quote.
fn scan_body_exec(s: &str, start: usize) -> (r: Option<(Vec<char>, usize)>)
    requires
        start <= s@.len(),
    ensures
        match r {
            Some(p) => p.1 <= s@.len() && scan_string_body(s@.skip(start as int)) == Some(
                (p.0@, s@.skip(p.1 as int)),
            ),
            None => scan_string_body(s@.skip(start as int)) is None,
        },
{
    let n = s.unicode_len();
    let mut acc: Vec<char> = Vec::new();
    let mut i: usize = start;
    loop
        invariant
            n == s@.len(),
            start <= i <= n,
            forall|d: Seq<char>, rest: Seq<char>|
                scan_string_body(s@.skip(i as int)) == Some((d, rest))
                    ==> scan_string_body(s@.skip(start as int)) == Some((acc@ + d, rest)),
            scan_string_body(s@.skip(i as int)) is None ==> scan_string_body(
                s@.skip(start as int),
            ) is None,
        decreases n - i,
    {
        if i == n {
            assert(s@.skip(i as int) =~= Seq::<char>::empty());
            return None;
        }
        let c = s.get_char(i);
        proof {
            assert(s@.skip(i as int)[0] == s@[i as int]);
        }
        if c == '"' {
            proof {
                assert(s@.skip(i as int).drop_first() =~= s@.skip(i + 1 as int));
                assert(scan_string_body(s@.skip(i as int)) == Some(
                    (Seq::<char>::empty(), s@.skip(i + 1 as int)),
                ));
                assert(acc@ + Seq::<char>::empty() =~= acc@);
            }
            return Some((acc, i + 1));
        } else if c == '\\' {
            if i + 1 == n {
                assert(s@.skip(i as int).len() == 1);
                return None;
            }
            let c2 = s.get_char(i + 1);
            proof {
                assert(s@.skip(i as int)[1] == s@[i + 1 as int]);
            }
            match unescape_code_exec(c2) {
                None => {
                    return None;
                },
                Some(d) => {
                    proof {
                        assert(s@.skip(i as int).skip(2) =~= s@.skip(i + 2 as int));
                        let ghost acc0 = acc@;
                        assert forall|dd: Seq<char>, rest: Seq<char>|
                            scan_string_body(s@.skip(i + 2 as int)) == Some((dd, rest))
                                implies scan_string_body(s@.skip(start as int)) == Some(
                            (acc0.push(d) + dd, rest),
                        ) by {
                            assert(scan_string_body(s@.skip(i as int)) == Some(
                                (seq![d] + dd, rest),
                            ));
                            assert(acc0 + (seq![d] + dd) =~= acc0.push(d) + dd);
                        }
                    }
                    acc.push(d);
                    i = i + 2;
                },
            }
        } else {
            proof {
                assert(s@.skip(i as int).drop_first() =~= s@.skip(i + 1 as int));
                let ghost acc0 = acc@;
                assert forall|dd: Seq<char>, rest: Seq<char>|
                    scan_string_body(s@.skip(i + 1 as int)) == Some((dd, rest)) implies
                    scan_string_body(s@.skip(start as int)) == Some(
                    (acc0.push(c) + dd, rest),
                ) by {
                    assert(scan_string_body(s@.skip(i as int)) == Some((seq![c] + dd, rest)));
                    assert(acc0 + (seq![c] + dd) =~= acc0.push(c) + dd);
                }
            }
            acc.push(c);
            i = i + 1;
        }
    }
}

/// The first line break at or after `start`, or the end of `s`.
fn line_end(s: &str, start: usize) -> (e: usize)
    requires
        start <= s@.len(),
    ensures
        start <= e <= s@.len(),
        forall|m: int| start <= m < e ==> s@[m] != '\n',
        e < s@.len() ==> s@[e as int] == '\n',
{
    let n = s.unicode_len();
    let mut e: usize = start;
    while e < n
        invariant
            start <= e <= n,
            n == s@.len(),
            forall|m: int| start <= m < e ==> s@[m] != '\n',
        decreases n - e,
    {
        if s.get_char(e) == '\n' {
            return e;
        }
        e = e + 1;
    }
    e
}

/// Whether a line opens the key assignment.
fn key_line_start(line: &str) -> (r: bool)
    ensures
        r == is_key_line_start(line@),
{
    let n = line.unicode_len();
    if n < 11 {
        return false;
    }
    let prefix: &str = "api_key = \"";
    proof {
        reveal_strlit("api_key = \"");
        assert(prefix@ =~= key_line_prefix());
    }
    let mut i: usize = 0;
    while i < 11
        invariant
            n == line@.len(),
            11 <= n,
            i <= 11,
            prefix@ == key_line_prefix(),
            forall|j: int| 0 <= j < i ==> line@[j] == key_line_prefix()[j],
        decreases 11 - i,
    {
        let c = line.get_char(i);
        let p = prefix.get_char(i);
        if c != p {
            assert(line@.subrange(0, 11) != key_line_prefix()) by {
                assert(line@.subrange(0, 11)[i as int] == line@[i as int]);
            }
            return false;
        }
        i = i + 1;
    }
    assert(line@.subrange(0, 11) =~= key_line_prefix());
    true
}

/// Parse the text of a config file, line by line.  `None` when the key
/// line is malformed; the loader treats that as an absent config (a
/// deliberate policy: a corrupt store reads as no stored key rather than
/// an error).  Lines that do not open the key assignment are ignored.
pub fn parse_config(s: &str) -> (r: Option<ConfigFile>)
    ensures
        match r {
            Some(c) => parse_config_spec(s@) == Some(c.api_key.deep_view()),
            None => parse_config_spec(s@) is None,
        },
{
    let n = s.unicode_len();
    let mut i: usize = 0;
    assert(s@.skip(0) =~= s@);
    loop
        invariant
            i <= n,
            n == s@.len(),
            parse_config_spec(s@) == parse_config_spec(s@.skip(i as int)),
        decreases n - i,
    {
        if i == n {
            proof {
                assert(s@.skip(i as int) =~= Seq::<char>::empty());
            }
            return Some(ConfigFile { api_key: None });
        }
        let e = line_end(s, i);
        let ghost t = s@.skip(i as int);
        proof {
            assert(forall|m: int| 0 <= m < e - i ==> #[trigger] t[m] == s@[i + m]);
            if (e as int) - (i as int) < t.len() {
                assert(t[e - i] == s@[e as int]);
            }
            lemma_eol_index_unique(t, e - i);
        }
        let line = s.substring_char(i, e);
        proof {
            assert(line@ =~= t.subrange(0, e - i));
        }
        if key_line_start(line) {
            match scan_body_exec(line, 11) {
                None => {
                    return None;
                },
                Some((key_chars, j)) => {
                    if blank_from(line, j) {
                        let key = chars_to_string(key_chars);
                        return Some(ConfigFile { api_key: Some(key) });
                    } else {
                        return None;
                    }
                },
            }
        } else if e == n {
            proof {
                assert(parse_config_spec(t) == Some(None::<Seq<char>>));
            }
            return Some(ConfigFile { api_key: None });
        } else {
            proof {
                assert(t.skip((e - i) + 1) =~= s@.skip(e + 1));
            }
            i = e + 1;
        }
    }
}

/// The new text of the config file when `api_key` is saved over a file
/// that held `existing` (or over no file).  The prior contents are parsed
/// leniently and the key field replaced; the result always stores exactly
/// the new key.
pub fn save_content(existing: Option<&str>, api_key: &str) -> (r: String)
    ensures
        r@ == render_config_spec(Some(api_key@)),
        existing matches Some(prior) ==> r@ == saved_content_spec(prior@, api_key@),
{
    let mut record = match existing {
        Some(s) => match parse_config(s) {
            Some(c) => c,
            None => ConfigFile { api_key: None },
        },
        None => ConfigFile { api_key: None },
    };
    record.api_key = Some(api_key.to_owned());
    render_config(&record)
}

} // verus!
