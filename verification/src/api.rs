//! The typed binding to the remote service's REST interface.
//!
//! Each operation is split into what can be computed and proved — building
//! the request (URL, verb, authentication, body) and decoding the response
//! body — and the transport itself, which the caller performs.  A request
//! is described by a plain `ApiRequest` value; the caller sends it and
//! hands the response text back to the matching decoder.

use vstd::prelude::*;
use vstd::string::StringExecFns;
use crate::entry::{entries_of_json, entry_of_json, Entry, EntryView};
use crate::json::{field_str, get_string, json_of, parse_json, value_is_null, value_is_obj, JsonData};
use crate::payload::{build_entry_data, encode_entry_data, entry_data_json, template_payload};
use crate::text::{chars_to_string, dec_int, push_i64_dec, push_str_chars};

verus! {

/// The error taxonomy of the client: the transport failed (network,
/// non-success status), or a body could not be encoded or decoded.
#[derive(Debug, PartialEq, Eq, Structural, Clone, Copy)]
pub enum ApiError {
    /// Network failure, connection trouble or a non-success HTTP response.
    Transport,
    /// A request body could not be encoded or a response body could not be
    /// decoded.
    Serialization,
}

impl ApiError {
    /// A human-readable description of the error.
    pub fn describe(&self) -> (r: &'static str)
        ensures
            r@ == match self {
                ApiError::Transport => "API error: transport failure"@,
                ApiError::Serialization => "API error: serialization failure"@,
            },
    {
        match self {
            ApiError::Transport => "API error: transport failure",
            ApiError::Serialization => "API error: serialization failure",
        }
    }
}

/// The HTTP verb of a request.
#[derive(Debug, PartialEq, Eq, Structural, Clone, Copy)]
pub enum Method {
    Get,
    Post,
    Patch,
}

/// The typed client: where the service lives and the credential every
/// call authenticates with.
pub struct Api {
    pub base_url: String,
    pub api_key: String,
}

/// The mathematical shape of the client.
pub ghost struct ApiView {
    pub base_url: Seq<char>,
    pub api_key: Seq<char>,
}

impl View for Api {
    type V = ApiView;

    open spec fn view(&self) -> ApiView {
        ApiView { base_url: self.base_url@, api_key: self.api_key@ }
    }
}

/// One request, described as plain values: the verb, the full URL, the
/// body if any, and the HTTP Basic credentials.  Every request also
/// carries the fixed content type (see `content_type`).
#[derive(Debug, PartialEq)]
pub struct ApiRequest {
    pub method: Method,
    pub url: String,
    pub body: Option<String>,
    pub auth_user: String,
    pub auth_pass: String,
}

/// The mathematical shape of a request.
pub ghost struct RequestView {
    pub method: Method,
    pub url: Seq<char>,
    pub body: Option<Seq<char>>,
    pub auth_user: Seq<char>,
    pub auth_pass: Seq<char>,
}

impl View for ApiRequest {
    type V = RequestView;

    open spec fn view(&self) -> RequestView {
        RequestView {
            method: self.method,
            url: self.url@,
            body: match self.body {
                Some(b) => Some(b@),
                None => None,
            },
            auth_user: self.auth_user@,
            auth_pass: self.auth_pass@,
        }
    }
}

/// The service's versioned REST root.
pub fn default_base_url() -> (r: &'static str)
    ensures
        r@ == "https://api.track.toggl.com/api/v9"@,
{
    "https://api.track.toggl.com/api/v9"
}

/// The content type every request sets.
pub fn content_type() -> (r: &'static str)
    ensures
        r@ == "application/json; charset=utf-8"@,
{
    "application/json; charset=utf-8"
}

/// The profile of the authenticated user, as the service reports it.
#[derive(Debug, PartialEq)]
pub struct Me {
    pub email: String,
    pub fullname: String,
}

/// The response of the login exchange: the service-issued API token.
#[derive(Debug, PartialEq)]
pub struct MyKey {
    pub api_token: String,
}

// ---------------------------------------------------------------------------
// Request building.
// ---------------------------------------------------------------------------

/// An authenticated GET of `<base>/me`.
pub open spec fn me_request_spec(api: ApiView) -> RequestView {
    RequestView {
        method: Method::Get,
        url: api.base_url + "/me"@,
        body: None,
        auth_user: api.api_key,
        auth_pass: "api_token"@,
    }
}

/// An authenticated GET of `<base>/me/time_entries/current`.
pub open spec fn current_request_spec(api: ApiView) -> RequestView {
    RequestView {
        method: Method::Get,
        url: api.base_url + "/me/time_entries/current"@,
        body: None,
        auth_user: api.api_key,
        auth_pass: "api_token"@,
    }
}

/// An authenticated GET of `<base>/me/time_entries`.
pub open spec fn mine_request_spec(api: ApiView) -> RequestView {
    RequestView {
        method: Method::Get,
        url: api.base_url + "/me/time_entries"@,
        body: None,
        auth_user: api.api_key,
        auth_pass: "api_token"@,
    }
}

/// The Unix timestamp of the last UTC midnight at or before `now`.
pub open spec fn utc_midnight(now: int) -> int {
    now - (now % 86400)
}

/// An authenticated GET of `<base>/me/time_entries` restricted to entries
/// since the UTC midnight of the day `now` falls in.
pub open spec fn today_request_spec(api: ApiView, now: int) -> RequestView {
    RequestView {
        method: Method::Get,
        url: api.base_url + "/me/time_entries?since="@ + dec_int(utc_midnight(now)),
        body: None,
        auth_user: api.api_key,
        auth_pass: "api_token"@,
    }
}

/// An authenticated PATCH of
/// `<base>/workspaces/<workspace_id>/time_entries/<entry_id>/stop`.
pub open spec fn stop_request_spec(api: ApiView, workspace_id: i64, entry_id: i64) -> RequestView {
    RequestView {
        method: Method::Patch,
        url: api.base_url + "/workspaces/"@ + dec_int(workspace_id as int) + "/time_entries/"@
            + dec_int(entry_id as int) + "/stop"@,
        body: None,
        auth_user: api.api_key,
        auth_pass: "api_token"@,
    }
}

/// An authenticated POST of `<base>/workspaces/<workspace_id>/time_entries`
/// whose body is the JSON payload for starting a fresh entry from the
/// template, stamped `start`.
pub open spec fn start_request_spec(api: ApiView, template: EntryView, start: Seq<char>) -> RequestView {
    RequestView {
        method: Method::Post,
        url: api.base_url + "/workspaces/"@ + dec_int(template.workspace_id as int)
            + "/time_entries"@,
        body: Some(entry_data_json(template_payload(template, start))),
        auth_user: api.api_key,
        auth_pass: "api_token"@,
    }
}

/// A GET of `<base>/me` authenticated with a username and password instead
/// of an API key: the login exchange.
pub open spec fn login_request_spec(base_url: Seq<char>, username: Seq<char>, password: Seq<char>) -> RequestView {
    RequestView {
        method: Method::Get,
        url: base_url + "/me"@,
        body: None,
        auth_user: username,
        auth_pass: password,
    }
}

fn authed(api: &Api, method: Method, url: String, body: Option<String>) -> (r: ApiRequest)
    ensures
        r@ == (RequestView {
            method,
            url: url@,
            body: match body {
                Some(b) => Some(b@),
                None => None,
            },
            auth_user: api@.api_key,
            auth_pass: "api_token"@,
        }),
{
    ApiRequest {
        method,
        url,
        body,
        auth_user: api.api_key.clone(),
        auth_pass: String::from_str("api_token"),
    }
}

fn join_url(base: &String, path: &str) -> (r: String)
    ensures
        r@ == base@ + path@,
{
    let mut out: Vec<char> = Vec::new();
    push_str_chars(&mut out, base.as_str());
    push_str_chars(&mut out, path);
    chars_to_string(out)
}

impl Api {
    /// The request that fetches the authenticated user's profile.
    pub fn get_me(&self) -> (r: ApiRequest)
        ensures
            r@ == me_request_spec(self@),
    {
        authed(self, Method::Get, join_url(&self.base_url, "/me"), None)
    }

    /// The request that fetches the currently running entry, if any.
    pub fn get_current(&self) -> (r: ApiRequest)
        ensures
            r@ == current_request_spec(self@),
    {
        authed(self, Method::Get, join_url(&self.base_url, "/me/time_entries/current"), None)
    }

    /// The request that fetches all of the caller's entries, in the
    /// service's own order (most recent first).
    pub fn get_mine(&self) -> (r: ApiRequest)
        ensures
            r@ == mine_request_spec(self@),
    {
        authed(self, Method::Get, join_url(&self.base_url, "/me/time_entries"), None)
    }

    /// The request that fetches the entries since the UTC midnight of the
    /// day `now` (a Unix timestamp) falls in.
    pub fn get_today_at(&self, now: i64) -> (r: ApiRequest)
        requires
            now >= 0,
        ensures
            r@ == today_request_spec(self@, now as int),
    {
        let midnight = midnight_utc(now);
        let mut out: Vec<char> = Vec::new();
        push_str_chars(&mut out, self.base_url.as_str());
        push_str_chars(&mut out, "/me/time_entries?since=");
        push_i64_dec(&mut out, midnight);
        let url = chars_to_string(out);
        authed(self, Method::Get, url, None)
    }

    /// The request that fetches today's entries, using the current time.
    pub fn get_today(&self) -> (r: ApiRequest)
        ensures
            exists|now: int| now >= 0 && r@ == #[trigger] today_request_spec(self@, now),
    {
        let now = now_unix();
        let now = if now < 0 {
            0
        } else {
            now
        };
        let r = self.get_today_at(now);
        proof {
            assert(now >= 0 && r@ == today_request_spec(self@, now as int));
        }
        r
    }

    /// The request that stops the given entry within its workspace.
    pub fn stop_entry(&self, workspace_id: i64, time_entry_id: i64) -> (r: ApiRequest)
        ensures
            r@ == stop_request_spec(self@, workspace_id, time_entry_id),
    {
        let mut out: Vec<char> = Vec::new();
        push_str_chars(&mut out, self.base_url.as_str());
        push_str_chars(&mut out, "/workspaces/");
        push_i64_dec(&mut out, workspace_id);
        push_str_chars(&mut out, "/time_entries/");
        push_i64_dec(&mut out, time_entry_id);
        push_str_chars(&mut out, "/stop");
        let url = chars_to_string(out);
        authed(self, Method::Patch, url, None)
    }

    /// The request that creates and starts a fresh entry copied from the
    /// template and stamped with the given start time.
    pub fn start_entry_at(&self, template: &Entry, start: String) -> (r: ApiRequest)
        ensures
            r@ == start_request_spec(self@, template@, start@),
    {
        let data = build_entry_data(template, start);
        let body = encode_entry_data(&data);
        let mut out: Vec<char> = Vec::new();
        push_str_chars(&mut out, self.base_url.as_str());
        push_str_chars(&mut out, "/workspaces/");
        push_i64_dec(&mut out, template.workspace_id);
        push_str_chars(&mut out, "/time_entries");
        let url = chars_to_string(out);
        authed(self, Method::Post, url, Some(body))
    }

    /// The request that starts a fresh entry from the template now.
    pub fn start_entry(&self, template: &Entry) -> (r: ApiRequest)
        ensures
            exists|start: Seq<char>|
                r@ == #[trigger] start_request_spec(self@, template@, start),
    {
        let start = now_rfc3339();
        let r = self.start_entry_at(template, start);
        r
    }

    /// The login-exchange request: the profile endpoint, authenticated
    /// with username and password.
    pub fn get_api_key(base_url: &String, username: &str, password: &str) -> (r: ApiRequest)
        ensures
            r@ == login_request_spec(base_url@, username@, password@),
    {
        ApiRequest {
            method: Method::Get,
            url: join_url(base_url, "/me"),
            body: None,
            auth_user: username.to_owned(),
            auth_pass: password.to_owned(),
        }
    }
}

// ---------------------------------------------------------------------------
// Response decoding.
//
// A response is judged in two steps: its HTTP status, then its body.  A
// non-success status is the transport-level error whatever the body says;
// only a success response has its body decoded.  The `*_response`
// functions state the whole judgement; the `*_body` functions state the
// body half alone.
// ---------------------------------------------------------------------------

/// A successful HTTP status: the 2xx range.
pub open spec fn is_success_status(status: int) -> bool {
    200 <= status < 300
}

/// Judge an HTTP status: success exactly on the 2xx range, the transport
/// error on everything else.
pub fn classify_status(status: u16) -> (r: Result<(), ApiError>)
    ensures
        match r {
            Ok(u) => is_success_status(status as int),
            Err(e) => !is_success_status(status as int) && e == ApiError::Transport,
        },
{
    if 200 <= status && status < 300 {
        Ok(())
    } else {
        Err(ApiError::Transport)
    }
}

/// The mathematical shape of a profile.
pub ghost struct MeView {
    pub email: Seq<char>,
    pub fullname: Seq<char>,
}

impl View for Me {
    type V = MeView;

    open spec fn view(&self) -> MeView {
        MeView { email: self.email@, fullname: self.fullname@ }
    }
}

/// The profile a JSON document denotes, if it is an object with string
/// `email` and `fullname` fields.
pub open spec fn me_of_json(j: JsonData) -> Option<MeView> {
    match j {
        JsonData::Obj(m) => {
            if field_str(m, "email"@) is Some && field_str(m, "fullname"@) is Some {
                Some(
                    MeView {
                        email: field_str(m, "email"@)->Some_0,
                        fullname: field_str(m, "fullname"@)->Some_0,
                    },
                )
            } else {
                None
            }
        },
        _ => None,
    }
}

/// The API token a JSON document carries, if it is an object with a string
/// `api_token` field.
pub open spec fn token_of_json(j: JsonData) -> Option<Seq<char>> {
    match j {
        JsonData::Obj(m) => field_str(m, "api_token"@),
        _ => None,
    }
}

/// Decode the profile endpoint's response body.
pub fn decode_me_body(body: &str) -> (r: Result<Me, ApiError>)
    ensures
        match r {
            Ok(me) => json_of(body@) matches Some(j) && me_of_json(j) == Some(me@),
            Err(e) => e == ApiError::Serialization && match json_of(body@) {
                Some(j) => me_of_json(j) is None,
                None => true,
            },
        },
{
    let v = match parse_json(body) {
        Some(v) => v,
        None => {
            return Err(ApiError::Serialization);
        },
    };
    if !value_is_obj(&v) {
        return Err(ApiError::Serialization);
    }
    let email = match get_string(&v, "email") {
        Some(s) => s,
        None => {
            return Err(ApiError::Serialization);
        },
    };
    let fullname = match get_string(&v, "fullname") {
        Some(s) => s,
        None => {
            return Err(ApiError::Serialization);
        },
    };
    Ok(Me { email, fullname })
}

/// Decode the login exchange's response body: the service-issued API
/// token.
pub fn decode_token_body(body: &str) -> (r: Result<MyKey, ApiError>)
    ensures
        match r {
            Ok(k) => json_of(body@) matches Some(j) && token_of_json(j) == Some(k.api_token@),
            Err(e) => e == ApiError::Serialization && match json_of(body@) {
                Some(j) => token_of_json(j) is None,
                None => true,
            },
        },
{
    let v = match parse_json(body) {
        Some(v) => v,
        None => {
            return Err(ApiError::Serialization);
        },
    };
    if !value_is_obj(&v) {
        return Err(ApiError::Serialization);
    }
    match get_string(&v, "api_token") {
        Some(s) => Ok(MyKey { api_token: s }),
        None => Err(ApiError::Serialization),
    }
}

/// Decode the current-entry endpoint's response body: the service answers
/// with the literal `null` when nothing is running, which must read as "no
/// running entry", not as an error.
pub fn decode_current_body(body: &str) -> (r: Result<Option<Entry>, ApiError>)
    ensures
        match r {
            Ok(None) => json_of(body@) == Some(JsonData::Null),
            Ok(Some(e)) => json_of(body@) matches Some(j) && j != JsonData::Null && entry_of_json(
                j,
            ) == Some(e@),
            Err(err) => err == ApiError::Serialization && match json_of(body@) {
                Some(j) => j != JsonData::Null && entry_of_json(j) is None,
                None => true,
            },
        },
{
    let v = match parse_json(body) {
        Some(v) => v,
        None => {
            return Err(ApiError::Serialization);
        },
    };
    if value_is_null(&v) {
        return Ok(None);
    }
    match crate::entry::decode_entry(&v) {
        Some(e) => Ok(Some(e)),
        None => Err(ApiError::Serialization),
    }
}

/// Decode a response body holding a single entry.
pub fn decode_entry_body(body: &str) -> (r: Result<Entry, ApiError>)
    ensures
        match r {
            Ok(e) => json_of(body@) matches Some(j) && entry_of_json(j) == Some(e@),
            Err(err) => err == ApiError::Serialization && match json_of(body@) {
                Some(j) => entry_of_json(j) is None,
                None => true,
            },
        },
{
    let v = match parse_json(body) {
        Some(v) => v,
        None => {
            return Err(ApiError::Serialization);
        },
    };
    match crate::entry::decode_entry(&v) {
        Some(e) => Ok(e),
        None => Err(ApiError::Serialization),
    }
}

/// Decode a response body holding a list of entries, kept in the order
/// the service sent them.
pub fn decode_entries_body(body: &str) -> (r: Result<Vec<Entry>, ApiError>)
    ensures
        match r {
            Ok(es) => json_of(body@) matches Some(j) && entries_of_json(j) == Some(
                es.deep_view(),
            ),
            Err(err) => err == ApiError::Serialization && match json_of(body@) {
                Some(j) => entries_of_json(j) is None,
                None => true,
            },
        },
{
    let v = match parse_json(body) {
        Some(v) => v,
        None => {
            return Err(ApiError::Serialization);
        },
    };
    match crate::entry::decode_entries(&v) {
        Some(es) => Ok(es),
        None => Err(ApiError::Serialization),
    }
}

/// Judge a whole profile response: a non-success status is the transport
/// error; a success response stands or falls with its body.
pub fn decode_me_response(status: u16, body: &str) -> (r: Result<Me, ApiError>)
    ensures
        !is_success_status(status as int) ==> r == Err::<Me, ApiError>(ApiError::Transport),
        is_success_status(status as int) ==> match r {
            Ok(me) => json_of(body@) matches Some(j) && me_of_json(j) == Some(me@),
            Err(e) => e == ApiError::Serialization && match json_of(body@) {
                Some(j) => me_of_json(j) is None,
                None => true,
            },
        },
{
    match classify_status(status) {
        Err(e) => Err(e),
        Ok(u) => decode_me_body(body),
    }
}

/// Judge a whole login-exchange response.
pub fn decode_token_response(status: u16, body: &str) -> (r: Result<MyKey, ApiError>)
    ensures
        !is_success_status(status as int) ==> r == Err::<MyKey, ApiError>(ApiError::Transport),
        is_success_status(status as int) ==> match r {
            Ok(k) => json_of(body@) matches Some(j) && token_of_json(j) == Some(k.api_token@),
            Err(e) => e == ApiError::Serialization && match json_of(body@) {
                Some(j) => token_of_json(j) is None,
                None => true,
            },
        },
{
    match classify_status(status) {
        Err(e) => Err(e),
        Ok(u) => decode_token_body(body),
    }
}

/// Judge a whole current-entry response.
pub fn decode_current_response(status: u16, body: &str) -> (r: Result<Option<Entry>, ApiError>)
    ensures
        !is_success_status(status as int) ==> r == Err::<Option<Entry>, ApiError>(
            ApiError::Transport,
        ),
        is_success_status(status as int) ==> match r {
            Ok(None) => json_of(body@) == Some(JsonData::Null),
            Ok(Some(e)) => json_of(body@) matches Some(j) && j != JsonData::Null && entry_of_json(
                j,
            ) == Some(e@),
            Err(err) => err == ApiError::Serialization && match json_of(body@) {
                Some(j) => j != JsonData::Null && entry_of_json(j) is None,
                None => true,
            },
        },
{
    match classify_status(status) {
        Err(e) => Err(e),
        Ok(u) => decode_current_body(body),
    }
}

/// Judge a whole single-entry response.
pub fn decode_entry_response(status: u16, body: &str) -> (r: Result<Entry, ApiError>)
    ensures
        !is_success_status(status as int) ==> r == Err::<Entry, ApiError>(ApiError::Transport),
        is_success_status(status as int) ==> match r {
            Ok(e) => json_of(body@) matches Some(j) && entry_of_json(j) == Some(e@),
            Err(err) => err == ApiError::Serialization && match json_of(body@) {
                Some(j) => entry_of_json(j) is None,
                None => true,
            },
        },
{
    match classify_status(status) {
        Err(e) => Err(e),
        Ok(u) => decode_entry_body(body),
    }
}

/// Judge a whole entry-listing response.
pub fn decode_entries_response(status: u16, body: &str) -> (r: Result<Vec<Entry>, ApiError>)
    ensures
        !is_success_status(status as int) ==> (r matches Err(e) && e == ApiError::Transport),
        is_success_status(status as int) ==> match r {
            Ok(es) => json_of(body@) matches Some(j) && entries_of_json(j) == Some(
                es.deep_view(),
            ),
            Err(err) => err == ApiError::Serialization && match json_of(body@) {
                Some(j) => entries_of_json(j) is None,
                None => true,
            },
        },
{
    match classify_status(status) {
        Err(e) => Err(e),
        Ok(u) => decode_entries_body(body),
    }
}

/// Judge a stop response: the operation returns no content, so success is
/// exactly a non-error HTTP response.
pub fn decode_stop_response(status: u16) -> (r: Result<(), ApiError>)
    ensures
        match r {
            Ok(u) => is_success_status(status as int),
            Err(e) => !is_success_status(status as int) && e == ApiError::Transport,
        },
{
    classify_status(status)
}

/// The Unix timestamp of the last UTC midnight at or before `now`: `now`
/// rounded down to a whole number of days.
pub fn midnight_utc(now: i64) -> (r: i64)
    requires
        now >= 0,
    ensures
        r == utc_midnight(now as int),
        r % 86400 == 0,
        r <= now < r + 86400,
{
    now - now % 86400
}

/// Relies on chrono's Utc::now: the current time as Unix seconds.  Nothing
/// can be promised of a clock reading; callers handle every value.
#[verifier::external_body]
pub fn now_unix() -> i64 {
    chrono::Utc::now().timestamp()
}

/// Relies on chrono's Utc::now and to_rfc3339: the current UTC time
/// written as RFC 3339 text.  Nothing can be promised of a clock reading;
/// callers handle every value.
#[verifier::external_body]
pub fn now_rfc3339() -> String {
    chrono::Utc::now().to_rfc3339()
}

} // verus!
