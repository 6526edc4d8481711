//! How the host's answers become results: missing objects, delete answers
//! that are a status, and the events of watch streams.

use vstd::prelude::*;

use crate::answers::{parses_as_status, status_answer};
use crate::config::opt_view;
use crate::error::ClientError;
use crate::host::{self, HostError};

verus! {

/// The outcome summary of a status.
#[derive(Debug, Clone, Copy, PartialEq, Eq)]
pub enum StatusSummary {
    Success,
    Failure,
}

/// A status answer: outcome, HTTP code, message and reason.
#[derive(Debug, Clone, PartialEq, Eq)]
pub struct ApiStatus {
    pub status: Option<StatusSummary>,
    pub code: u16,
    pub message: String,
    pub reason: String,
}

/// A watch event whose object (or bookmark) is still JSON text.
#[derive(Debug, Clone, PartialEq, Eq)]
pub enum WatchEvent {
    Added(String),
    Modified(String),
    Deleted(String),
    Bookmark(String),
    Error(ApiStatus),
}

/// The text that `{:?}` writes for a string: in double quotes, with the
/// escapes of `char::escape_debug` for every character but the single quote,
/// which stays as it is.
pub uninterp spec fn debug_quoted(s: Seq<char>) -> Seq<char>;

/// `<str as Debug>::fmt`, through `format!("{:?}", s)`. Claimed: the text is
/// `debug_quoted` of `s`.
#[verifier::external_body]
pub(crate) fn str_debug(s: &str) -> (text: String)
    ensures
        text@ == debug_quoted(s@),
{
    format!("{:?}", s)
}

/// The text that `{:?}` writes for a host error.
pub open spec fn host_error_debug(e: HostError) -> Seq<char> {
    match e {
        HostError::NotFound => "NotFound"@,
        HostError::Other(m) => "Other("@ + debug_quoted(m@) + ")"@,
    }
}

/// The message of the status that stands for a host error on a watch stream.
pub open spec fn watch_error_message(e: HostError) -> Seq<char> {
    "wit_error: "@ + host_error_debug(e)
}

/// The text that `{:?}` writes for a host error.
pub fn host_error_debug_text(e: &HostError) -> (text: String)
    ensures
        text@ == host_error_debug(*e),
{
    match e {
        HostError::NotFound => "NotFound".to_owned(),
        HostError::Other(m) => {
            let mut text = "Other(".to_owned();
            let quoted = str_debug(m.as_str());
            text.append(quoted.as_str());
            text.append(")");
            text
        },
    }
}

/// The failure status that stands for a host error on a watch stream.
pub fn watch_error_status(e: &HostError) -> (status: ApiStatus)
    ensures
        status.status == Some(StatusSummary::Failure),
        status.code == 500,
        status.message@ == watch_error_message(*e),
        status.reason@ == "WitError"@,
{
    let mut message = "wit_error: ".to_owned();
    let debug = host_error_debug_text(e);
    message.append(debug.as_str());
    ApiStatus {
        status: Some(StatusSummary::Failure),
        code: 500,
        message,
        reason: "WitError".to_owned(),
    }
}

/// The event that a host watch event stands for: objects and bookmarks pass
/// through as text, and a host error becomes a failure status.
pub fn translate_watch_event(event: host::WatchEvent) -> (res: WatchEvent)
    ensures
        event matches host::WatchEvent::Added(s) ==> res == WatchEvent::Added(s),
        event matches host::WatchEvent::Modified(s) ==> res == WatchEvent::Modified(s),
        event matches host::WatchEvent::Deleted(s) ==> res == WatchEvent::Deleted(s),
        event matches host::WatchEvent::Bookmark(s) ==> res == WatchEvent::Bookmark(s),
        event matches host::WatchEvent::Error(e) ==> (res matches WatchEvent::Error(st) && st.status
            == Some(StatusSummary::Failure) && st.code == 500 && st.message@ == watch_error_message(e)
            && st.reason@ == "WitError"@),
{
    match event {
        host::WatchEvent::Added(s) => WatchEvent::Added(s),
        host::WatchEvent::Modified(s) => WatchEvent::Modified(s),
        host::WatchEvent::Deleted(s) => WatchEvent::Deleted(s),
        host::WatchEvent::Bookmark(s) => WatchEvent::Bookmark(s),
        host::WatchEvent::Error(e) => WatchEvent::Error(watch_error_status(&e)),
    }
}

/// The result of a lookup that tolerates a missing object: `None` when the
/// host reported the object missing, the object when found, and any other
/// error unchanged.
pub fn found_or_none<T>(res: Result<T, ClientError>) -> (out: Result<Option<T>, ClientError>)
    ensures
        res matches Ok(v) ==> out == Ok::<Option<T>, ClientError>(Some(v)),
        res matches Err(ClientError::Wit(HostError::NotFound)) ==> out == Ok::<
            Option<T>,
            ClientError,
        >(None),
        res is Err && !(res matches Err(ClientError::Wit(HostError::NotFound))) ==> out
            == Err::<Option<T>, ClientError>(res->Err_0),
{
    match res {
        Ok(v) => Ok(Some(v)),
        Err(ClientError::Wit(HostError::NotFound)) => Ok(None),
        Err(e) => Err(e),
    }
}

/// Whether `text` reads as a JSON value.
pub uninterp spec fn json_parses(text: Seq<char>) -> bool;

/// The string that the JSON value read from `text` holds under the
/// top-level key `key`; `None` when that value is not an object, has no such
/// key, or holds something other than a string there.
pub uninterp spec fn json_str_field(text: Seq<char>, key: Seq<char>) -> Option<Seq<char>>;

/// The unsigned integer that the JSON value read from `text` holds under the
/// top-level key `key`; `None` when that value is not an object, has no such
/// key, or holds something other than an integer in `u64` there.
pub uninterp spec fn json_u64_field(text: Seq<char>, key: Seq<char>) -> Option<u64>;

/// Reads `text` with `serde_json::from_str::<serde_json::Value>` and takes the
/// field `key` with `Value::get` and `Value::as_str`. Claimed: an error exactly
/// when the text is not JSON, else `json_str_field` of the text and key.
#[verifier::external_body]
fn serde_json_str_field(text: &str, key: &str) -> (res: Result<Option<String>, serde_json::Error>)
    ensures
        res is Ok <==> json_parses(text@),
        res matches Ok(f) ==> opt_view(f) == json_str_field(text@, key@),
{
    match serde_json::from_str::<serde_json::Value>(text) {
        Ok(v) => Ok(v.get(key).and_then(serde_json::Value::as_str).map(str::to_owned)),
        Err(e) => Err(e),
    }
}

/// Reads `text` with `serde_json::from_str::<serde_json::Value>` and takes the
/// field `key` with `Value::get` and `Value::as_u64`. Claimed: an error exactly
/// when the text is not JSON, else `json_u64_field` of the text and key.
#[verifier::external_body]
fn serde_json_u64_field(text: &str, key: &str) -> (res: Result<Option<u64>, serde_json::Error>)
    ensures
        res is Ok <==> json_parses(text@),
        res matches Ok(f) ==> f == json_u64_field(text@, key@),
{
    match serde_json::from_str::<serde_json::Value>(text) {
        Ok(v) => Ok(v.get(key).and_then(serde_json::Value::as_u64)),
        Err(e) => Err(e),
    }
}

/// What the answer to a delete call is.
#[derive(Debug, PartialEq)]
pub enum DeleteAnswer {
    /// The object, whose deletion has started; its text is read as the
    /// caller's object type.
    Object,
    /// The status confirming the deletion.
    Status(kube_core::response::Status),
}

/// Whether a status code reports a client or server error (4XX or 5XX).
pub open spec fn is_error_code(code: Option<u64>) -> bool {
    code matches Some(c) && 400 <= c < 600
}

/// The outcome summary that the text `s` names.
pub open spec fn status_summary_of(s: Option<Seq<char>>) -> Option<StatusSummary> {
    if s == Some("Success"@) {
        Some(StatusSummary::Success)
    } else if s == Some("Failure"@) {
        Some(StatusSummary::Failure)
    } else {
        None
    }
}

/// A text field, or the empty text when absent.
pub open spec fn text_or_empty(s: Option<Seq<char>>) -> Seq<char> {
    match s {
        Some(t) => t,
        None => Seq::empty(),
    }
}

/// Whether the answer `body` is a status (its `kind` is `Status`).
pub open spec fn is_status_answer(body: Seq<char>) -> bool {
    json_str_field(body, "kind"@) == Some("Status"@)
}

/// The status that the error `e` carries for a delete answer `body` that is a
/// status with an error code.
pub open spec fn is_api_error_of(e: ClientError, body: Seq<char>) -> bool {
    e matches ClientError::Api(st) && st.code == json_u64_field(body, "code"@)->0 && st.status
        == status_summary_of(json_str_field(body, "status"@)) && st.message@ == text_or_empty(
        json_str_field(body, "message"@),
    ) && st.reason@ == text_or_empty(json_str_field(body, "reason"@))
}

fn read_str_field(body: &str, key: &str) -> (res: Result<Option<String>, ClientError>)
    ensures
        res is Ok <==> json_parses(body@),
        res matches Ok(f) ==> opt_view(f) == json_str_field(body@, key@),
        res matches Err(e) ==> e is SerdeError,
{
    match serde_json_str_field(body, key) {
        Ok(f) => Ok(f),
        Err(e) => Err(ClientError::SerdeError(e)),
    }
}

fn text_of(f: Option<String>) -> (t: String)
    ensures
        t@ == text_or_empty(opt_view(f)),
{
    match f {
        Some(t) => t,
        None => String::new(),
    }
}

/// What the answer `body` of a delete call is: a status when its `kind` is
/// `Status`, else the object. A status whose `code` is 4XX or 5XX is an error
/// of the API; an answer that is not JSON, or a status that does not read as
/// one, is a serialization error.
pub fn delete_answer(body: &str) -> (res: Result<DeleteAnswer, ClientError>)
    ensures
        !json_parses(body@) ==> (res matches Err(e) && e is SerdeError),
        json_parses(body@) && !is_status_answer(body@) ==> res == Ok::<DeleteAnswer, ClientError>(
            DeleteAnswer::Object,
        ),
        json_parses(body@) && is_status_answer(body@) && !is_error_code(
            json_u64_field(body@, "code"@),
        ) ==> (res is Ok <==> parses_as_status(body@)) && (res is Ok ==> res->Ok_0 is Status) && (
        res matches Err(e) ==> e is SerdeError),
        json_parses(body@) && is_status_answer(body@) && is_error_code(
            json_u64_field(body@, "code"@),
        ) ==> (res matches Err(e) && is_api_error_of(e, body@)),
{
    let kind = read_str_field(body, "kind")?;
    let status_kind = "Status".to_owned();
    let is_status = match kind {
        Some(k) => k == status_kind,
        None => false,
    };
    if !is_status {
        return Ok(DeleteAnswer::Object);
    }
    let code = match serde_json_u64_field(body, "code") {
        Ok(c) => c,
        Err(e) => return Err(ClientError::SerdeError(e)),
    };
    match code {
        Some(c) if 400 <= c && c < 600 => {
            let summary = read_str_field(body, "status")?;
            let success = "Success".to_owned();
            let failure = "Failure".to_owned();
            let status = match summary {
                Some(s) => if s == success {
                    Some(StatusSummary::Success)
                } else if s == failure {
                    Some(StatusSummary::Failure)
                } else {
                    None
                },
                None => None,
            };
            let message = text_of(read_str_field(body, "message")?);
            let reason = text_of(read_str_field(body, "reason")?);
            Err(ClientError::Api(ApiStatus { status, code: c as u16, message, reason }))
        },
        _ => match status_answer(body) {
            Ok(st) => Ok(DeleteAnswer::Status(st)),
            Err(e) => Err(e),
        },
    }
}

} // verus!
