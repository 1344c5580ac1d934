//! The status of a checked link, and the status of a link as the cache of
//! an earlier run kept it.
//!
//! HTTP status codes are held as their numbers.
use std::collections::HashSet;

use vstd::prelude::*;

use crate::accept::ranges_hold;
use crate::diagnosis::RequestFailure;
use crate::error::{
    error_kind_details, error_kind_message, status_code_text, write_status_code, ErrorKind,
};
use crate::exclude::{exclude_message, ExcludeReason};
use crate::request_builder::{request_error_text, RequestError};
use crate::status_code::StatusCodeSelector;
use crate::text::{append_str, chars_of, decimal, decimal_string, parse_u16, parse_u16_str, str_eq, string_of};

verus! {

/// The status of a request as the cache keeps it. It is kept simple on
/// purpose, because the cache file may be read by other tools or edited by
/// hand.
#[derive(Debug, Clone, Copy, PartialEq, Eq, Hash)]
pub enum CacheStatus {
    /// The cached request delivered a valid response, with this status code.
    Success(u16),
    /// The cached request failed before, with this status code if there
    /// was one.
    Error(Option<u16>),
    /// The request was excluded (skipped).
    Excluded,
    /// The protocol is not supported; no longer written to the cache, but
    /// still read from older cache files.
    Unsupported,
}

/// The message for a cached number that is no HTTP status code.
pub open spec fn invalid_cached_code_message() -> Seq<char> {
    "invalid status code value, expected the value to be >= 100 and <= 999"@
}

/// What the cache text of a status stands for: `Excluded`, `Unsupported`,
/// or a status code, which is a success from 200 to 299 and an error
/// otherwise; any other text is an error without status code. A number
/// that is no status code (outside 100 to 999) is refused.
pub open spec fn cache_status_parse(s: Seq<char>) -> Result<CacheStatus, ()> {
    if s == "Excluded"@ {
        Ok(CacheStatus::Excluded)
    } else if s == "Unsupported"@ {
        Ok(CacheStatus::Unsupported)
    } else {
        match parse_u16(s) {
            Some(code) => if 100 <= code <= 999 {
                if 200 <= code <= 299 {
                    Ok(CacheStatus::Success(code))
                } else {
                    Ok(CacheStatus::Error(Some(code)))
                }
            } else {
                Err(())
            },
            None => Ok(CacheStatus::Error(None)),
        }
    }
}

/// How a cache status is written.
pub open spec fn cache_status_text(s: CacheStatus) -> Seq<char> {
    match s {
        CacheStatus::Success(_) => "OK (cached)"@,
        CacheStatus::Error(_) => "Error (cached)"@,
        CacheStatus::Excluded => "Excluded (cached)"@,
        CacheStatus::Unsupported => "Unsupported (cached)"@,
    }
}

/// The status code of a cache status, if it has one.
pub open spec fn cache_status_code(s: CacheStatus) -> Option<u16> {
    match s {
        CacheStatus::Success(code) => Some(code),
        CacheStatus::Error(code) => code,
        _ => None,
    }
}

fn text_of(s: &str) -> (r: String)
    ensures
        r@ == s@,
{
    string_of(chars_of(s).as_slice())
}

impl CacheStatus {
    /// Reads the cache text of a status; fails on a number that is no HTTP
    /// status code, with a message that says so.
    pub fn parse(status: &str) -> (r: Result<CacheStatus, &'static str>)
        ensures
            match cache_status_parse(status@) {
                Ok(s) => r == Ok::<CacheStatus, &'static str>(s),
                Err(()) => r matches Err(m) && m@ == invalid_cached_code_message(),
            },
    {
        if str_eq(status, "Excluded") {
            return Ok(CacheStatus::Excluded);
        }
        if str_eq(status, "Unsupported") {
            return Ok(CacheStatus::Unsupported);
        }
        match parse_u16_str(status) {
            Some(code) => {
                if 100 <= code && code <= 999 {
                    if 200 <= code && code <= 299 {
                        Ok(CacheStatus::Success(code))
                    } else {
                        Ok(CacheStatus::Error(Some(code)))
                    }
                } else {
                    let m = "invalid status code value, expected the value to be >= 100 and <= 999";
                    proof {
                        reveal_strlit(
                            "invalid status code value, expected the value to be >= 100 and <= 999",
                        );
                    }
                    Err(m)
                }
            },
            None => Ok(CacheStatus::Error(None)),
        }
    }

    /// How this status is written.
    pub fn to_string(&self) -> (r: String)
        ensures
            r@ == cache_status_text(*self),
    {
        match self {
            CacheStatus::Success(_) => text_of("OK (cached)"),
            CacheStatus::Error(_) => text_of("Error (cached)"),
            CacheStatus::Excluded => text_of("Excluded (cached)"),
            CacheStatus::Unsupported => text_of("Unsupported (cached)"),
        }
    }

    /// The status code of this status, if it has one.
    pub fn code(&self) -> (r: Option<u16>)
        ensures
            r == cache_status_code(*self),
    {
        match self {
            CacheStatus::Success(code) => Some(*code),
            CacheStatus::Error(code) => *code,
            _ => None,
        }
    }

    /// Whether the status code of this status is one that `excluder`
    /// selects; a status without code is not excluded.
    pub fn is_excluded(&self, excluder: &StatusCodeSelector) -> (r: bool)
        ensures
            r == match cache_status_code(*self) {
                Some(code) => ranges_hold(excluder@, code),
                None => false,
            },
    {
        match self.code() {
            Some(code) => excluder.contains(code),
            None => false,
        }
    }

    /// The status that the cache keeps of a link's status.
    pub fn from_status(s: &Status) -> (r: CacheStatus)
        ensures
            r == cache_status_of(*s),
    {
        match s {
            Status::Cached(c) => *c,
            Status::Success(code) => CacheStatus::Success(*code),
            Status::UnknownStatusCode(code) => CacheStatus::Success(*code),
            Status::Excluded(_) => CacheStatus::Excluded,
            Status::Unsupported(_) => CacheStatus::Unsupported,
            Status::Timeout(code) => CacheStatus::Error(*code),
            Status::Error(e) => match e {
                ErrorKind::RejectedStatusCode(code) => CacheStatus::Error(Some(*code)),
                ErrorKind::ReadResponseBody(f) => CacheStatus::Error(f.status),
                ErrorKind::BuildRequestClient(f) => CacheStatus::Error(f.status),
                _ => CacheStatus::Error(None),
            },
            Status::RequestError(_) => CacheStatus::Error(None),
            Status::UnknownMailStatus(_) => CacheStatus::Error(None),
        }
    }
}

/// The status of a checked link.
#[derive(Debug, PartialEq, Eq, Hash)]
pub enum Status {
    /// The request was successful, with this status code.
    Success(u16),
    /// The request failed.
    Error(ErrorKind),
    /// The request could not be built.
    RequestError(RequestError),
    /// The request timed out, with the status code if one came.
    Timeout(Option<u16>),
    /// The status code is not known.
    UnknownStatusCode(u16),
    /// The mail address could not be reliably identified; the reason.
    UnknownMailStatus(String),
    /// The resource was excluded from checking.
    Excluded(ExcludeReason),
    /// The request type is not supported, for example a `slack://` URL.
    Unsupported(ErrorKind),
    /// The status kept in the cache by an earlier run.
    Cached(CacheStatus),
}

/// The status the cache keeps of a link's status: a status code that came
/// is kept with it, every failure is an error, and a status from the cache
/// is kept as it is.
pub open spec fn cache_status_of(s: Status) -> CacheStatus {
    match s {
        Status::Cached(c) => c,
        Status::Success(code) => CacheStatus::Success(code),
        Status::UnknownStatusCode(code) => CacheStatus::Success(code),
        Status::Excluded(_) => CacheStatus::Excluded,
        Status::Unsupported(_) => CacheStatus::Unsupported,
        Status::Timeout(code) => CacheStatus::Error(code),
        Status::Error(e) => match e {
            ErrorKind::RejectedStatusCode(code) => CacheStatus::Error(Some(code)),
            ErrorKind::ReadResponseBody(f) => CacheStatus::Error(f.status),
            ErrorKind::BuildRequestClient(f) => CacheStatus::Error(f.status),
            _ => CacheStatus::Error(None),
        },
        Status::RequestError(_) => CacheStatus::Error(None),
        Status::UnknownMailStatus(_) => CacheStatus::Error(None),
    }
}

/// How a status is written.
pub open spec fn status_text(s: Status) -> Seq<char> {
    match s {
        Status::Success(code) => status_code_text(code),
        Status::UnknownStatusCode(code) => "Unknown status ("@ + status_code_text(code) + ")"@,
        Status::UnknownMailStatus(_) => "Unknown mail status"@,
        Status::Timeout(Some(code)) => "Timeout ("@ + status_code_text(code) + ")"@,
        Status::Timeout(None) => "Timeout"@,
        Status::Unsupported(e) => "Unsupported: "@ + error_kind_message(e),
        Status::Error(e) => error_kind_message(e),
        Status::RequestError(e) => request_error_text(e),
        Status::Cached(c) => cache_status_text(c),
        Status::Excluded(_) => "Excluded"@,
    }
}

/// The details of a status, for humans.
pub open spec fn status_details(s: Status) -> Seq<char> {
    match s {
        Status::Success(code) => status_code_text(code),
        Status::Error(e) => error_kind_details(e),
        Status::RequestError(e) => error_kind_details(request_error_cause(e)),
        Status::UnknownMailStatus(reason) => reason@,
        Status::Timeout(_) => "Request timed out"@,
        Status::Excluded(reason) => exclude_message(reason),
        _ => status_text(s),
    }
}

/// The cause of a request error.
pub open spec fn request_error_cause(e: RequestError) -> ErrorKind {
    match e {
        RequestError::CreateRequestItem(_, _, k) => k,
        RequestError::GetInputContent(_, k) => k,
        RequestError::UserInputContent(_, k) => k,
    }
}

/// The failed request behind an error, for the errors that have one.
pub open spec fn request_failure_of(e: ErrorKind) -> Option<RequestFailure> {
    match e {
        ErrorKind::NetworkRequest(f) => Some(f),
        ErrorKind::ReadResponseBody(f) => Some(f),
        ErrorKind::BuildRequestClient(f) => Some(f),
        _ => None,
    }
}

/// The HTTP status code of a status, if it has one.
pub open spec fn status_code_of(s: Status) -> Option<u16> {
    match s {
        Status::Success(code) => Some(code),
        Status::UnknownStatusCode(code) => Some(code),
        Status::Timeout(Some(code)) => Some(code),
        Status::Cached(CacheStatus::Success(code)) => Some(code),
        Status::Cached(CacheStatus::Error(Some(code))) => Some(code),
        Status::Error(k) => error_status_code(k),
        Status::Unsupported(k) => error_status_code(k),
        _ => None,
    }
}

/// The status code an error carries: the rejected code, or the status of
/// the failed request behind it.
pub open spec fn error_status_code(k: ErrorKind) -> Option<u16> {
    match k {
        ErrorKind::RejectedStatusCode(code) => Some(code),
        _ => match request_failure_of(k) {
            Some(f) => f.status,
            None => None,
        },
    }
}

/// The status code of a status as text, or a word for its kind.
pub open spec fn status_code_string(s: Status) -> Seq<char> {
    match s {
        Status::Success(code) => decimal(code as nat),
        Status::UnknownStatusCode(code) => decimal(code as nat),
        Status::UnknownMailStatus(_) => "UNKNOWN"@,
        Status::Excluded(_) => "EXCLUDED"@,
        Status::Error(e) => match e {
            ErrorKind::RejectedStatusCode(code) => decimal(code as nat),
            ErrorKind::ReadResponseBody(f) => optional_code_string(f.status, "ERROR"@),
            ErrorKind::BuildRequestClient(f) => optional_code_string(f.status, "ERROR"@),
            _ => "ERROR"@,
        },
        Status::RequestError(_) => "ERROR"@,
        Status::Timeout(code) => optional_code_string(code, "TIMEOUT"@),
        Status::Unsupported(_) => "IGNORED"@,
        Status::Cached(c) => match c {
            CacheStatus::Success(code) => decimal(code as nat),
            CacheStatus::Error(code) => optional_code_string(code, "ERROR"@),
            CacheStatus::Excluded => "EXCLUDED"@,
            CacheStatus::Unsupported => "IGNORED"@,
        },
    }
}

/// A status code as text, or `word` when there is none.
pub open spec fn optional_code_string(code: Option<u16>, word: Seq<char>) -> Seq<char> {
    match code {
        Some(c) => decimal(c as nat),
        None => word,
    }
}

/// The status that an error stands for: a timeout, a request that could
/// not be built or whose body could not be read (unsupported), or an error.
pub open spec fn status_of_error(e: ErrorKind) -> Status {
    match request_failure_of(e) {
        Some(f) => if f.is_timeout {
            Status::Timeout(f.status)
        } else if f.is_builder {
            Status::Unsupported(ErrorKind::BuildRequestClient(f))
        } else if f.is_body || f.is_decode {
            Status::Unsupported(ErrorKind::ReadResponseBody(f))
        } else {
            Status::Error(ErrorKind::NetworkRequest(f))
        },
        None => Status::Error(e),
    }
}

/// The status of a cached status under the status codes accepted now: a
/// cached error whose code is accepted now is a success.
pub open spec fn status_of_cached(s: CacheStatus, accepted: Set<u16>) -> Status {
    match s {
        CacheStatus::Error(Some(code)) => if accepted.contains(code) {
            Status::Cached(CacheStatus::Success(code))
        } else {
            Status::Cached(s)
        },
        _ => Status::Cached(s),
    }
}

/// Whether a status is a success: a success, fresh or cached.
pub open spec fn status_is_success(s: Status) -> bool {
    s is Success || (s matches Status::Cached(c) && c is Success)
}

/// Whether a status is an error: a failed request, a request that could
/// not be built, a timeout, or a cached error.
pub open spec fn status_is_error(s: Status) -> bool {
    s is Error || s is RequestError || s is Timeout || (s matches Status::Cached(c) && c is Error)
}

/// Whether a status is an exclusion, fresh or cached.
pub open spec fn status_is_excluded(s: Status) -> bool {
    s is Excluded || s == Status::Cached(CacheStatus::Excluded)
}

/// Whether a status is unsupported, fresh or cached.
pub open spec fn status_is_unsupported(s: Status) -> bool {
    s is Unsupported || s == Status::Cached(CacheStatus::Unsupported)
}

/// The icon of a status.
pub open spec fn status_icon(s: Status) -> Seq<char> {
    match s {
        Status::Success(_) => "✔"@,
        Status::UnknownStatusCode(_) => "?"@,
        Status::UnknownMailStatus(_) => "?"@,
        Status::Excluded(_) => "?"@,
        Status::Error(_) => "✗"@,
        Status::RequestError(_) => "✗"@,
        Status::Timeout(_) => "⧖"@,
        Status::Unsupported(_) => "?"@,
        Status::Cached(_) => "↻"@,
    }
}

/// Writes a status code as text, or `word` when there is none.
fn optional_code_text(code: Option<u16>, word: &str) -> (r: String)
    ensures
        r@ == optional_code_string(code, word@),
{
    match code {
        Some(c) => decimal_string(c),
        None => text_of(word),
    }
}

impl Status {
    /// The status of a response: a success when its status code is
    /// accepted, an error that rejects the code otherwise.
    pub fn new(status: u16, accepted: &HashSet<u16>) -> (r: Status)
        ensures
            r == (if accepted@.contains(status) {
                Status::Success(status)
            } else {
                Status::Error(ErrorKind::RejectedStatusCode(status))
            }),
    {
        broadcast use vstd::std_specs::hash::group_hash_axioms;

        if accepted.contains(&status) {
            Status::Success(status)
        } else {
            Status::Error(ErrorKind::RejectedStatusCode(status))
        }
    }

    /// The status of a status cached by an earlier run, under the status
    /// codes accepted now, which may differ from those of that run.
    pub fn from_cache_status(s: CacheStatus, accepted: &HashSet<u16>) -> (r: Status)
        ensures
            r == status_of_cached(s, accepted@),
    {
        broadcast use vstd::std_specs::hash::group_hash_axioms;

        match s {
            CacheStatus::Success(code) => Status::Cached(CacheStatus::Success(code)),
            CacheStatus::Error(code) => {
                match code {
                    Some(c) => {
                        if accepted.contains(&c) {
                            return Status::Cached(CacheStatus::Success(c));
                        }
                    },
                    None => {},
                }
                Status::Cached(CacheStatus::Error(code))
            },
            _ => Status::Cached(s),
        }
    }

    /// The status that an error stands for.
    pub fn from_error(e: ErrorKind) -> (r: Status)
        ensures
            r == status_of_error(e),
    {
        match e {
            ErrorKind::NetworkRequest(f) => Status::of_failure(f),
            ErrorKind::ReadResponseBody(f) => Status::of_failure(f),
            ErrorKind::BuildRequestClient(f) => Status::of_failure(f),
            e => Status::Error(e),
        }
    }

    fn of_failure(f: RequestFailure) -> (r: Status)
        ensures
            r == (if f.is_timeout {
                Status::Timeout(f.status)
            } else if f.is_builder {
                Status::Unsupported(ErrorKind::BuildRequestClient(f))
            } else if f.is_body || f.is_decode {
                Status::Unsupported(ErrorKind::ReadResponseBody(f))
            } else {
                Status::Error(ErrorKind::NetworkRequest(f))
            }),
    {
        if f.is_timeout {
            Status::Timeout(f.status)
        } else if f.is_builder {
            Status::Unsupported(ErrorKind::BuildRequestClient(f))
        } else if f.is_body || f.is_decode {
            Status::Unsupported(ErrorKind::ReadResponseBody(f))
        } else {
            Status::Error(ErrorKind::NetworkRequest(f))
        }
    }

    /// How this status is written.
    pub fn to_string(&self) -> (r: String)
        ensures
            r@ == status_text(*self),
    {
        let mut out: Vec<char> = Vec::new();
        match self {
            Status::Success(code) => write_status_code(&mut out, *code),
            Status::UnknownStatusCode(code) => {
                append_str(&mut out, "Unknown status (");
                write_status_code(&mut out, *code);
                append_str(&mut out, ")");
            },
            Status::UnknownMailStatus(_) => append_str(&mut out, "Unknown mail status"),
            Status::Timeout(Some(code)) => {
                append_str(&mut out, "Timeout (");
                write_status_code(&mut out, *code);
                append_str(&mut out, ")");
            },
            Status::Timeout(None) => append_str(&mut out, "Timeout"),
            Status::Unsupported(e) => {
                let m = e.message();
                append_str(&mut out, "Unsupported: ");
                append_str(&mut out, m.as_str());
            },
            Status::Error(e) => {
                let m = e.message();
                append_str(&mut out, m.as_str());
            },
            Status::RequestError(e) => {
                let m = e.to_string();
                append_str(&mut out, m.as_str());
            },
            Status::Cached(c) => {
                let m = c.to_string();
                append_str(&mut out, m.as_str());
            },
            Status::Excluded(_) => append_str(&mut out, "Excluded"),
        }
        string_of(out.as_slice())
    }

    /// More details about this status, for humans.
    pub fn details(&self) -> (r: String)
        ensures
            r@ == status_details(*self),
    {
        match self {
            Status::Success(code) => {
                let mut out: Vec<char> = Vec::new();
                write_status_code(&mut out, *code);
                string_of(out.as_slice())
            },
            Status::Error(e) => e.details(),
            Status::RequestError(e) => e.error().details(),
            Status::UnknownMailStatus(reason) => text_of(reason.as_str()),
            Status::Timeout(_) => text_of("Request timed out"),
            Status::Excluded(reason) => reason.to_string(),
            _ => self.to_string(),
        }
    }

    /// Whether the check was successful.
    pub fn is_success(&self) -> (r: bool)
        ensures
            r == status_is_success(*self),
    {
        match self {
            Status::Success(_) => true,
            Status::Cached(CacheStatus::Success(_)) => true,
            _ => false,
        }
    }

    /// Whether the check was not successful.
    pub fn is_error(&self) -> (r: bool)
        ensures
            r == status_is_error(*self),
    {
        match self {
            Status::Error(_) => true,
            Status::RequestError(_) => true,
            Status::Cached(CacheStatus::Error(_)) => true,
            Status::Timeout(_) => true,
            _ => false,
        }
    }

    /// Whether the link was excluded.
    pub fn is_excluded(&self) -> (r: bool)
        ensures
            r == status_is_excluded(*self),
    {
        match self {
            Status::Excluded(_) => true,
            Status::Cached(CacheStatus::Excluded) => true,
            _ => false,
        }
    }

    /// Whether the check took too long to complete.
    pub fn is_timeout(&self) -> (r: bool)
        ensures
            r == self is Timeout,
    {
        matches!(self, Status::Timeout(_))
    }

    /// Whether the link is not supported.
    pub fn is_unsupported(&self) -> (r: bool)
        ensures
            r == status_is_unsupported(*self),
    {
        match self {
            Status::Unsupported(_) => true,
            Status::Cached(CacheStatus::Unsupported) => true,
            _ => false,
        }
    }

    /// Whether the status code is not a known HTTP status code.
    pub fn is_unknown(&self) -> (r: bool)
        ensures
            r == self is UnknownStatusCode,
    {
        matches!(self, Status::UnknownStatusCode(_))
    }

    /// An icon that shows the status.
    pub fn icon(&self) -> (r: &'static str)
        ensures
            r@ == status_icon(*self),
    {
        proof {
            reveal_strlit("✔");
            reveal_strlit("?");
            reveal_strlit("✗");
            reveal_strlit("⧖");
            reveal_strlit("↻");
        }
        match self {
            Status::Success(_) => "✔",
            Status::UnknownStatusCode(_) => "?",
            Status::UnknownMailStatus(_) => "?",
            Status::Excluded(_) => "?",
            Status::Error(_) => "✗",
            Status::RequestError(_) => "✗",
            Status::Timeout(_) => "⧖",
            Status::Unsupported(_) => "?",
            Status::Cached(_) => "↻",
        }
    }

    /// The HTTP status code of this status, if it has one.
    pub fn code(&self) -> (r: Option<u16>)
        ensures
            r == status_code_of(*self),
    {
        match self {
            Status::Success(code) => Some(*code),
            Status::UnknownStatusCode(code) => Some(*code),
            Status::Timeout(Some(code)) => Some(*code),
            Status::Cached(CacheStatus::Success(code)) => Some(*code),
            Status::Cached(CacheStatus::Error(Some(code))) => Some(*code),
            Status::Error(k) => error_code(k),
            Status::Unsupported(k) => error_code(k),
            _ => None,
        }
    }

    /// The HTTP status code of this status as text, or a word for its kind:
    /// `UNKNOWN`, `EXCLUDED`, `ERROR`, `TIMEOUT` or `IGNORED`.
    pub fn code_as_string(&self) -> (r: String)
        ensures
            r@ == status_code_string(*self),
    {
        match self {
            Status::Success(code) => decimal_string(*code),
            Status::UnknownStatusCode(code) => decimal_string(*code),
            Status::UnknownMailStatus(_) => text_of("UNKNOWN"),
            Status::Excluded(_) => text_of("EXCLUDED"),
            Status::Error(e) => match e {
                ErrorKind::RejectedStatusCode(code) => decimal_string(*code),
                ErrorKind::ReadResponseBody(f) => optional_code_text(f.status, "ERROR"),
                ErrorKind::BuildRequestClient(f) => optional_code_text(f.status, "ERROR"),
                _ => text_of("ERROR"),
            },
            Status::RequestError(_) => text_of("ERROR"),
            Status::Timeout(code) => optional_code_text(*code, "TIMEOUT"),
            Status::Unsupported(_) => text_of("IGNORED"),
            Status::Cached(c) => match c {
                CacheStatus::Success(code) => decimal_string(*code),
                CacheStatus::Error(code) => optional_code_text(*code, "ERROR"),
                CacheStatus::Excluded => text_of("EXCLUDED"),
                CacheStatus::Unsupported => text_of("IGNORED"),
            },
        }
    }
}

/// What a status is serialized as: its text, and its status code when it
/// has one, otherwise its details.
#[derive(Debug, Clone, PartialEq, Eq)]
pub struct StatusSummary {
    /// How the status is written
    pub text: String,
    /// The status code, if the status has one
    pub code: Option<u16>,
    /// The details of the status, given when it has no status code
    pub details: Option<String>,
}

impl Status {
    /// What this status is serialized as: its text with its status code,
    /// or, when it has none, with its details.
    pub fn summary(&self) -> (r: StatusSummary)
        ensures
            r.text@ == status_text(*self),
            r.code == status_code_of(*self),
            match status_code_of(*self) {
                Some(_) => r.details is None,
                None => r.details matches Some(d) && d@ == status_details(*self),
            },
    {
        let text = self.to_string();
        match self.code() {
            Some(code) => StatusSummary { text, code: Some(code), details: None },
            None => StatusSummary { text, code: None, details: Some(self.details()) },
        }
    }
}

/// The status code an error carries.
fn error_code(k: &ErrorKind) -> (r: Option<u16>)
    ensures
        r == error_status_code(*k),
{
    match k {
        ErrorKind::RejectedStatusCode(code) => Some(*code),
        ErrorKind::NetworkRequest(f) => f.status,
        ErrorKind::ReadResponseBody(f) => f.status,
        ErrorKind::BuildRequestClient(f) => f.status,
        _ => None,
    }
}


/// A status is at most one of: a success, an error, an exclusion, an
/// unsupported link.
pub proof fn law_status_kinds_exclusive(s: Status)
    ensures
        !(status_is_success(s) && status_is_error(s)),
        !(status_is_success(s) && status_is_excluded(s)),
        !(status_is_success(s) && status_is_unsupported(s)),
        !(status_is_error(s) && status_is_excluded(s)),
        !(status_is_error(s) && status_is_unsupported(s)),
        !(status_is_excluded(s) && status_is_unsupported(s)),
{
}

/// The cache keeps the status code of a status, unless the status is an
/// unsupported link or a network error (whose status code is not kept).
pub proof fn law_cache_keeps_status_code(s: Status)
    requires
        !(s is Unsupported),
        !(s matches Status::Error(ErrorKind::NetworkRequest(_))),
    ensures
        cache_status_code(cache_status_of(s)) == status_code_of(s),
{
}

/// A success kept in the cache is read back as a cached success with the
/// same code, whatever codes are accepted when it is read; a cached error
/// whose code is accepted when it is read is a success.
pub proof fn law_cached_success(code: u16, accepted: Set<u16>)
    ensures
        status_of_cached(cache_status_of(Status::Success(code)), accepted) == Status::Cached(
            CacheStatus::Success(code),
        ),
        accepted.contains(code) ==> status_is_success(
            status_of_cached(CacheStatus::Error(Some(code)), accepted),
        ),
{
}

} // verus!
