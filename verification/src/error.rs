//! Errors raised while parsing, validating and resolving links.
use vstd::prelude::*;

use crate::address::{url_parse_error_text, UrlParseError};
use crate::diagnosis::{
    analyze_error_chain, canonical_reason, failure_answer, reason_phrase, IoErrorKind,
    RequestFailure,
};
use crate::text::{append_str, str_eq, decimal, decimal_string, join, string_of, string_views};
use crate::status_code::{selector_error_message, StatusCodeSelectorError};
use crate::uri::{without_mailto, Uri};

verus! {

/// Errors that occur while parsing, validating, or resolving a URI.
#[derive(Debug, Clone, PartialEq, Eq, Hash)]
pub enum UriError {
    /// The input is empty and not accepted as a valid URL.
    Empty,
    /// The given string cannot be parsed into a valid URL.
    Parse(UrlParseError, String),
    /// The given string is a root-relative link and cannot be resolved
    /// without a known root directory.
    RootRelativeWithoutRoot(String),
    /// The given path cannot be converted to a URL.
    FromPath(String),
    /// The URL is missing a host component.
    MissingHost,
    /// The given URI is syntactically invalid.
    Invalid(Uri),
    /// The given URI scheme is not supported.
    UnsupportedType(String),
    /// The given string cannot be parsed into a valid base URL or directory.
    InvalidBase(String, String),
}

/// The message of each [`UriError`].
pub open spec fn uri_error_message(e: UriError) -> Seq<char> {
    match e {
        UriError::Empty => "Empty URL found but a URL must not be empty"@,
        UriError::Parse(p, s) => "Cannot parse '"@ + s@ + "' into a URL: "@ + url_parse_error_text(p),
        UriError::RootRelativeWithoutRoot(s) => "Cannot resolve root-relative link '"@ + s@ + "'"@,
        UriError::FromPath(p) => "Cannot convert path to URL: '"@ + p@ + "'"@,
        UriError::MissingHost => "URL is missing a hostname"@,
        UriError::Invalid(u) => "The given URI is invalid, check URI syntax: "@ + without_mailto(u@),
        UriError::UnsupportedType(s) => "Unsupported URI type: '"@ + s@ + "'"@,
        UriError::InvalidBase(b, m) => "Invalid base URL or directory: '"@ + b@ + "'. "@ + m@,
    }
}

/// The details of each [`UriError`]: its message, with a remediation hint
/// for some errors.
pub open spec fn uri_error_details(e: UriError) -> Seq<char> {
    match e {
        UriError::Parse(p, _) => if p == UrlParseError::RelativeUrlWithoutBase {
            uri_error_message(e)
                + ": This relative link was found inside an input source that has no base location"@
        } else {
            uri_error_message(e)
        },
        UriError::FromPath(_) => uri_error_message(e) + ". Check path format"@,
        UriError::UnsupportedType(_) => uri_error_message(e)
            + ". Only http, https, file, and mailto are supported"@,
        _ => uri_error_message(e),
    }
}

impl UriError {
    /// The message describing this error.
    pub fn message(&self) -> (r: String)
        ensures
            r@ == uri_error_message(*self),
    {
        let mut out: Vec<char> = Vec::new();
        match self {
            UriError::Empty => append_str(&mut out, "Empty URL found but a URL must not be empty"),
            UriError::Parse(p, s) => {
                append_str(&mut out, "Cannot parse '");
                append_str(&mut out, s.as_str());
                append_str(&mut out, "' into a URL: ");
                append_str(&mut out, p.message());
            },
            UriError::RootRelativeWithoutRoot(s) => {
                append_str(&mut out, "Cannot resolve root-relative link '");
                append_str(&mut out, s.as_str());
                append_str(&mut out, "'");
            },
            UriError::FromPath(p) => {
                append_str(&mut out, "Cannot convert path to URL: '");
                append_str(&mut out, p.as_str());
                append_str(&mut out, "'");
            },
            UriError::MissingHost => append_str(&mut out, "URL is missing a hostname"),
            UriError::Invalid(u) => {
                append_str(&mut out, "The given URI is invalid, check URI syntax: ");
                append_str(&mut out, u.as_str());
            },
            UriError::UnsupportedType(s) => {
                append_str(&mut out, "Unsupported URI type: '");
                append_str(&mut out, s.as_str());
                append_str(&mut out, "'");
            },
            UriError::InvalidBase(b, m) => {
                append_str(&mut out, "Invalid base URL or directory: '");
                append_str(&mut out, b.as_str());
                append_str(&mut out, "'. ");
                append_str(&mut out, m.as_str());
            },
        }
        string_of(out.as_slice())
    }

    /// Return more details about this error, including remediation hints.
    pub fn details(&self) -> (r: String)
        ensures
            r@ == uri_error_details(*self),
    {
        let msg = self.message();
        let mut out: Vec<char> = Vec::new();
        append_str(&mut out, msg.as_str());
        match self {
            UriError::Parse(p, _) => {
                if matches!(p, UrlParseError::RelativeUrlWithoutBase) {
                    append_str(
                        &mut out,
                        ": This relative link was found inside an input source that has no base location",
                    );
                }
            },
            UriError::FromPath(_) => append_str(&mut out, ". Check path format"),
            UriError::UnsupportedType(_) => append_str(
                &mut out,
                ". Only http, https, file, and mailto are supported",
            ),
            _ => {},
        }
        string_of(out.as_slice())
    }
}

/// Internal, low-level errors that originate deep in the stack (encoding,
/// concurrent tasks, internal channels); a user can rarely act on them.
#[derive(Debug, Clone)]
pub enum InternalError {
    /// A byte sequence is not valid UTF-8; the text of the error.
    Utf8(String),
    /// A task failed to run to completion; the text of the error.
    RuntimeJoin(String),
    /// A message could not be sent or received over an internal channel.
    Channel(String),
}

/// When two internal errors count as the same: by the text of a UTF-8 or
/// task error; every channel error is the same as any other.
pub open spec fn same_internal_error(a: InternalError, b: InternalError) -> bool {
    match (a, b) {
        (InternalError::Utf8(x), InternalError::Utf8(y)) => x@ == y@,
        (InternalError::RuntimeJoin(x), InternalError::RuntimeJoin(y)) => x@ == y@,
        (InternalError::Channel(_), InternalError::Channel(_)) => true,
        _ => false,
    }
}

impl PartialEq for InternalError {
    fn eq(&self, other: &Self) -> (r: bool) {
        match (self, other) {
            (InternalError::Utf8(x), InternalError::Utf8(y)) => str_eq(x, y),
            (InternalError::RuntimeJoin(x), InternalError::RuntimeJoin(y)) => str_eq(x, y),
            (InternalError::Channel(_), InternalError::Channel(_)) => true,
            _ => false,
        }
    }
}

impl vstd::std_specs::cmp::PartialEqSpecImpl for InternalError {
    open spec fn obeys_eq_spec() -> bool {
        true
    }

    open spec fn eq_spec(&self, other: &InternalError) -> bool {
        same_internal_error(*self, *other)
    }
}

impl Eq for InternalError {}

impl core::hash::Hash for InternalError {
    fn hash<H: core::hash::Hasher>(&self, state: &mut H) {
        match self {
            InternalError::Utf8(t) => {
                hash_number(0, state);
                hash_text(t.as_str(), state);
            },
            InternalError::RuntimeJoin(t) => {
                hash_number(1, state);
                hash_text(t.as_str(), state);
            },
            InternalError::Channel(_) => hash_number(2, state),
        }
    }
}

/// Feeds a text to a hasher (`Hash::hash` of `str`); nothing is stated of
/// the hasher's state afterwards.
#[verifier::external_body]
fn hash_text<H: core::hash::Hasher>(text: &str, state: &mut H) {
    core::hash::Hash::hash(text, state)
}

/// Feeds a number to a hasher (`Hash::hash` of `u16`); nothing is stated of
/// the hasher's state afterwards.
#[verifier::external_body]
fn hash_number<H: core::hash::Hasher>(n: u16, state: &mut H) {
    core::hash::Hash::hash(&n, state)
}

/// When two I/O error kinds are the same kind.
pub open spec fn same_io_kind(a: IoErrorKind, b: IoErrorKind) -> bool {
    match (a, b) {
        (IoErrorKind::Unlisted(x), IoErrorKind::Unlisted(y)) => x@ == y@,
        (IoErrorKind::Unlisted(_), _) => false,
        (_, IoErrorKind::Unlisted(_)) => false,
        _ => a == b,
    }
}

/// The number of each I/O error kind.
pub open spec fn io_kind_number(k: IoErrorKind) -> u16 {
    match k {
        IoErrorKind::ConnectionRefused => 0,
        IoErrorKind::TimedOut => 1,
        IoErrorKind::NotFound => 2,
        IoErrorKind::PermissionDenied => 3,
        IoErrorKind::Other => 4,
        IoErrorKind::NetworkUnreachable => 5,
        IoErrorKind::AddrNotAvailable => 6,
        IoErrorKind::AddrInUse => 7,
        IoErrorKind::BrokenPipe => 8,
        IoErrorKind::InvalidData => 9,
        IoErrorKind::UnexpectedEof => 10,
        IoErrorKind::Interrupted => 11,
        IoErrorKind::Unsupported => 12,
        IoErrorKind::IsADirectory => 13,
        IoErrorKind::Unlisted(_) => 14,
    }
}

fn io_kind_code(k: &IoErrorKind) -> (r: u16)
    ensures
        r == io_kind_number(*k),
{
    match k {
        IoErrorKind::ConnectionRefused => 0,
        IoErrorKind::TimedOut => 1,
        IoErrorKind::NotFound => 2,
        IoErrorKind::PermissionDenied => 3,
        IoErrorKind::Other => 4,
        IoErrorKind::NetworkUnreachable => 5,
        IoErrorKind::AddrNotAvailable => 6,
        IoErrorKind::AddrInUse => 7,
        IoErrorKind::BrokenPipe => 8,
        IoErrorKind::InvalidData => 9,
        IoErrorKind::UnexpectedEof => 10,
        IoErrorKind::Interrupted => 11,
        IoErrorKind::Unsupported => 12,
        IoErrorKind::IsADirectory => 13,
        IoErrorKind::Unlisted(_) => 14,
    }
}

/// Whether two I/O error kinds are the same kind.
fn io_kinds_equal(a: &IoErrorKind, b: &IoErrorKind) -> (r: bool)
    ensures
        r == same_io_kind(*a, *b),
{
    match (a, b) {
        (IoErrorKind::Unlisted(x), IoErrorKind::Unlisted(y)) => str_eq(x.as_str(), y.as_str()),
        (IoErrorKind::Unlisted(_), _) => false,
        (_, IoErrorKind::Unlisted(_)) => false,
        _ => io_kind_code(a) == io_kind_code(b),
    }
}

/// Feeds an I/O error kind to a hasher, as [`same_io_kind`] tells kinds apart.
fn hash_io_kind<H: core::hash::Hasher>(k: &IoErrorKind, state: &mut H) {
    hash_number(io_kind_code(k), state);
    if let IoErrorKind::Unlisted(name) = k {
        hash_text(name.as_str(), state);
    }
}

/// The message of an [`InternalError`].
pub open spec fn internal_error_message(e: InternalError) -> Seq<char> {
    match e {
        InternalError::Utf8(t) => "Encountered invalid UTF-8 sequence, while trying to interpret bytes UTF-8 string: "@
            + t@,
        InternalError::RuntimeJoin(t) => "Task failed to execute to completion: "@ + t@,
        InternalError::Channel(t) => "Internal communication error, cannot send/receive message over channel: "@
            + t@,
    }
}

impl InternalError {
    /// The message describing this error.
    pub fn message(&self) -> (r: String)
        ensures
            r@ == internal_error_message(*self),
    {
        let mut out: Vec<char> = Vec::new();
        match self {
            InternalError::Utf8(t) => {
                append_str(
                    &mut out,
                    "Encountered invalid UTF-8 sequence, while trying to interpret bytes UTF-8 string: ",
                );
                append_str(&mut out, t.as_str());
            },
            InternalError::RuntimeJoin(t) => {
                append_str(&mut out, "Task failed to execute to completion: ");
                append_str(&mut out, t.as_str());
            },
            InternalError::Channel(t) => {
                append_str(
                    &mut out,
                    "Internal communication error, cannot send/receive message over channel: ",
                );
                append_str(&mut out, t.as_str());
            },
        }
        string_of(out.as_slice())
    }
}

/// Kinds of errors raised by this library.
#[derive(Debug, Clone)]
pub enum ErrorKind {
    /// Error while parsing, validating, or resolving a URI.
    Uri(UriError),
    /// The given URL is not a GitHub repository URL.
    InvalidGithubUrl(String),
    /// A link could not be joined with the base.
    InvalidBaseJoin(String),
    /// The given path is not a valid file.
    InvalidFile(String),
    /// A link could not be resolved into a path.
    InvalidPathToUri(String),
    /// The given path cannot be converted to a URL.
    InvalidUrlFromPath(String),
    /// The link is not valid UTF-8 once percent-decoded.
    Utf8(String),
    /// The preprocessor command failed: the command and the reason.
    PreprocessorError(String, String),
    /// The root directory is invalid.
    InvalidRootDir(String),
    /// Network error while handling a request; an error status is not
    /// one of these, see `RejectedStatusCode`.
    NetworkRequest(RequestFailure),
    /// The body of the received response cannot be read.
    ReadResponseBody(RequestFailure),
    /// The network client required for making requests cannot be created.
    BuildRequestClient(RequestFailure),
    /// A file given as input cannot be read: the kind and text of the I/O
    /// error, and the path.
    ReadFileInput(IoErrorKind, String, String),
    /// A URL given as input answered with an error status code.
    ReadInputUrlStatusCode(u16),
    /// Standard input cannot be read: the kind and text of the I/O error.
    ReadStdinInput(IoErrorKind, String),
    /// A directory given as input cannot be traversed: the error's text.
    DirTraversal(String),
    /// The given URI cannot be converted to a file path.
    InvalidFilePath(Uri),
    /// The fragment of the given URI could not be found within the page.
    InvalidFragment(Uri),
    /// A local directory link cannot be resolved with the configured index
    /// files, which are given.
    InvalidIndexFile(Vec<String>),
    /// The given input is neither a valid file path nor a valid URL.
    InvalidInput(String),
    /// The given glob pattern is not valid: the text of the pattern error.
    InvalidGlobPattern(String),
    /// An insecure URI was used where its secure variant, given, was
    /// reachable.
    InsecureURL(Uri),
    /// The given status code is not a number from 100 to 999.
    InvalidStatusCode(u16),
    /// The given status code was not accepted.
    RejectedStatusCode(u16),
    /// The index of files for wikilinks cannot be made; the reason.
    WikilinkCheckerInit(String),
    /// An HTTP header value is not valid; the text of the error.
    InvalidHeader(String),
    /// A regular expression is not valid; the text of the error.
    Regex(String),
    /// A status code selector could not be parsed.
    StatusCodeSelectorError(StatusCodeSelectorError),
    /// An internal, low-level error.
    Internal(InternalError),
}

/// When two errors count as the same. Errors of different kinds never do.
/// A network, response body or client error is known by its text; an input
/// file that cannot be read by the I/O error's kind and the path; standard
/// input that cannot be read by the kind alone; every invalid header is the
/// same as any other; an error of a status code selector is never the same
/// as any error; the others by all that they hold.
pub open spec fn same_error_kind(a: ErrorKind, b: ErrorKind) -> bool {
    match (a, b) {
        (ErrorKind::Uri(x), ErrorKind::Uri(y)) => x@ == y@,
        (ErrorKind::InvalidGithubUrl(x), ErrorKind::InvalidGithubUrl(y)) => x@ == y@,
        (ErrorKind::InvalidBaseJoin(x), ErrorKind::InvalidBaseJoin(y)) => x@ == y@,
        (ErrorKind::InvalidFile(x), ErrorKind::InvalidFile(y)) => x@ == y@,
        (ErrorKind::InvalidPathToUri(x), ErrorKind::InvalidPathToUri(y)) => x@ == y@,
        (ErrorKind::InvalidUrlFromPath(x), ErrorKind::InvalidUrlFromPath(y)) => x@ == y@,
        (ErrorKind::Utf8(x), ErrorKind::Utf8(y)) => x@ == y@,
        (ErrorKind::PreprocessorError(c1, m1), ErrorKind::PreprocessorError(c2, m2)) => c1@ == c2@
            && m1@ == m2@,
        (ErrorKind::InvalidRootDir(x), ErrorKind::InvalidRootDir(y)) => x@ == y@,
        (ErrorKind::NetworkRequest(x), ErrorKind::NetworkRequest(y)) => x.message@ == y.message@,
        (ErrorKind::ReadResponseBody(x), ErrorKind::ReadResponseBody(y)) => x.message@
            == y.message@,
        (ErrorKind::BuildRequestClient(x), ErrorKind::BuildRequestClient(y)) => x.message@
            == y.message@,
        (ErrorKind::ReadFileInput(k1, _, p1), ErrorKind::ReadFileInput(k2, _, p2)) => same_io_kind(
            k1,
            k2,
        ) && p1@ == p2@,
        (ErrorKind::ReadInputUrlStatusCode(x), ErrorKind::ReadInputUrlStatusCode(y)) => x == y,
        (ErrorKind::ReadStdinInput(k1, _), ErrorKind::ReadStdinInput(k2, _)) => same_io_kind(k1, k2),
        (ErrorKind::DirTraversal(x), ErrorKind::DirTraversal(y)) => x@ == y@,
        (ErrorKind::InvalidFilePath(x), ErrorKind::InvalidFilePath(y)) => x@ == y@,
        (ErrorKind::InvalidFragment(x), ErrorKind::InvalidFragment(y)) => x@ == y@,
        (ErrorKind::InvalidIndexFile(x), ErrorKind::InvalidIndexFile(y)) => string_views(x@)
            == string_views(y@),
        (ErrorKind::InvalidInput(x), ErrorKind::InvalidInput(y)) => x@ == y@,
        (ErrorKind::InvalidGlobPattern(x), ErrorKind::InvalidGlobPattern(y)) => x@ == y@,
        (ErrorKind::InsecureURL(x), ErrorKind::InsecureURL(y)) => x@ == y@,
        (ErrorKind::InvalidStatusCode(x), ErrorKind::InvalidStatusCode(y)) => x == y,
        (ErrorKind::RejectedStatusCode(x), ErrorKind::RejectedStatusCode(y)) => x == y,
        (ErrorKind::WikilinkCheckerInit(x), ErrorKind::WikilinkCheckerInit(y)) => x@ == y@,
        (ErrorKind::InvalidHeader(_), ErrorKind::InvalidHeader(_)) => true,
        (ErrorKind::Regex(x), ErrorKind::Regex(y)) => x@ == y@,
        (ErrorKind::Internal(x), ErrorKind::Internal(y)) => same_internal_error(x, y),
        _ => false,
    }
}

/// Every error is the same as itself, except an error of a status code
/// selector, which is the same as no error.
pub proof fn law_error_kind_same_reflexive(e: ErrorKind)
    ensures
        same_error_kind(e, e) <==> !(e is StatusCodeSelectorError),
{
}

/// Whether two errors are the same does not depend on which comes first.
pub proof fn law_error_kind_same_symmetric(a: ErrorKind, b: ErrorKind)
    ensures
        same_error_kind(a, b) == same_error_kind(b, a),
{
}

/// Whether two URI errors are the same.
fn uri_errors_equal(a: &UriError, b: &UriError) -> (r: bool)
    ensures
        r == (a@ == b@),
{
    match (a, b) {
        (UriError::Empty, UriError::Empty) => true,
        (UriError::Parse(e1, s1), UriError::Parse(e2, s2)) => *e1 == *e2 && str_eq(s1, s2),
        (UriError::RootRelativeWithoutRoot(x), UriError::RootRelativeWithoutRoot(y)) => str_eq(
            x,
            y,
        ),
        (UriError::FromPath(x), UriError::FromPath(y)) => str_eq(x, y),
        (UriError::MissingHost, UriError::MissingHost) => true,
        (UriError::Invalid(x), UriError::Invalid(y)) => str_eq(x.url.as_str(), y.url.as_str()),
        (UriError::UnsupportedType(x), UriError::UnsupportedType(y)) => str_eq(x, y),
        (UriError::InvalidBase(b1, m1), UriError::InvalidBase(b2, m2)) => str_eq(b1, b2) && str_eq(
            m1,
            m2,
        ),
        _ => false,
    }
}

/// Whether two lists of strings hold the same strings in the same order.
fn string_lists_equal(a: &Vec<String>, b: &Vec<String>) -> (r: bool)
    ensures
        r == (string_views(a@) == string_views(b@)),
{
    if a.len() != b.len() {
        proof {
            assert(string_views(a@).len() != string_views(b@).len());
        }
        return false;
    }
    let mut i: usize = 0;
    while i < a.len()
        invariant
            i <= a.len(),
            a.len() == b.len(),
            forall|j: int| 0 <= j < i ==> a@[j]@ == b@[j]@,
        decreases a.len() - i,
    {
        if !str_eq(a[i].as_str(), b[i].as_str()) {
            proof {
                assert(string_views(a@)[i as int] != string_views(b@)[i as int]);
            }
            return false;
        }
        i += 1;
    }
    proof {
        assert(string_views(a@) =~= string_views(b@));
    }
    true
}

impl PartialEq for ErrorKind {
    fn eq(&self, other: &Self) -> (r: bool) {
        match (self, other) {
            (ErrorKind::Uri(x), ErrorKind::Uri(y)) => uri_errors_equal(x, y),
            (ErrorKind::InvalidGithubUrl(x), ErrorKind::InvalidGithubUrl(y)) => str_eq(x, y),
            (ErrorKind::InvalidBaseJoin(x), ErrorKind::InvalidBaseJoin(y)) => str_eq(x, y),
            (ErrorKind::InvalidFile(x), ErrorKind::InvalidFile(y)) => str_eq(x, y),
            (ErrorKind::InvalidPathToUri(x), ErrorKind::InvalidPathToUri(y)) => str_eq(x, y),
            (ErrorKind::InvalidUrlFromPath(x), ErrorKind::InvalidUrlFromPath(y)) => str_eq(x, y),
            (ErrorKind::Utf8(x), ErrorKind::Utf8(y)) => str_eq(x, y),
            (ErrorKind::PreprocessorError(c1, m1), ErrorKind::PreprocessorError(c2, m2)) => str_eq(
                c1,
                c2,
            ) && str_eq(m1, m2),
            (ErrorKind::InvalidRootDir(x), ErrorKind::InvalidRootDir(y)) => str_eq(x, y),
            (ErrorKind::NetworkRequest(x), ErrorKind::NetworkRequest(y)) => str_eq(
                &x.message,
                &y.message,
            ),
            (ErrorKind::ReadResponseBody(x), ErrorKind::ReadResponseBody(y)) => str_eq(
                &x.message,
                &y.message,
            ),
            (ErrorKind::BuildRequestClient(x), ErrorKind::BuildRequestClient(y)) => str_eq(
                &x.message,
                &y.message,
            ),
            (ErrorKind::ReadFileInput(k1, _, p1), ErrorKind::ReadFileInput(k2, _, p2)) => {
                io_kinds_equal(k1, k2) && str_eq(p1, p2)
            },
            (ErrorKind::ReadInputUrlStatusCode(x), ErrorKind::ReadInputUrlStatusCode(y)) => *x
                == *y,
            (ErrorKind::ReadStdinInput(k1, _), ErrorKind::ReadStdinInput(k2, _)) => io_kinds_equal(
                k1,
                k2,
            ),
            (ErrorKind::DirTraversal(x), ErrorKind::DirTraversal(y)) => str_eq(x, y),
            (ErrorKind::InvalidFilePath(x), ErrorKind::InvalidFilePath(y)) => str_eq(
                x.url.as_str(),
                y.url.as_str(),
            ),
            (ErrorKind::InvalidFragment(x), ErrorKind::InvalidFragment(y)) => str_eq(
                x.url.as_str(),
                y.url.as_str(),
            ),
            (ErrorKind::InvalidIndexFile(x), ErrorKind::InvalidIndexFile(y)) => string_lists_equal(
                x,
                y,
            ),
            (ErrorKind::InvalidInput(x), ErrorKind::InvalidInput(y)) => str_eq(x, y),
            (ErrorKind::InvalidGlobPattern(x), ErrorKind::InvalidGlobPattern(y)) => str_eq(x, y),
            (ErrorKind::InsecureURL(x), ErrorKind::InsecureURL(y)) => str_eq(
                x.url.as_str(),
                y.url.as_str(),
            ),
            (ErrorKind::InvalidStatusCode(x), ErrorKind::InvalidStatusCode(y)) => *x == *y,
            (ErrorKind::RejectedStatusCode(x), ErrorKind::RejectedStatusCode(y)) => *x == *y,
            (ErrorKind::WikilinkCheckerInit(x), ErrorKind::WikilinkCheckerInit(y)) => str_eq(x, y),
            (ErrorKind::InvalidHeader(_), ErrorKind::InvalidHeader(_)) => true,
            (ErrorKind::Regex(x), ErrorKind::Regex(y)) => str_eq(x, y),
            (ErrorKind::Internal(x), ErrorKind::Internal(y)) => *x == *y,
            _ => false,
        }
    }
}

impl vstd::std_specs::cmp::PartialEqSpecImpl for ErrorKind {
    open spec fn obeys_eq_spec() -> bool {
        true
    }

    open spec fn eq_spec(&self, other: &ErrorKind) -> bool {
        same_error_kind(*self, *other)
    }
}

impl Eq for ErrorKind {}

impl core::hash::Hash for ErrorKind {
    /// Feeds to the hasher what [`same_error_kind`] compares, so that errors
    /// that are the same hash alike.
    fn hash<H: core::hash::Hasher>(&self, state: &mut H) {
        match self {
            ErrorKind::Uri(e) => {
                hash_number(0, state);
                let text = e.message();
                hash_text(text.as_str(), state);
            },
            ErrorKind::InvalidGithubUrl(x) => {
                hash_number(1, state);
                hash_text(x, state);
            },
            ErrorKind::InvalidBaseJoin(x) => {
                hash_number(2, state);
                hash_text(x, state);
            },
            ErrorKind::InvalidFile(x) => {
                hash_number(3, state);
                hash_text(x, state);
            },
            ErrorKind::InvalidPathToUri(x) => {
                hash_number(4, state);
                hash_text(x, state);
            },
            ErrorKind::InvalidUrlFromPath(x) => {
                hash_number(5, state);
                hash_text(x, state);
            },
            ErrorKind::Utf8(x) => {
                hash_number(6, state);
                hash_text(x, state);
            },
            ErrorKind::PreprocessorError(c, m) => {
                hash_number(7, state);
                hash_text(c, state);
                hash_text(m, state);
            },
            ErrorKind::InvalidRootDir(x) => {
                hash_number(8, state);
                hash_text(x, state);
            },
            ErrorKind::NetworkRequest(f) => {
                hash_number(9, state);
                hash_text(&f.message, state);
            },
            ErrorKind::ReadResponseBody(f) => {
                hash_number(10, state);
                hash_text(&f.message, state);
            },
            ErrorKind::BuildRequestClient(f) => {
                hash_number(11, state);
                hash_text(&f.message, state);
            },
            ErrorKind::ReadFileInput(k, _, p) => {
                hash_number(12, state);
                hash_io_kind(k, state);
                hash_text(p, state);
            },
            ErrorKind::ReadInputUrlStatusCode(c) => {
                hash_number(13, state);
                hash_number(*c, state);
            },
            ErrorKind::ReadStdinInput(k, _) => {
                hash_number(14, state);
                hash_io_kind(k, state);
            },
            ErrorKind::DirTraversal(x) => {
                hash_number(15, state);
                hash_text(x, state);
            },
            ErrorKind::InvalidFilePath(u) => {
                hash_number(16, state);
                hash_text(u.url.as_str(), state);
            },
            ErrorKind::InvalidFragment(u) => {
                hash_number(17, state);
                hash_text(u.url.as_str(), state);
            },
            ErrorKind::InvalidIndexFile(files) => {
                hash_number(18, state);
                let mut i: usize = 0;
                while i < files.len()
                    decreases files.len() - i,
                {
                    hash_text(files[i].as_str(), state);
                    i += 1;
                }
            },
            ErrorKind::InvalidInput(x) => {
                hash_number(19, state);
                hash_text(x, state);
            },
            ErrorKind::InvalidGlobPattern(x) => {
                hash_number(20, state);
                hash_text(x, state);
            },
            ErrorKind::InsecureURL(u) => {
                hash_number(21, state);
                hash_text(u.url.as_str(), state);
            },
            ErrorKind::InvalidStatusCode(c) => {
                hash_number(22, state);
                hash_number(*c, state);
            },
            ErrorKind::RejectedStatusCode(c) => {
                hash_number(23, state);
                hash_number(*c, state);
            },
            ErrorKind::WikilinkCheckerInit(x) => {
                hash_number(24, state);
                hash_text(x, state);
            },
            ErrorKind::InvalidHeader(_) => hash_number(25, state),
            ErrorKind::Regex(x) => {
                hash_number(26, state);
                hash_text(x, state);
            },
            ErrorKind::StatusCodeSelectorError(_) => hash_number(27, state),
            ErrorKind::Internal(e) => {
                hash_number(28, state);
                e.hash(state);
            },
        }
    }
}

/// How an HTTP status code is written: its number and its reason phrase.
pub open spec fn status_code_text(code: u16) -> Seq<char> {
    decimal(code as nat) + " "@ + match canonical_reason(code) {
        Some(r) => r,
        None => "<unknown status code>"@,
    }
}

/// Writes an HTTP status code with its reason phrase.
pub fn write_status_code(out: &mut Vec<char>, code: u16)
    ensures
        final(out)@ == old(out)@ + status_code_text(code),
{
    let digits = decimal_string(code);
    append_str(out, digits.as_str());
    append_str(out, " ");
    match reason_phrase(code) {
        Some(r) => append_str(out, r),
        None => append_str(out, "<unknown status code>"),
    }
}

/// The details of a link to a directory that has no index file, by the
/// configured index files.
pub open spec fn index_file_details(files: Seq<Seq<char>>) -> Seq<char> {
    if files.len() == 0 {
        "Directory links are rejected because index_files is empty"@
    } else if files.len() == 1 {
        "An index file ("@ + files[0] + ") is required"@
    } else {
        "An index file ("@ + join(files.drop_last(), ", "@) + ", or "@ + files.last()
            + ") is required"@
    }
}

/// The message of each [`ErrorKind`].
pub open spec fn error_kind_message(e: ErrorKind) -> Seq<char> {
    match e {
        ErrorKind::Uri(u) => uri_error_message(u),
        ErrorKind::InvalidGithubUrl(s) => "Github URL is invalid: "@ + s@,
        ErrorKind::InvalidBaseJoin(s) => "Cannot join '"@ + s@ + "' with the base URL"@,
        ErrorKind::InvalidFile(s) => "Cannot find file '"@ + s@ + "'"@,
        ErrorKind::InvalidPathToUri(s) => "Cannot convert path to URI: '"@ + s@ + "'"@,
        ErrorKind::InvalidUrlFromPath(s) => "Cannot convert path to URL: '"@ + s@ + "'"@,
        ErrorKind::Utf8(s) => "Invalid UTF-8 sequence in '"@ + s@ + "'"@,
        ErrorKind::PreprocessorError(c, m) => "Preprocessor command '"@ + c@ + "' failed: "@ + m@,
        ErrorKind::InvalidRootDir(s) => "Invalid root directory '"@ + s@ + "'"@,
        ErrorKind::NetworkRequest(f) => "Network error: "@ + failure_answer(f) + " ("@ + f.message@
            + ")"@,
        ErrorKind::ReadResponseBody(f) => "Failed to read response body: "@ + f.message@,
        ErrorKind::BuildRequestClient(f) => "Failed to create HTTP request client: "@ + f.message@,
        ErrorKind::ReadFileInput(_, _, p) => "Cannot read input content from file '"@ + p@ + "'"@,
        ErrorKind::ReadInputUrlStatusCode(c) => "Cannot read input content from URL: status code "@
            + status_code_text(c)
            + ". To check links in error pages, download and check locally instead."@,
        ErrorKind::ReadStdinInput(_, t) => "Cannot read content from stdin: "@ + t@,
        ErrorKind::DirTraversal(t) => "Cannot traverse input directory: "@ + t@,
        ErrorKind::InvalidFilePath(_) => "File not found. Check if file exists and path is correct"@,
        ErrorKind::InvalidFragment(_) => "Cannot find fragment"@,
        ErrorKind::InvalidIndexFile(_) => "Cannot find index file within directory"@,
        ErrorKind::InvalidInput(s) => "Input '"@ + s@
            + "' not found as file and not a valid URL. Use full URL (e.g., https://example.com) or check file path."@,
        ErrorKind::InvalidGlobPattern(t) => "Invalid glob pattern: "@ + t@,
        ErrorKind::InsecureURL(u) => "Insecure HTTP URL used, where '"@ + without_mailto(u@)
            + "' can be used instead"@,
        ErrorKind::InvalidStatusCode(c) => "Invalid status code: "@ + decimal(c as nat),
        ErrorKind::RejectedStatusCode(c) => "Rejected status code: "@ + decimal(c as nat) + " "@
            + match canonical_reason(c) {
            Some(r) => r,
            None => "Unknown status code"@,
        },
        ErrorKind::WikilinkCheckerInit(m) => m@,
        ErrorKind::InvalidHeader(t) => "Invalid HTTP header: "@ + t@,
        ErrorKind::Regex(t) => "Regular expression error: "@ + t@ + ". Check regex syntax"@,
        ErrorKind::StatusCodeSelectorError(s) => "Unable to parse status code selector: "@
            + selector_error_message(s),
        ErrorKind::Internal(i) => internal_error_message(i),
    }
}

/// The details of each [`ErrorKind`]: its message, with a remediation hint
/// for some errors, or an analysis of its cause.
pub open spec fn error_kind_details(e: ErrorKind) -> Seq<char> {
    match e {
        ErrorKind::Uri(u) => uri_error_details(u),
        ErrorKind::NetworkRequest(f) => failure_answer(f),
        ErrorKind::ReadFileInput(k, t, p) => match k {
            IoErrorKind::NotFound => "Check if file path is correct"@,
            IoErrorKind::PermissionDenied => "Permission denied: '"@ + p@ + "'. Check file permissions"@,
            IoErrorKind::IsADirectory => "Path is a directory, not a file: '"@ + p@
                + "'. Check file path"@,
            _ => "File read error for '"@ + p@ + "': "@ + t@,
        },
        ErrorKind::ReadInputUrlStatusCode(_) => seq![],
        ErrorKind::BuildRequestClient(_) => error_kind_message(e) + ": Check system configuration"@,
        ErrorKind::InvalidGlobPattern(_) => error_kind_message(e) + ". Check pattern syntax"@,
        ErrorKind::DirTraversal(_) => error_kind_message(e) + ". Check directory permissions"@,
        ErrorKind::InvalidHeader(_) => error_kind_message(e) + ". Check header format"@,
        ErrorKind::StatusCodeSelectorError(_) => error_kind_message(e)
            + ". Check 'accept' and 'cache_exclude_status' configuration"@,
        ErrorKind::InvalidStatusCode(_) => error_kind_message(e) + ". Must be in the range 100-999"@,
        ErrorKind::InvalidIndexFile(files) => error_kind_message(e) + ": "@ + index_file_details(
            string_views(files@),
        ),
        _ => error_kind_message(e),
    }
}

impl ErrorKind {
    /// The message describing this error.
    pub fn message(&self) -> (r: String)
        ensures
            r@ == error_kind_message(*self),
    {
        let mut out: Vec<char> = Vec::new();
        match self {
            ErrorKind::Uri(u) => {
                let m = u.message();
                append_str(&mut out, m.as_str());
            },
            ErrorKind::InvalidGithubUrl(s) => {
                append_str(&mut out, "Github URL is invalid: ");
                append_str(&mut out, s.as_str());
            },
            ErrorKind::InvalidBaseJoin(s) => {
                append_str(&mut out, "Cannot join '");
                append_str(&mut out, s.as_str());
                append_str(&mut out, "' with the base URL");
            },
            ErrorKind::InvalidFile(s) => {
                append_str(&mut out, "Cannot find file '");
                append_str(&mut out, s.as_str());
                append_str(&mut out, "'");
            },
            ErrorKind::InvalidPathToUri(s) => {
                append_str(&mut out, "Cannot convert path to URI: '");
                append_str(&mut out, s.as_str());
                append_str(&mut out, "'");
            },
            ErrorKind::InvalidUrlFromPath(s) => {
                append_str(&mut out, "Cannot convert path to URL: '");
                append_str(&mut out, s.as_str());
                append_str(&mut out, "'");
            },
            ErrorKind::Utf8(s) => {
                append_str(&mut out, "Invalid UTF-8 sequence in '");
                append_str(&mut out, s.as_str());
                append_str(&mut out, "'");
            },
            ErrorKind::PreprocessorError(c, m) => {
                append_str(&mut out, "Preprocessor command '");
                append_str(&mut out, c.as_str());
                append_str(&mut out, "' failed: ");
                append_str(&mut out, m.as_str());
            },
            ErrorKind::InvalidRootDir(s) => {
                append_str(&mut out, "Invalid root directory '");
                append_str(&mut out, s.as_str());
                append_str(&mut out, "'");
            },
            ErrorKind::NetworkRequest(f) => {
                let analysis = analyze_error_chain(f);
                append_str(&mut out, "Network error: ");
                append_str(&mut out, analysis.as_str());
                append_str(&mut out, " (");
                append_str(&mut out, f.message.as_str());
                append_str(&mut out, ")");
            },
            ErrorKind::ReadResponseBody(f) => {
                append_str(&mut out, "Failed to read response body: ");
                append_str(&mut out, f.message.as_str());
            },
            ErrorKind::BuildRequestClient(f) => {
                append_str(&mut out, "Failed to create HTTP request client: ");
                append_str(&mut out, f.message.as_str());
            },
            ErrorKind::ReadFileInput(_, _, p) => {
                append_str(&mut out, "Cannot read input content from file '");
                append_str(&mut out, p.as_str());
                append_str(&mut out, "'");
            },
            ErrorKind::ReadInputUrlStatusCode(c) => {
                append_str(&mut out, "Cannot read input content from URL: status code ");
                write_status_code(&mut out, *c);
                append_str(
                    &mut out,
                    ". To check links in error pages, download and check locally instead.",
                );
            },
            ErrorKind::ReadStdinInput(_, t) => {
                append_str(&mut out, "Cannot read content from stdin: ");
                append_str(&mut out, t.as_str());
            },
            ErrorKind::DirTraversal(t) => {
                append_str(&mut out, "Cannot traverse input directory: ");
                append_str(&mut out, t.as_str());
            },
            ErrorKind::InvalidFilePath(_) => append_str(
                &mut out,
                "File not found. Check if file exists and path is correct",
            ),
            ErrorKind::InvalidFragment(_) => append_str(&mut out, "Cannot find fragment"),
            ErrorKind::InvalidIndexFile(_) => append_str(
                &mut out,
                "Cannot find index file within directory",
            ),
            ErrorKind::InvalidInput(s) => {
                append_str(&mut out, "Input '");
                append_str(&mut out, s.as_str());
                append_str(
                    &mut out,
                    "' not found as file and not a valid URL. Use full URL (e.g., https://example.com) or check file path.",
                );
            },
            ErrorKind::InvalidGlobPattern(t) => {
                append_str(&mut out, "Invalid glob pattern: ");
                append_str(&mut out, t.as_str());
            },
            ErrorKind::InsecureURL(u) => {
                append_str(&mut out, "Insecure HTTP URL used, where '");
                append_str(&mut out, u.as_str());
                append_str(&mut out, "' can be used instead");
            },
            ErrorKind::InvalidStatusCode(c) => {
                append_str(&mut out, "Invalid status code: ");
                let digits = decimal_string(*c);
                append_str(&mut out, digits.as_str());
            },
            ErrorKind::RejectedStatusCode(c) => {
                append_str(&mut out, "Rejected status code: ");
                let digits = decimal_string(*c);
                append_str(&mut out, digits.as_str());
                append_str(&mut out, " ");
                match reason_phrase(*c) {
                    Some(r) => append_str(&mut out, r),
                    None => append_str(&mut out, "Unknown status code"),
                }
            },
            ErrorKind::WikilinkCheckerInit(m) => append_str(&mut out, m.as_str()),
            ErrorKind::InvalidHeader(t) => {
                append_str(&mut out, "Invalid HTTP header: ");
                append_str(&mut out, t.as_str());
            },
            ErrorKind::Regex(t) => {
                append_str(&mut out, "Regular expression error: ");
                append_str(&mut out, t.as_str());
                append_str(&mut out, ". Check regex syntax");
            },
            ErrorKind::StatusCodeSelectorError(e) => {
                let m = e.message();
                append_str(&mut out, "Unable to parse status code selector: ");
                append_str(&mut out, m.as_str());
            },
            ErrorKind::Internal(i) => {
                let m = i.message();
                append_str(&mut out, m.as_str());
            },
        }
        string_of(out.as_slice())
    }

    /// More details about this error: for URI errors the details of the URI
    /// error, for network errors the analysis of their cause, for some
    /// errors a remediation hint after the message, otherwise the message.
    pub fn details(&self) -> (r: String)
        ensures
            r@ == error_kind_details(*self),
    {
        match self {
            ErrorKind::Uri(u) => u.details(),
            ErrorKind::NetworkRequest(f) => analyze_error_chain(f),
            ErrorKind::ReadFileInput(k, t, p) => {
                let mut out: Vec<char> = Vec::new();
                match k {
                    IoErrorKind::NotFound => append_str(&mut out, "Check if file path is correct"),
                    IoErrorKind::PermissionDenied => {
                        append_str(&mut out, "Permission denied: '");
                        append_str(&mut out, p.as_str());
                        append_str(&mut out, "'. Check file permissions");
                    },
                    IoErrorKind::IsADirectory => {
                        append_str(&mut out, "Path is a directory, not a file: '");
                        append_str(&mut out, p.as_str());
                        append_str(&mut out, "'. Check file path");
                    },
                    _ => {
                        append_str(&mut out, "File read error for '");
                        append_str(&mut out, p.as_str());
                        append_str(&mut out, "': ");
                        append_str(&mut out, t.as_str());
                    },
                }
                string_of(out.as_slice())
            },
            ErrorKind::ReadInputUrlStatusCode(_) => String::new(),
            ErrorKind::BuildRequestClient(_) => self.with_hint(": Check system configuration"),
            ErrorKind::InvalidGlobPattern(_) => self.with_hint(". Check pattern syntax"),
            ErrorKind::DirTraversal(_) => self.with_hint(". Check directory permissions"),
            ErrorKind::InvalidHeader(_) => self.with_hint(". Check header format"),
            ErrorKind::StatusCodeSelectorError(_) => self.with_hint(
                ". Check 'accept' and 'cache_exclude_status' configuration",
            ),
            ErrorKind::InvalidStatusCode(_) => self.with_hint(". Must be in the range 100-999"),
            ErrorKind::InvalidIndexFile(files) => {
                let msg = self.message();
                let mut out: Vec<char> = Vec::new();
                append_str(&mut out, msg.as_str());
                append_str(&mut out, ": ");
                write_index_file_details(&mut out, files);
                string_of(out.as_slice())
            },
            _ => self.message(),
        }
    }

    /// The message of this error followed by a hint.
    fn with_hint(&self, hint: &str) -> (r: String)
        ensures
            r@ == error_kind_message(*self) + hint@,
    {
        let msg = self.message();
        let mut out: Vec<char> = Vec::new();
        append_str(&mut out, msg.as_str());
        append_str(&mut out, hint);
        string_of(out.as_slice())
    }
}

/// Writes the details of a link to a directory that has no index file.
fn write_index_file_details(out: &mut Vec<char>, files: &Vec<String>)
    ensures
        final(out)@ == old(out)@ + index_file_details(string_views(files@)),
{
    let ghost names = string_views(files@);
    if files.len() == 0 {
        append_str(out, "Directory links are rejected because index_files is empty");
    } else if files.len() == 1 {
        append_str(out, "An index file (");
        append_str(out, files[0].as_str());
        append_str(out, ") is required");
    } else {
        let ghost start = out@;
        append_str(out, "An index file (");
        let ghost before = out@;
        let last = files.len() - 1;
        let mut i: usize = 0;
        while i < last
            invariant
                0 <= i <= last,
                last == files.len() - 1,
                files.len() >= 2,
                names == string_views(files@),
                out@ == before + join(names.take(i as int), ", "@),
            decreases last - i,
        {
            if i > 0 {
                append_str(out, ", ");
            }
            append_str(out, files[i].as_str());
            proof {
                let t = names.take(i as int + 1);
                assert(t.drop_last() =~= names.take(i as int));
                assert(t.last() == files@[i as int]@);
            }
            i += 1;
        }
        assert(names.take(last as int) =~= names.drop_last());
        append_str(out, ", or ");
        append_str(out, files[last].as_str());
        append_str(out, ") is required");
        assert(names.last() == files@[last as int]@);
    }
}

/// The view of a [`UriError`]: its texts as sequences.
pub enum UriErrorSpec {
    /// See [`UriError::Empty`].
    Empty,
    /// See [`UriError::Parse`].
    Parse(UrlParseError, Seq<char>),
    /// See [`UriError::RootRelativeWithoutRoot`].
    RootRelativeWithoutRoot(Seq<char>),
    /// See [`UriError::FromPath`].
    FromPath(Seq<char>),
    /// See [`UriError::MissingHost`].
    MissingHost,
    /// See [`UriError::Invalid`].
    Invalid(Seq<char>),
    /// See [`UriError::UnsupportedType`].
    UnsupportedType(Seq<char>),
    /// See [`UriError::InvalidBase`].
    InvalidBase(Seq<char>, Seq<char>),
}

impl View for UriError {
    type V = UriErrorSpec;

    open spec fn view(&self) -> UriErrorSpec {
        match self {
            UriError::Empty => UriErrorSpec::Empty,
            UriError::Parse(e, s) => UriErrorSpec::Parse(*e, s@),
            UriError::RootRelativeWithoutRoot(s) => UriErrorSpec::RootRelativeWithoutRoot(s@),
            UriError::FromPath(s) => UriErrorSpec::FromPath(s@),
            UriError::MissingHost => UriErrorSpec::MissingHost,
            UriError::Invalid(u) => UriErrorSpec::Invalid(u@),
            UriError::UnsupportedType(s) => UriErrorSpec::UnsupportedType(s@),
            UriError::InvalidBase(b, m) => UriErrorSpec::InvalidBase(b@, m@),
        }
    }
}

/// The view of an [`ErrorKind`]: its texts as sequences.
pub enum ErrorKindView {
    /// See [`ErrorKind::Uri`].
    Uri(UriErrorSpec),
    /// See [`ErrorKind::InvalidGithubUrl`].
    InvalidGithubUrl(Seq<char>),
    /// See [`ErrorKind::InvalidBaseJoin`].
    InvalidBaseJoin(Seq<char>),
    /// See [`ErrorKind::InvalidFile`].
    InvalidFile(Seq<char>),
    /// See [`ErrorKind::InvalidPathToUri`].
    InvalidPathToUri(Seq<char>),
    /// See [`ErrorKind::InvalidUrlFromPath`].
    InvalidUrlFromPath(Seq<char>),
    /// See [`ErrorKind::Utf8`].
    Utf8(Seq<char>),
    /// See [`ErrorKind::PreprocessorError`].
    PreprocessorError(Seq<char>, Seq<char>),
    /// See [`ErrorKind::InvalidRootDir`].
    InvalidRootDir(Seq<char>),
    /// See [`ErrorKind::NetworkRequest`].
    NetworkRequest(RequestFailure),
    /// See [`ErrorKind::ReadResponseBody`].
    ReadResponseBody(RequestFailure),
    /// See [`ErrorKind::BuildRequestClient`].
    BuildRequestClient(RequestFailure),
    /// See [`ErrorKind::ReadFileInput`].
    ReadFileInput(IoErrorKind, Seq<char>, Seq<char>),
    /// See [`ErrorKind::ReadInputUrlStatusCode`].
    ReadInputUrlStatusCode(u16),
    /// See [`ErrorKind::ReadStdinInput`].
    ReadStdinInput(IoErrorKind, Seq<char>),
    /// See [`ErrorKind::DirTraversal`].
    DirTraversal(Seq<char>),
    /// See [`ErrorKind::InvalidFilePath`].
    InvalidFilePath(Seq<char>),
    /// See [`ErrorKind::InvalidFragment`].
    InvalidFragment(Seq<char>),
    /// See [`ErrorKind::InvalidIndexFile`].
    InvalidIndexFile(Seq<Seq<char>>),
    /// See [`ErrorKind::InvalidInput`].
    InvalidInput(Seq<char>),
    /// See [`ErrorKind::InvalidGlobPattern`].
    InvalidGlobPattern(Seq<char>),
    /// See [`ErrorKind::InsecureURL`].
    InsecureURL(Seq<char>),
    /// See [`ErrorKind::InvalidStatusCode`].
    InvalidStatusCode(u16),
    /// See [`ErrorKind::RejectedStatusCode`].
    RejectedStatusCode(u16),
    /// See [`ErrorKind::WikilinkCheckerInit`].
    WikilinkCheckerInit(Seq<char>),
    /// See [`ErrorKind::InvalidHeader`].
    InvalidHeader(Seq<char>),
    /// See [`ErrorKind::Regex`].
    Regex(Seq<char>),
    /// See [`ErrorKind::StatusCodeSelectorError`].
    StatusCodeSelectorError(StatusCodeSelectorError),
    /// See [`ErrorKind::Internal`].
    Internal(InternalError),
}

impl View for ErrorKind {
    type V = ErrorKindView;

    open spec fn view(&self) -> ErrorKindView {
        match self {
            ErrorKind::Uri(u) => ErrorKindView::Uri(u@),
            ErrorKind::InvalidGithubUrl(s) => ErrorKindView::InvalidGithubUrl(s@),
            ErrorKind::InvalidBaseJoin(s) => ErrorKindView::InvalidBaseJoin(s@),
            ErrorKind::InvalidFile(s) => ErrorKindView::InvalidFile(s@),
            ErrorKind::InvalidPathToUri(s) => ErrorKindView::InvalidPathToUri(s@),
            ErrorKind::InvalidUrlFromPath(s) => ErrorKindView::InvalidUrlFromPath(s@),
            ErrorKind::Utf8(s) => ErrorKindView::Utf8(s@),
            ErrorKind::PreprocessorError(c, m) => ErrorKindView::PreprocessorError(c@, m@),
            ErrorKind::InvalidRootDir(s) => ErrorKindView::InvalidRootDir(s@),
            ErrorKind::NetworkRequest(f) => ErrorKindView::NetworkRequest(*f),
            ErrorKind::ReadResponseBody(f) => ErrorKindView::ReadResponseBody(*f),
            ErrorKind::BuildRequestClient(f) => ErrorKindView::BuildRequestClient(*f),
            ErrorKind::ReadFileInput(k, t, p) => ErrorKindView::ReadFileInput(*k, t@, p@),
            ErrorKind::ReadInputUrlStatusCode(c) => ErrorKindView::ReadInputUrlStatusCode(*c),
            ErrorKind::ReadStdinInput(k, t) => ErrorKindView::ReadStdinInput(*k, t@),
            ErrorKind::DirTraversal(t) => ErrorKindView::DirTraversal(t@),
            ErrorKind::InvalidFilePath(u) => ErrorKindView::InvalidFilePath(u@),
            ErrorKind::InvalidFragment(u) => ErrorKindView::InvalidFragment(u@),
            ErrorKind::InvalidIndexFile(v) => ErrorKindView::InvalidIndexFile(string_views(v@)),
            ErrorKind::InvalidInput(s) => ErrorKindView::InvalidInput(s@),
            ErrorKind::InvalidGlobPattern(t) => ErrorKindView::InvalidGlobPattern(t@),
            ErrorKind::InsecureURL(u) => ErrorKindView::InsecureURL(u@),
            ErrorKind::InvalidStatusCode(c) => ErrorKindView::InvalidStatusCode(*c),
            ErrorKind::RejectedStatusCode(c) => ErrorKindView::RejectedStatusCode(*c),
            ErrorKind::WikilinkCheckerInit(m) => ErrorKindView::WikilinkCheckerInit(m@),
            ErrorKind::InvalidHeader(t) => ErrorKindView::InvalidHeader(t@),
            ErrorKind::Regex(t) => ErrorKindView::Regex(t@),
            ErrorKind::StatusCodeSelectorError(e) => ErrorKindView::StatusCodeSelectorError(*e),
            ErrorKind::Internal(i) => ErrorKindView::Internal(*i),
        }
    }
}

} // verus!
