//! Concise, actionable explanations of network failures.
//!
//! A failed request carries a chain of causes (I/O errors, HTTP protocol
//! errors, URL parse errors, and errors known only by their text). The
//! functions below look at that chain and pick the most specific
//! explanation, with a hint on what to check.
use vstd::prelude::*;

use crate::address::{url_parse_error_text, UrlParseError};
use crate::text::{append_str, contains, decimal, decimal_string, starts_with, str_contains, string_of};

verus! {

/// A rule that maps error texts to a message: it applies when any of its
/// patterns occurs in the text.
pub struct ErrorRule {
    patterns: Vec<&'static str>,
    message: &'static str,
}

/// The view of a rule: its patterns and its message.
pub type RuleView = (Seq<Seq<char>>, Seq<char>);

/// The views of a sequence of string slices.
pub open spec fn str_views(v: Seq<&str>) -> Seq<Seq<char>> {
    v.map_values(|x: &str| x@)
}

/// Whether any of the patterns occurs in the text.
pub open spec fn any_occurs(patterns: Seq<Seq<char>>, text: Seq<char>) -> bool {
    exists|i: int| 0 <= i < patterns.len() && contains(text, #[trigger] patterns[i])
}

impl View for ErrorRule {
    type V = RuleView;

    closed spec fn view(&self) -> RuleView {
        (str_views(self.patterns@), self.message@)
    }
}

impl ErrorRule {
    /// Creates a rule.
    pub fn new(patterns: Vec<&'static str>, message: &'static str) -> (r: Self)
        ensures
            r@ == (str_views(patterns@), message@),
    {
        ErrorRule { patterns, message }
    }

    /// Whether any of the patterns occurs in `text`.
    pub fn matches(&self, text: &str) -> (r: bool)
        ensures
            r == any_occurs(self@.0, text@),
    {
        let ghost pv = self@.0;
        let mut i: usize = 0;
        while i < self.patterns.len()
            invariant
                i <= self.patterns.len(),
                pv == str_views(self.patterns@),
                forall|j: int| 0 <= j < i ==> !contains(text@, #[trigger] pv[j]),
            decreases self.patterns.len() - i,
        {
            if str_contains(text, self.patterns[i]) {
                assert(contains(text@, pv[i as int]));
                return true;
            }
            i += 1;
        }
        false
    }

    /// The message of this rule.
    pub fn message(&self) -> (r: &'static str)
        ensures
            r@ == self@.1,
    {
        self.message
    }
}

/// An ordered list of rules, with a message for texts that no rule
/// matches.
pub struct ErrorRules {
    rules: Vec<ErrorRule>,
    fallback: Option<String>,
}

/// The views of a sequence of rules.
pub open spec fn rule_views(v: Seq<ErrorRule>) -> Seq<RuleView> {
    v.map_values(|r: ErrorRule| r@)
}

impl View for ErrorRules {
    type V = (Seq<RuleView>, Option<Seq<char>>);

    closed spec fn view(&self) -> (Seq<RuleView>, Option<Seq<char>>) {
        (
            rule_views(self.rules@),
            match self.fallback {
                Some(f) => Some(f@),
                None => None,
            },
        )
    }
}

/// The message of the first rule that matches the text, if any.
pub open spec fn first_match(rules: Seq<RuleView>, text: Seq<char>) -> Option<Seq<char>>
    decreases rules.len(),
{
    if rules.len() == 0 {
        None
    } else if any_occurs(rules[0].0, text) {
        Some(rules[0].1)
    } else {
        first_match(rules.drop_first(), text)
    }
}

/// What a list of rules answers for a text: the message of the first
/// matching rule, else the fallback, else `Unhandled error: ` and the text.
pub open spec fn rules_answer(
    rules: Seq<RuleView>,
    fallback: Option<Seq<char>>,
    text: Seq<char>,
) -> Seq<char> {
    match first_match(rules, text) {
        Some(m) => m,
        None => match fallback {
            Some(f) => f,
            None => "Unhandled error: "@ + text,
        },
    }
}

impl ErrorRules {
    /// An empty list of rules, without fallback.
    pub fn new() -> (r: Self)
        ensures
            r@.0 == Seq::<RuleView>::empty(),
            r@.1 is None,
    {
        let r = ErrorRules { rules: Vec::new(), fallback: None };
        assert(r@.0 =~= Seq::<RuleView>::empty());
        r
    }

    /// Adds a rule after the others.
    pub fn rule(self, patterns: Vec<&'static str>, message: &'static str) -> (r: Self)
        ensures
            r@.0 == self@.0.push((str_views(patterns@), message@)),
            r@.1 == self@.1,
    {
        let mut s = self;
        let ghost before = s.rules@;
        s.rules.push(ErrorRule::new(patterns, message));
        assert(rule_views(s.rules@) =~= rule_views(before).push((str_views(patterns@), message@)));
        s
    }

    /// Sets the message for texts that no rule matches.
    pub fn fallback(self, message: String) -> (r: Self)
        ensures
            r@.0 == self@.0,
            r@.1 == Some(message@),
    {
        let mut s = self;
        s.fallback = Some(message);
        s
    }

    /// The answer of these rules for `error_msg`.
    pub fn match_error(self, error_msg: &str) -> (r: String)
        ensures
            r@ == rules_answer(self@.0, self@.1, error_msg@),
    {
        let ghost rv = self@.0;
        let mut i: usize = 0;
        assert(rv.skip(0) =~= rv);
        while i < self.rules.len()
            invariant
                i <= self.rules.len(),
                rv == rule_views(self.rules@),
                first_match(rv, error_msg@) == first_match(rv.skip(i as int), error_msg@),
            decreases self.rules.len() - i,
        {
            let ghost rest = rv.skip(i as int);
            assert(rest[0] == self.rules@[i as int]@);
            if self.rules[i].matches(error_msg) {
                return string_of(crate::text::chars_of(self.rules[i].message()).as_slice());
            }
            assert(rest.drop_first() =~= rv.skip(i + 1));
            i += 1;
        }
        assert(rv.skip(i as int).len() == 0);
        match self.fallback {
            Some(f) => f,
            None => {
                let mut out: Vec<char> = Vec::new();
                append_str(&mut out, "Unhandled error: ");
                append_str(&mut out, error_msg);
                string_of(out.as_slice())
            },
        }
    }
}

/// The rules that explain certificate failures.
pub open spec fn certificate_rules() -> Seq<RuleView> {
    seq![
        (
            seq![
                "expired"@,
                "NotValidAtThisTime"@,
                "certificate has expired"@,
                "certificate is not valid on"@,
            ],
            "SSL certificate expired. Site needs to renew certificate"@,
        ),
        (
            seq!["hostname"@, "NotValidForName"@],
            "SSL certificate hostname mismatch. Check URL spelling"@,
        ),
        (
            seq!["self signed"@, "UnknownIssuer"@, "not trusted"@],
            "SSL certificate not trusted. Use --insecure if site is trusted"@,
        ),
        (
            seq!["verify failed"@],
            "SSL certificate verification failed. Check certificate validity"@,
        ),
    ]
}

/// The explanation of a certificate failure with the given text.
pub open spec fn certificate_answer(text: Seq<char>) -> Seq<char> {
    rules_answer(
        certificate_rules(),
        Some("SSL certificate error. Check certificate validity"@),
        text,
    )
}

/// Explains a certificate-related failure by its text.
pub fn analyze_certificate_error(error_msg: &str) -> (r: String)
    ensures
        r@ == certificate_answer(error_msg@),
{
    let p1 = vec!["expired", "NotValidAtThisTime", "certificate has expired", "certificate is not valid on"];
    let p2 = vec!["hostname", "NotValidForName"];
    let p3 = vec!["self signed", "UnknownIssuer", "not trusted"];
    let p4 = vec!["verify failed"];
    assert(str_views(p1@) =~= certificate_rules()[0].0);
    assert(str_views(p2@) =~= certificate_rules()[1].0);
    assert(str_views(p3@) =~= certificate_rules()[2].0);
    assert(str_views(p4@) =~= certificate_rules()[3].0);
    let rules = ErrorRules::new().rule(
        p1,
        "SSL certificate expired. Site needs to renew certificate",
    ).rule(p2, "SSL certificate hostname mismatch. Check URL spelling").rule(
        p3,
        "SSL certificate not trusted. Use --insecure if site is trusted",
    ).rule(p4, "SSL certificate verification failed. Check certificate validity");
    let rules = rules.fallback(
        string_of(
            crate::text::chars_of("SSL certificate error. Check certificate validity").as_slice(),
        ),
    );
    assert(rules@.0 =~= certificate_rules());
    rules.match_error(error_msg)
}

/// The rules for the inner error of an I/O error of kind `Other`.
pub open spec fn io_other_rules() -> Seq<RuleView> {
    seq![
        (
            seq!["failed to lookup address"@, "nodename nor servname"@],
            "DNS resolution failed. Check hostname and DNS settings"@,
        ),
        (
            seq!["Temporary failure in name resolution"@],
            "DNS temporarily unavailable. Try again later"@,
        ),
        (seq!["handshake"@], "TLS handshake failed. Check SSL/TLS configuration"@),
    ]
}

/// The explanation of an I/O error of kind `Other`, from the text of its
/// inner error, if it has one.
pub open spec fn io_other_answer(inner: Option<Seq<char>>) -> Seq<char> {
    match inner {
        None => "Connection failed. Check network connectivity and firewall settings"@,
        Some(m) => if contains(m, "certificate"@) {
            certificate_answer(m)
        } else {
            rules_answer(io_other_rules(), Some("Network error: "@ + m), m)
        },
    }
}

/// Explains an I/O error of kind `Other` by the text of its inner error.
pub fn analyze_io_other_error(inner: Option<&str>) -> (r: String)
    ensures
        r@ == io_other_answer(match inner {
            Some(m) => Some(m@),
            None => None,
        }),
{
    match inner {
        Some(inner_msg) => {
            if str_contains(inner_msg, "certificate") {
                return analyze_certificate_error(inner_msg);
            }
            let p1 = vec!["failed to lookup address", "nodename nor servname"];
            let p2 = vec!["Temporary failure in name resolution"];
            let p3 = vec!["handshake"];
            assert(str_views(p1@) =~= io_other_rules()[0].0);
            assert(str_views(p2@) =~= io_other_rules()[1].0);
            assert(str_views(p3@) =~= io_other_rules()[2].0);
            let mut fb: Vec<char> = Vec::new();
            append_str(&mut fb, "Network error: ");
            append_str(&mut fb, inner_msg);
            let rules = ErrorRules::new().rule(
                p1,
                "DNS resolution failed. Check hostname and DNS settings",
            ).rule(p2, "DNS temporarily unavailable. Try again later").rule(
                p3,
                "TLS handshake failed. Check SSL/TLS configuration",
            ).fallback(string_of(fb.as_slice()));
            assert(rules@.0 =~= io_other_rules());
            rules.match_error(inner_msg)
        },
        None => string_of(
            crate::text::chars_of(
                "Connection failed. Check network connectivity and firewall settings",
            ).as_slice(),
        ),
    }
}

/// The kinds of I/O errors that are told apart when explaining a failure.
#[derive(Debug, Clone, PartialEq, Eq, Hash)]
pub enum IoErrorKind {
    /// The connection was refused.
    ConnectionRefused,
    /// The operation timed out.
    TimedOut,
    /// An entity was not found.
    NotFound,
    /// Permission was denied.
    PermissionDenied,
    /// Another error, which may carry an inner error.
    Other,
    /// The network is unreachable.
    NetworkUnreachable,
    /// The address is not available.
    AddrNotAvailable,
    /// The address is in use.
    AddrInUse,
    /// The pipe was broken.
    BrokenPipe,
    /// The data was invalid.
    InvalidData,
    /// The end of the input came unexpectedly.
    UnexpectedEof,
    /// The operation was interrupted.
    Interrupted,
    /// The operation is not supported.
    Unsupported,
    /// A directory was found where a file was expected.
    IsADirectory,
    /// Any other kind, by its debug name (such as `Uncategorized`).
    Unlisted(String),
}

/// The explanation of an I/O error of the given kind; `inner` is the text
/// of its inner error, if it has one.
pub open spec fn io_answer(kind: IoErrorKind, inner: Option<Seq<char>>) -> Seq<char> {
    match kind {
        IoErrorKind::ConnectionRefused => "Connection refused - server may be down or port blocked"@,
        IoErrorKind::TimedOut => "Request timed out. Try increasing timeout or check server status"@,
        IoErrorKind::NotFound => "DNS resolution failed - check hostname spelling"@,
        IoErrorKind::PermissionDenied => "Permission denied - check firewall or proxy settings"@,
        IoErrorKind::Other => io_other_answer(inner),
        IoErrorKind::NetworkUnreachable => "Network unreachable. Check internet connection or VPN settings"@,
        IoErrorKind::AddrNotAvailable => "Address not available. Check network interface configuration"@,
        IoErrorKind::AddrInUse => "Address already in use. Port conflict or service already running"@,
        IoErrorKind::BrokenPipe => "Connection broken. Server closed connection unexpectedly"@,
        IoErrorKind::InvalidData => "Invalid response data. Server sent malformed response"@,
        IoErrorKind::UnexpectedEof => "Connection closed unexpectedly. Server terminated early"@,
        IoErrorKind::Interrupted => "Request interrupted. Try again or check for system issues"@,
        IoErrorKind::Unsupported => "Operation not supported. Check protocol or server capabilities"@,
        IoErrorKind::IsADirectory => "I/O error (IsADirectory). Check network connectivity and server status"@,
        IoErrorKind::Unlisted(name) => if name@ == "Uncategorized"@ {
            "Connection failed. Check network connectivity and firewall settings"@
        } else {
            "I/O error ("@ + name@ + "). Check network connectivity and server status"@
        },
    }
}

fn owned(s: &str) -> (r: String)
    ensures
        r@ == s@,
{
    string_of(crate::text::chars_of(s).as_slice())
}

/// Explains an I/O error by its kind, and for kind `Other` by the text of
/// its inner error.
pub fn analyze_io_error(kind: &IoErrorKind, inner: Option<&str>) -> (r: String)
    ensures
        r@ == io_answer(*kind, match inner {
            Some(m) => Some(m@),
            None => None,
        }),
{
    match kind {
        IoErrorKind::ConnectionRefused => owned("Connection refused - server may be down or port blocked"),
        IoErrorKind::TimedOut => owned("Request timed out. Try increasing timeout or check server status"),
        IoErrorKind::NotFound => owned("DNS resolution failed - check hostname spelling"),
        IoErrorKind::PermissionDenied => owned("Permission denied - check firewall or proxy settings"),
        IoErrorKind::Other => analyze_io_other_error(inner),
        IoErrorKind::NetworkUnreachable => owned("Network unreachable. Check internet connection or VPN settings"),
        IoErrorKind::AddrNotAvailable => owned("Address not available. Check network interface configuration"),
        IoErrorKind::AddrInUse => owned("Address already in use. Port conflict or service already running"),
        IoErrorKind::BrokenPipe => owned("Connection broken. Server closed connection unexpectedly"),
        IoErrorKind::InvalidData => owned("Invalid response data. Server sent malformed response"),
        IoErrorKind::UnexpectedEof => owned("Connection closed unexpectedly. Server terminated early"),
        IoErrorKind::Interrupted => owned("Request interrupted. Try again or check for system issues"),
        IoErrorKind::Unsupported => owned("Operation not supported. Check protocol or server capabilities"),
        IoErrorKind::IsADirectory => owned("I/O error (IsADirectory). Check network connectivity and server status"),
        IoErrorKind::Unlisted(name) => {
            if crate::text::str_eq(name.as_str(), "Uncategorized") {
                owned("Connection failed. Check network connectivity and firewall settings")
            } else {
                let mut out: Vec<char> = Vec::new();
                append_str(&mut out, "I/O error (");
                append_str(&mut out, name.as_str());
                append_str(&mut out, "). Check network connectivity and server status");
                string_of(out.as_slice())
            }
        },
    }
}

/// What is known of an HTTP protocol error: how it is classified, and its
/// text.
#[derive(Debug, Clone, PartialEq, Eq, Hash)]
pub struct HyperErrorInfo {
    /// The error came from parsing the response.
    pub is_parse: bool,
    /// The error came from parsing the status line.
    pub is_parse_status: bool,
    /// The error is a timeout.
    pub is_timeout: bool,
    /// The error was caused by the user's request.
    pub is_user: bool,
    /// Writing the request body was aborted.
    pub is_body_write_aborted: bool,
    /// The request was canceled.
    pub is_canceled: bool,
    /// The connection was closed.
    pub is_closed: bool,
    /// The connection closed before the message was complete.
    pub is_incomplete_message: bool,
    /// The text of the error.
    pub message: String,
}

/// The rules for the text of an HTTP protocol error.
pub open spec fn hyper_rules() -> Seq<RuleView> {
    seq![
        (seq!["connection error"@], "Connection failed. Check network connectivity and firewall settings"@),
        (seq!["http2 error"@], "HTTP/2 protocol error. Server may not support HTTP/2 properly"@),
        (seq!["channel closed"@], "HTTP connection channel closed unexpectedly"@),
        (seq!["operation was canceled"@], "HTTP operation was canceled before completion"@),
        (seq!["message head is too large"@], "HTTP headers too large. Server response headers exceed limits"@),
        (seq!["invalid content-length"@], "Invalid Content-Length header from server"@),
    ]
}

/// The explanation of an HTTP protocol error.
pub open spec fn hyper_answer(e: HyperErrorInfo) -> Seq<char> {
    if e.is_parse {
        if e.is_parse_status {
            "Invalid HTTP status code from server"@
        } else {
            "Invalid HTTP response format. Server may be misconfigured"@
        }
    } else if e.is_timeout {
        "Request timed out. Try increasing timeout or check server status"@
    } else if e.is_user {
        if e.is_body_write_aborted {
            "Request body upload was aborted"@
        } else {
            "Invalid request format. Check request parameters"@
        }
    } else if e.is_canceled {
        "Request was canceled"@
    } else if e.is_closed {
        "Connection was closed unexpectedly"@
    } else if e.is_incomplete_message {
        "Connection closed before response completed"@
    } else {
        rules_answer(hyper_rules(), Some("HTTP protocol error: "@ + e.message@), e.message@)
    }
}

/// Explains an HTTP protocol error by its classification, then by its
/// text.
pub fn analyze_hyper_error(hyper_error: &HyperErrorInfo) -> (r: String)
    ensures
        r@ == hyper_answer(*hyper_error),
{
    if hyper_error.is_parse {
        if hyper_error.is_parse_status {
            return owned("Invalid HTTP status code from server");
        }
        return owned("Invalid HTTP response format. Server may be misconfigured");
    }
    if hyper_error.is_timeout {
        return owned("Request timed out. Try increasing timeout or check server status");
    }
    if hyper_error.is_user {
        if hyper_error.is_body_write_aborted {
            return owned("Request body upload was aborted");
        }
        return owned("Invalid request format. Check request parameters");
    }
    if hyper_error.is_canceled {
        return owned("Request was canceled");
    }
    if hyper_error.is_closed {
        return owned("Connection was closed unexpectedly");
    }
    if hyper_error.is_incomplete_message {
        return owned("Connection closed before response completed");
    }
    let hyper_msg = hyper_error.message.as_str();
    let p1 = vec!["connection error"];
    let p2 = vec!["http2 error"];
    let p3 = vec!["channel closed"];
    let p4 = vec!["operation was canceled"];
    let p5 = vec!["message head is too large"];
    let p6 = vec!["invalid content-length"];
    assert(str_views(p1@) =~= hyper_rules()[0].0);
    assert(str_views(p2@) =~= hyper_rules()[1].0);
    assert(str_views(p3@) =~= hyper_rules()[2].0);
    assert(str_views(p4@) =~= hyper_rules()[3].0);
    assert(str_views(p5@) =~= hyper_rules()[4].0);
    assert(str_views(p6@) =~= hyper_rules()[5].0);
    let mut fb: Vec<char> = Vec::new();
    append_str(&mut fb, "HTTP protocol error: ");
    append_str(&mut fb, hyper_msg);
    let rules = ErrorRules::new().rule(
        p1,
        "Connection failed. Check network connectivity and firewall settings",
    ).rule(p2, "HTTP/2 protocol error. Server may not support HTTP/2 properly").rule(
        p3,
        "HTTP connection channel closed unexpectedly",
    ).rule(p4, "HTTP operation was canceled before completion").rule(
        p5,
        "HTTP headers too large. Server response headers exceed limits",
    ).rule(p6, "Invalid Content-Length header from server").fallback(string_of(fb.as_slice()));
    assert(rules@.0 =~= hyper_rules());
    rules.match_error(hyper_msg)
}

/// The explanation of a URL parse error.
pub open spec fn url_error_answer(e: UrlParseError) -> Seq<char> {
    match e {
        UrlParseError::EmptyHost => "Invalid URL: empty hostname"@,
        UrlParseError::InvalidDomainCharacter => "Invalid URL: invalid characters in domain"@,
        UrlParseError::InvalidPort => "Invalid URL: invalid port number"@,
        UrlParseError::RelativeUrlWithoutBase => "Invalid URL: relative URL without base"@,
        _ => "Invalid URL format: "@ + url_parse_error_text(e),
    }
}

/// Explains a URL parse error.
pub fn analyze_url_parse_error(url_error: UrlParseError) -> (r: String)
    ensures
        r@ == url_error_answer(url_error),
{
    match url_error {
        UrlParseError::EmptyHost => owned("Invalid URL: empty hostname"),
        UrlParseError::InvalidDomainCharacter => owned("Invalid URL: invalid characters in domain"),
        UrlParseError::InvalidPort => owned("Invalid URL: invalid port number"),
        UrlParseError::RelativeUrlWithoutBase => owned("Invalid URL: relative URL without base"),
        _ => {
            let mut out: Vec<char> = Vec::new();
            append_str(&mut out, "Invalid URL format: ");
            append_str(&mut out, url_error.message());
            string_of(out.as_slice())
        },
    }
}

/// The rules for errors known only by their text.
pub open spec fn generic_rules() -> Seq<RuleView> {
    seq![
        (seq!["handshake"@, "TLS"@, "SSL"@], "TLS handshake failed. Check SSL/TLS configuration"@),
        (seq!["name resolution"@, "hostname"@], "DNS resolution failed. Check hostname and DNS settings"@),
        (
            seq!["Connection refused"@, "connection refused"@],
            "Connection refused. Server is not accepting connections (check if service is running)"@,
        ),
        (
            seq!["Connection reset"@, "connection reset"@],
            "Connection reset by server. Server forcibly closed connection"@,
        ),
        (
            seq!["No route to host"@, "no route"@],
            "No route to host. Check network routing or firewall configuration"@,
        ),
        (
            seq!["Network is unreachable"@, "network unreachable"@],
            "Network unreachable. Check internet connection or VPN settings"@,
        ),
        (
            seq!["timed out"@, "timeout"@],
            "Request timed out. Try increasing timeout or check server status"@,
        ),
    ]
}

/// The explanation of an error known only by its text, when its text says
/// something recognisable: a certificate failure, an unsupported protocol,
/// or a match of one of [`generic_rules`].
pub open spec fn generic_answer(text: Seq<char>) -> Option<Seq<char>> {
    if contains(text, "certificate"@) {
        Some(certificate_answer(text))
    } else if contains(text, "protocol"@) && contains(text, "not supported"@) {
        Some("Protocol not supported. Check URL scheme (http/https)"@)
    } else {
        first_match(generic_rules(), text)
    }
}

proof fn lemma_first_match_is_message(rules: Seq<RuleView>, text: Seq<char>)
    ensures
        first_match(rules, text) matches Some(m) ==> exists|i: int|
            0 <= i < rules.len() && m == #[trigger] rules[i].1,
    decreases rules.len(),
{
    if rules.len() > 0 && !any_occurs(rules[0].0, text) {
        lemma_first_match_is_message(rules.drop_first(), text);
        if let Some(m) = first_match(rules, text) {
            let i = choose|i: int| 0 <= i < rules.drop_first().len() && m == #[trigger] rules.drop_first()[i].1;
            assert(rules[i + 1].1 == m);
        }
    } else if rules.len() > 0 {
        assert(rules[0].1 == rules[0].1);
    }
}

proof fn lemma_generic_messages_are_handled()
    ensures
        forall|i: int|
            0 <= i < generic_rules().len() ==> !starts_with(
                #[trigger] generic_rules()[i].1,
                "Unhandled error:"@,
            ),
{
    reveal_strlit("Unhandled error:");
    reveal_strlit("TLS handshake failed. Check SSL/TLS configuration");
    reveal_strlit("DNS resolution failed. Check hostname and DNS settings");
    reveal_strlit("Connection refused. Server is not accepting connections (check if service is running)");
    reveal_strlit("Connection reset by server. Server forcibly closed connection");
    reveal_strlit("No route to host. Check network routing or firewall configuration");
    reveal_strlit("Network unreachable. Check internet connection or VPN settings");
    reveal_strlit("Request timed out. Try increasing timeout or check server status");
    assert forall|i: int| 0 <= i < generic_rules().len() implies !starts_with(
        #[trigger] generic_rules()[i].1,
        "Unhandled error:"@,
    ) by {
        let m = generic_rules()[i].1;
        assert(m[0] != 'U');
        assert(m.take(16)[0] == m[0]);
    }
}

fn starts_with_str(s: &str, p: &str) -> (r: bool)
    ensures
        r == starts_with(s@, p@),
{
    let v = crate::text::chars_of(s);
    let w = crate::text::chars_of(p);
    crate::text::starts_with_chars(v.as_slice(), w.as_slice())
}

/// Explains an error known only by its text; `None` when the text says
/// nothing recognisable.
pub fn analyze_generic_error_string(error_msg: &str) -> (r: Option<String>)
    ensures
        match r {
            Some(m) => generic_answer(error_msg@) == Some(m@),
            None => generic_answer(error_msg@) is None,
        },
{
    if str_contains(error_msg, "certificate") {
        return Some(analyze_certificate_error(error_msg));
    }
    if str_contains(error_msg, "protocol") && str_contains(error_msg, "not supported") {
        return Some(owned("Protocol not supported. Check URL scheme (http/https)"));
    }
    let p1 = vec!["handshake", "TLS", "SSL"];
    let p2 = vec!["name resolution", "hostname"];
    let p3 = vec!["Connection refused", "connection refused"];
    let p4 = vec!["Connection reset", "connection reset"];
    let p5 = vec!["No route to host", "no route"];
    let p6 = vec!["Network is unreachable", "network unreachable"];
    let p7 = vec!["timed out", "timeout"];
    assert(str_views(p1@) =~= generic_rules()[0].0);
    assert(str_views(p2@) =~= generic_rules()[1].0);
    assert(str_views(p3@) =~= generic_rules()[2].0);
    assert(str_views(p4@) =~= generic_rules()[3].0);
    assert(str_views(p5@) =~= generic_rules()[4].0);
    assert(str_views(p6@) =~= generic_rules()[5].0);
    assert(str_views(p7@) =~= generic_rules()[6].0);
    let rules = ErrorRules::new().rule(p1, "TLS handshake failed. Check SSL/TLS configuration").rule(
        p2,
        "DNS resolution failed. Check hostname and DNS settings",
    ).rule(
        p3,
        "Connection refused. Server is not accepting connections (check if service is running)",
    ).rule(p4, "Connection reset by server. Server forcibly closed connection").rule(
        p5,
        "No route to host. Check network routing or firewall configuration",
    ).rule(p6, "Network unreachable. Check internet connection or VPN settings").rule(
        p7,
        "Request timed out. Try increasing timeout or check server status",
    );
    assert(rules@.0 =~= generic_rules());
    let result = rules.match_error(error_msg);
    proof {
        lemma_first_match_is_message(generic_rules(), error_msg@);
        lemma_generic_messages_are_handled();
        reveal_strlit("Unhandled error:");
        reveal_strlit("Unhandled error: ");
        if first_match(generic_rules(), error_msg@) is None {
            assert(("Unhandled error: "@ + error_msg@).take(16) =~= "Unhandled error:"@);
        }
    }
    if starts_with_str(result.as_str(), "Unhandled error:") {
        None
    } else {
        Some(result)
    }
}

/// The reason phrase of an HTTP status code (`StatusCode::canonical_reason`
/// in the `http` crate), when it has one.
pub uninterp spec fn canonical_reason(code: u16) -> Option<Seq<char>>;

/// The reason phrase of a status code: `http::StatusCode::canonical_reason`
/// of the code, none for a number that is no status code.
#[verifier::external_body]
pub(crate) fn reason_phrase(code: u16) -> (r: Option<&'static str>)
    ensures
        match r {
            Some(s) => canonical_reason(code) == Some(s@),
            None => canonical_reason(code) is None,
        },
{
    http::StatusCode::from_u16(code).ok().and_then(|s| s.canonical_reason())
}

/// The explanation of a failed request by its basic classification: a
/// timeout, too many redirects, or an error status.
pub open spec fn basic_request_answer(
    is_timeout: bool,
    is_redirect: bool,
    status: Option<u16>,
) -> Option<Seq<char>> {
    if is_timeout {
        Some("Request timed out. Try increasing timeout or check server status"@)
    } else if is_redirect {
        Some("Too many redirects - check for redirect loops"@)
    } else {
        match status {
            Some(code) => Some(
                "HTTP "@ + decimal(code as nat) + ": "@ + match canonical_reason(code) {
                    Some(reason) => reason,
                    None => "Unknown"@,
                } + " - check URL and server status"@,
            ),
            None => None,
        }
    }
}

/// Explains a failed request by its basic classification.
pub fn analyze_basic_reqwest_error(is_timeout: bool, is_redirect: bool, status: Option<u16>) -> (r:
    Option<String>)
    ensures
        match r {
            Some(m) => basic_request_answer(is_timeout, is_redirect, status) == Some(m@),
            None => basic_request_answer(is_timeout, is_redirect, status) is None,
        },
{
    if is_timeout {
        return Some(owned("Request timed out. Try increasing timeout or check server status"));
    }
    if is_redirect {
        return Some(owned("Too many redirects - check for redirect loops"));
    }
    match status {
        Some(code) => {
            let reason = match reason_phrase(code) {
                Some(r) => r,
                None => "Unknown",
            };
            let mut out: Vec<char> = Vec::new();
            append_str(&mut out, "HTTP ");
            let digits = decimal_string(code);
            append_str(&mut out, digits.as_str());
            append_str(&mut out, ": ");
            append_str(&mut out, reason);
            append_str(&mut out, " - check URL and server status");
            Some(string_of(out.as_slice()))
        },
        None => None,
    }
}

/// The explanation of a failed request when nothing more specific is known.
pub open spec fn fallback_request_answer(
    is_connect: bool,
    is_request: bool,
    is_decode: bool,
    message: Seq<char>,
) -> Seq<char> {
    if is_connect {
        "Connection failed. Check network connectivity and firewall settings"@
    } else if is_request {
        "Request failed. Check URL format and parameters"@
    } else if is_decode {
        "Response decoding failed. Server returned invalid data"@
    } else {
        "Request failed: "@ + message
    }
}

/// Explains a failed request by its broad classification, or its text.
pub fn fallback_reqwest_analysis(is_connect: bool, is_request: bool, is_decode: bool, message: &str) -> (r:
    String)
    ensures
        r@ == fallback_request_answer(is_connect, is_request, is_decode, message@),
{
    if is_connect {
        owned("Connection failed. Check network connectivity and firewall settings")
    } else if is_request {
        owned("Request failed. Check URL format and parameters")
    } else if is_decode {
        owned("Response decoding failed. Server returned invalid data")
    } else {
        let mut out: Vec<char> = Vec::new();
        append_str(&mut out, "Request failed: ");
        append_str(&mut out, message);
        string_of(out.as_slice())
    }
}

/// One cause in the chain of causes of a failed request.
#[derive(Debug, Clone, PartialEq, Eq, Hash)]
pub enum ErrorCause {
    /// An I/O error, with the text of its inner error if it has one.
    Io(IoErrorKind, Option<String>),
    /// An HTTP protocol error.
    Hyper(HyperErrorInfo),
    /// A URL parse error.
    UrlParse(UrlParseError),
    /// Another error, known by its text.
    Other(String),
}

/// The explanation drawn from a chain of causes: the first I/O, protocol or
/// URL error decides; an error known by its text decides when its text is
/// recognisable.
pub open spec fn chain_answer(chain: Seq<ErrorCause>) -> Option<Seq<char>>
    decreases chain.len(),
{
    if chain.len() == 0 {
        None
    } else {
        match chain[0] {
            ErrorCause::Io(kind, inner) => Some(io_answer(kind, match inner {
                Some(m) => Some(m@),
                None => None,
            })),
            ErrorCause::Hyper(h) => Some(hyper_answer(h)),
            ErrorCause::UrlParse(e) => Some(url_error_answer(e)),
            ErrorCause::Other(text) => match generic_answer(text@) {
                Some(m) => Some(m),
                None => chain_answer(chain.drop_first()),
            },
        }
    }
}

/// Walks the chain of causes of a failed request, and explains the first
/// one that can be explained.
pub fn analyze_error_source_chain(chain: &Vec<ErrorCause>) -> (r: Option<String>)
    ensures
        match r {
            Some(m) => chain_answer(chain@) == Some(m@),
            None => chain_answer(chain@) is None,
        },
{
    let mut i: usize = 0;
    assert(chain@.skip(0) =~= chain@);
    while i < chain.len()
        invariant
            i <= chain.len(),
            chain_answer(chain@) == chain_answer(chain@.skip(i as int)),
        decreases chain.len() - i,
    {
        let ghost rest = chain@.skip(i as int);
        assert(rest[0] == chain@[i as int]);
        assert(rest.drop_first() =~= chain@.skip(i + 1));
        match &chain[i] {
            ErrorCause::Io(kind, inner) => {
                let inner_ref: Option<&str> = match inner {
                    Some(m) => Some(m.as_str()),
                    None => None,
                };
                return Some(analyze_io_error(kind, inner_ref));
            },
            ErrorCause::Hyper(h) => {
                return Some(analyze_hyper_error(h));
            },
            ErrorCause::UrlParse(e) => {
                return Some(analyze_url_parse_error(*e));
            },
            ErrorCause::Other(text) => {
                match analyze_generic_error_string(text.as_str()) {
                    Some(m) => {
                        return Some(m);
                    },
                    None => {},
                }
            },
        }
        i += 1;
    }
    None
}

/// What is known of a failed request: its classification, its text, and
/// the chain of its causes.
#[derive(Debug, Clone, PartialEq, Eq, Hash)]
pub struct RequestFailure {
    /// The request timed out.
    pub is_timeout: bool,
    /// The request followed too many redirects.
    pub is_redirect: bool,
    /// The error status of the response, if there is one.
    pub status: Option<u16>,
    /// The failure is a connection failure.
    pub is_connect: bool,
    /// The failure is in building or sending the request.
    pub is_request: bool,
    /// The failure is in decoding the response.
    pub is_decode: bool,
    /// The failure is in building the request or its client.
    pub is_builder: bool,
    /// The failure is in reading the body of the response.
    pub is_body: bool,
    /// The text of the failure.
    pub message: String,
    /// The chain of causes, from the outermost.
    pub causes: Vec<ErrorCause>,
}

/// The explanation of a failed request.
pub open spec fn failure_answer(e: RequestFailure) -> Seq<char> {
    match basic_request_answer(e.is_timeout, e.is_redirect, e.status) {
        Some(m) => m,
        None => match chain_answer(e.causes@) {
            Some(m) => m,
            None => fallback_request_answer(e.is_connect, e.is_request, e.is_decode, e.message@),
        },
    }
}

/// Explains a failed request: its basic classification first, then the
/// chain of its causes, then its broad classification.
pub fn analyze_error_chain(error: &RequestFailure) -> (r: String)
    ensures
        r@ == failure_answer(*error),
{
    match analyze_basic_reqwest_error(error.is_timeout, error.is_redirect, error.status) {
        Some(m) => return m,
        None => {},
    }
    match analyze_error_source_chain(&error.causes) {
        Some(m) => return m,
        None => {},
    }
    fallback_reqwest_analysis(error.is_connect, error.is_request, error.is_decode, error.message.as_str())
}

} // verus!
