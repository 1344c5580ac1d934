use lychee_lib::{
    analyze_basic_reqwest_error, analyze_certificate_error, analyze_error_chain,
    analyze_error_source_chain, analyze_generic_error_string, analyze_hyper_error,
    analyze_io_error, analyze_io_other_error, analyze_url_parse_error, fallback_reqwest_analysis,
    ErrorCause, ErrorRules, HyperErrorInfo, IoErrorKind, RequestFailure, UrlParseError,
};

fn hyper(message: &str) -> HyperErrorInfo {
    HyperErrorInfo {
        is_parse: false,
        is_parse_status: false,
        is_timeout: false,
        is_user: false,
        is_body_write_aborted: false,
        is_canceled: false,
        is_closed: false,
        is_incomplete_message: false,
        message: message.to_string(),
    }
}

#[test]
fn rules_pick_the_first_match_then_the_fallback() {
    let rules = ErrorRules::new()
        .rule(vec!["a", "b"], "first")
        .rule(vec!["b"], "second")
        .fallback("none".to_string());
    assert_eq!(rules.match_error("xbx"), "first");
    let rules = ErrorRules::new().rule(vec!["b"], "second");
    assert_eq!(rules.match_error("zzz"), "Unhandled error: zzz");
}

#[test]
fn certificate_errors() {
    assert_eq!(
        analyze_certificate_error("certificate has expired"),
        "SSL certificate expired. Site needs to renew certificate"
    );
    assert_eq!(
        analyze_certificate_error("NotValidForName"),
        "SSL certificate hostname mismatch. Check URL spelling"
    );
    assert_eq!(
        analyze_certificate_error("UnknownIssuer"),
        "SSL certificate not trusted. Use --insecure if site is trusted"
    );
    assert_eq!(
        analyze_certificate_error("verify failed"),
        "SSL certificate verification failed. Check certificate validity"
    );
    assert_eq!(
        analyze_certificate_error("something else"),
        "SSL certificate error. Check certificate validity"
    );
}

#[test]
fn generic_errors() {
    assert_eq!(
        analyze_generic_error_string("invalid peer certificate: UnknownIssuer"),
        Some("SSL certificate not trusted. Use --insecure if site is trusted".to_string())
    );
    assert_eq!(
        analyze_generic_error_string("protocol foo not supported"),
        Some("Protocol not supported. Check URL scheme (http/https)".to_string())
    );
    assert_eq!(
        analyze_generic_error_string("connection reset by peer"),
        Some("Connection reset by server. Server forcibly closed connection".to_string())
    );
    assert_eq!(
        analyze_generic_error_string("operation timed out"),
        Some("Request timed out. Try increasing timeout or check server status".to_string())
    );
    assert_eq!(analyze_generic_error_string("something odd"), None);
}

#[test]
fn io_errors() {
    assert_eq!(
        analyze_io_error(&IoErrorKind::ConnectionRefused, None),
        "Connection refused - server may be down or port blocked"
    );
    assert_eq!(
        analyze_io_error(&IoErrorKind::Unlisted("Uncategorized".to_string()), None),
        "Connection failed. Check network connectivity and firewall settings"
    );
    assert_eq!(
        analyze_io_error(&IoErrorKind::Unlisted("StorageFull".to_string()), None),
        "I/O error (StorageFull). Check network connectivity and server status"
    );
    assert_eq!(
        analyze_io_error(&IoErrorKind::Other, Some("failed to lookup address information")),
        "DNS resolution failed. Check hostname and DNS settings"
    );
    assert_eq!(
        analyze_io_other_error(Some("weird")),
        "Network error: weird"
    );
    assert_eq!(
        analyze_io_other_error(Some("certificate expired")),
        "SSL certificate expired. Site needs to renew certificate"
    );
    assert_eq!(
        analyze_io_other_error(None),
        "Connection failed. Check network connectivity and firewall settings"
    );
}

#[test]
fn hyper_errors() {
    let mut e = hyper("x");
    e.is_parse = true;
    e.is_parse_status = true;
    assert_eq!(analyze_hyper_error(&e), "Invalid HTTP status code from server");
    let mut e = hyper("x");
    e.is_user = true;
    assert_eq!(analyze_hyper_error(&e), "Invalid request format. Check request parameters");
    assert_eq!(
        analyze_hyper_error(&hyper("http2 error: stream reset")),
        "HTTP/2 protocol error. Server may not support HTTP/2 properly"
    );
    assert_eq!(analyze_hyper_error(&hyper("odd")), "HTTP protocol error: odd");
}

#[test]
fn url_errors() {
    assert_eq!(analyze_url_parse_error(UrlParseError::EmptyHost), "Invalid URL: empty hostname");
    assert_eq!(
        analyze_url_parse_error(UrlParseError::InvalidIpv6Address),
        "Invalid URL format: invalid IPv6 address"
    );
}

#[test]
fn request_failures() {
    assert_eq!(
        analyze_basic_reqwest_error(false, false, Some(404)),
        Some("HTTP 404: Not Found - check URL and server status".to_string())
    );
    assert_eq!(
        analyze_basic_reqwest_error(false, true, None),
        Some("Too many redirects - check for redirect loops".to_string())
    );
    assert_eq!(analyze_basic_reqwest_error(false, false, None), None);
    assert_eq!(
        fallback_reqwest_analysis(false, false, false, "boom"),
        "Request failed: boom"
    );
    let chain = vec![
        ErrorCause::Other("nothing to say".to_string()),
        ErrorCause::Io(IoErrorKind::TimedOut, None),
    ];
    assert_eq!(
        analyze_error_source_chain(&chain),
        Some("Request timed out. Try increasing timeout or check server status".to_string())
    );
    let failure = RequestFailure {
        is_timeout: false,
        is_redirect: false,
        status: None,
        is_connect: true,
        is_request: false,
        is_decode: false,
        is_builder: false,
        is_body: false,
        message: "x".to_string(),
        causes: vec![ErrorCause::Other("nothing".to_string())],
    };
    assert_eq!(
        analyze_error_chain(&failure),
        "Connection failed. Check network connectivity and firewall settings"
    );
}
