use std::collections::HashSet;

use lychee_lib::{
    CacheStatus, ErrorKind, ExcludeReason, IoErrorKind, RequestFailure, Status,
    StatusCodeSelector, Uri,
};

fn failure(is_timeout: bool, is_builder: bool, is_body: bool, status: Option<u16>) -> RequestFailure {
    RequestFailure {
        is_timeout,
        is_redirect: false,
        status,
        is_connect: false,
        is_request: false,
        is_decode: false,
        is_builder,
        is_body,
        message: "boom".to_string(),
        causes: vec![],
    }
}

#[test]
fn test_deserialize_cache_status_success_code() {
    assert_eq!(CacheStatus::parse("200"), Ok(CacheStatus::Success(200)));
}

#[test]
fn test_deserialize_cache_status_error_code() {
    assert_eq!(CacheStatus::parse("404"), Ok(CacheStatus::Error(Some(404))));
}

#[test]
fn test_deserialize_cache_status_excluded() {
    assert_eq!(CacheStatus::parse("Excluded"), Ok(CacheStatus::Excluded));
}

#[test]
fn test_deserialize_cache_status_unsupported() {
    assert_eq!(CacheStatus::parse("Unsupported"), Ok(CacheStatus::Unsupported));
}

#[test]
fn test_deserialize_cache_status_blank() {
    assert_eq!(CacheStatus::parse(""), Ok(CacheStatus::Error(None)));
}

#[test]
fn cache_status_parse_edges() {
    assert_eq!(CacheStatus::parse("+301"), Ok(CacheStatus::Error(Some(301))));
    assert_eq!(CacheStatus::parse("299"), Ok(CacheStatus::Success(299)));
    assert_eq!(CacheStatus::parse("abc"), Ok(CacheStatus::Error(None)));
    assert_eq!(CacheStatus::parse("70000"), Ok(CacheStatus::Error(None)));
    assert_eq!(
        CacheStatus::parse("99"),
        Err("invalid status code value, expected the value to be >= 100 and <= 999")
    );
    assert!(CacheStatus::parse("1000").is_err());
}

#[test]
fn cache_status_texts_codes_and_exclusion() {
    assert_eq!(CacheStatus::Success(200).to_string(), "OK (cached)");
    assert_eq!(CacheStatus::Error(None).to_string(), "Error (cached)");
    assert_eq!(CacheStatus::Excluded.to_string(), "Excluded (cached)");
    assert_eq!(CacheStatus::Unsupported.to_string(), "Unsupported (cached)");
    assert_eq!(CacheStatus::Error(Some(404)).code(), Some(404));
    assert_eq!(CacheStatus::Excluded.code(), None);
    let excluder = StatusCodeSelector::from_str("400..=499").unwrap();
    assert!(CacheStatus::Error(Some(404)).is_excluded(&excluder));
    assert!(!CacheStatus::Success(200).is_excluded(&excluder));
    assert!(!CacheStatus::Error(None).is_excluded(&excluder));
}

#[test]
fn cache_status_of_statuses() {
    assert_eq!(CacheStatus::from_status(&Status::Success(200)), CacheStatus::Success(200));
    assert_eq!(CacheStatus::from_status(&Status::Timeout(Some(504))), CacheStatus::Error(Some(504)));
    assert_eq!(
        CacheStatus::from_status(&Status::Error(ErrorKind::RejectedStatusCode(404))),
        CacheStatus::Error(Some(404))
    );
    assert_eq!(
        CacheStatus::from_status(&Status::Error(ErrorKind::ReadResponseBody(failure(false, false, true, Some(500))))),
        CacheStatus::Error(Some(500))
    );
    assert_eq!(
        CacheStatus::from_status(&Status::Error(ErrorKind::NetworkRequest(failure(false, false, false, Some(500))))),
        CacheStatus::Error(None)
    );
    assert_eq!(
        CacheStatus::from_status(&Status::Excluded(ExcludeReason::Mail)),
        CacheStatus::Excluded
    );
    assert_eq!(
        CacheStatus::from_status(&Status::Cached(CacheStatus::Unsupported)),
        CacheStatus::Unsupported
    );
}

#[test]
fn test_get_status_code() {
    assert_eq!(Status::Success(200).code().unwrap(), 200);
    assert_eq!(Status::Timeout(Some(408)).code().unwrap(), 408);
    assert_eq!(Status::UnknownStatusCode(999).code().unwrap(), 999);
    assert_eq!(Status::Cached(CacheStatus::Success(200)).code().unwrap(), 200);
    assert_eq!(Status::Cached(CacheStatus::Error(Some(404))).code().unwrap(), 404);
    assert_eq!(Status::Timeout(None).code(), None);
    assert_eq!(Status::Cached(CacheStatus::Error(None)).code(), None);
    assert_eq!(Status::Excluded(ExcludeReason::Mail).code(), None);
    assert_eq!(Status::Unsupported(ErrorKind::InvalidStatusCode(999)).code(), None);
}

#[test]
fn test_status_unknown() {
    assert!(Status::UnknownStatusCode(999).is_unknown());
    assert!(!Status::Success(200).is_unknown());
}

#[test]
fn test_exclude_reason_messages() {
    let cases = [
        (ExcludeReason::Pattern(r"example\.com".to_owned()), r"Excluded by pattern: `example\.com`"),
        (
            ExcludeReason::Mail,
            "Excluded: mail checking is disabled (use --include-mail to enable)",
        ),
        (
            ExcludeReason::Scheme("http".to_owned()),
            "Excluded: scheme `http` is not among the accepted schemes",
        ),
        (
            ExcludeReason::Host("localhost".to_owned()),
            "Excluded: host `localhost` resolves to a loopback address (use --exclude-loopback=false to check it)",
        ),
        (
            ExcludeReason::LoopbackIp("127.0.0.1".to_owned()),
            "Excluded: `127.0.0.1` is a loopback IP address (use --exclude-loopback=false to check it)",
        ),
        (
            ExcludeReason::PrivateIp("192.168.0.1".to_owned()),
            "Excluded: `192.168.0.1` is a private IP address (use --exclude-private=false to check it)",
        ),
        (
            ExcludeReason::LinkLocalIp("169.254.0.1".to_owned()),
            "Excluded: `169.254.0.1` is a link-local IP address (use --exclude-link-local=false to check it)",
        ),
        (ExcludeReason::Telephone, "Excluded: telephone links are not checked"),
        (ExcludeReason::ExampleDomain, "Excluded: example domains are not checked"),
        (ExcludeReason::UnsupportedDomain, "Excluded: domain is not supported"),
        (ExcludeReason::FalsePositive, "Excluded: known false positive"),
        (ExcludeReason::NotIncluded, "Excluded: no include pattern matched"),
        (
            ExcludeReason::MailFeatureDisabled,
            "Excluded: mail checking support is not enabled in this build",
        ),
        (ExcludeReason::RequestChain, "Excluded by request chain"),
    ];

    for (reason, expected) in cases {
        assert_eq!(reason.to_string(), expected);
        assert_eq!(Status::Excluded(reason).details(), expected);
    }
}

#[test]
fn test_error_kind_details() {
    let status_error = ErrorKind::RejectedStatusCode(404);
    assert!(status_error.message().contains("Not Found"));
}

#[test]
fn status_texts_and_details() {
    assert_eq!(Status::Success(200).to_string(), "200 OK");
    assert_eq!(Status::Success(200).details(), "200 OK");
    assert_eq!(Status::UnknownStatusCode(999).to_string(), "Unknown status (999 <unknown status code>)");
    assert_eq!(Status::Timeout(Some(408)).to_string(), "Timeout (408 Request Timeout)");
    assert_eq!(Status::Timeout(None).to_string(), "Timeout");
    assert_eq!(Status::Timeout(None).details(), "Request timed out");
    assert_eq!(Status::UnknownMailStatus("blocked".to_string()).to_string(), "Unknown mail status");
    assert_eq!(Status::UnknownMailStatus("blocked".to_string()).details(), "blocked");
    assert_eq!(Status::Excluded(ExcludeReason::Mail).to_string(), "Excluded");
    assert_eq!(Status::Cached(CacheStatus::Excluded).details(), "Excluded (cached)");
    assert_eq!(
        Status::Error(ErrorKind::RejectedStatusCode(404)).to_string(),
        "Rejected status code: 404 Not Found"
    );
    assert_eq!(
        Status::Error(ErrorKind::RejectedStatusCode(799)).to_string(),
        "Rejected status code: 799 Unknown status code"
    );
    assert_eq!(
        Status::Unsupported(ErrorKind::InvalidStatusCode(7)).to_string(),
        "Unsupported: Invalid status code: 7"
    );
}

#[test]
fn status_classification_and_icons() {
    assert!(Status::Success(200).is_success());
    assert!(Status::Cached(CacheStatus::Success(200)).is_success());
    assert!(!Status::Cached(CacheStatus::Error(None)).is_success());
    assert!(Status::Cached(CacheStatus::Error(None)).is_error());
    assert!(Status::Timeout(None).is_error());
    assert!(Status::Timeout(None).is_timeout());
    assert!(Status::Cached(CacheStatus::Excluded).is_excluded());
    assert!(Status::Cached(CacheStatus::Unsupported).is_unsupported());
    assert!(!Status::Success(200).is_error());
    assert_eq!(Status::Success(200).icon(), "✔");
    assert_eq!(Status::Error(ErrorKind::InvalidStatusCode(1)).icon(), "✗");
    assert_eq!(Status::Timeout(None).icon(), "⧖");
    assert_eq!(Status::Cached(CacheStatus::Excluded).icon(), "↻");
    assert_eq!(Status::Excluded(ExcludeReason::Mail).icon(), "?");
}

#[test]
fn status_codes_as_strings() {
    assert_eq!(Status::Success(201).code_as_string(), "201");
    assert_eq!(Status::Excluded(ExcludeReason::Mail).code_as_string(), "EXCLUDED");
    assert_eq!(Status::UnknownMailStatus(String::new()).code_as_string(), "UNKNOWN");
    assert_eq!(Status::Timeout(None).code_as_string(), "TIMEOUT");
    assert_eq!(Status::Timeout(Some(504)).code_as_string(), "504");
    assert_eq!(Status::Unsupported(ErrorKind::InvalidStatusCode(1)).code_as_string(), "IGNORED");
    assert_eq!(
        Status::Error(ErrorKind::BuildRequestClient(failure(false, true, false, Some(400)))).code_as_string(),
        "400"
    );
    assert_eq!(
        Status::Error(ErrorKind::NetworkRequest(failure(false, false, false, Some(400)))).code_as_string(),
        "ERROR"
    );
    assert_eq!(Status::Cached(CacheStatus::Error(None)).code_as_string(), "ERROR");
    assert_eq!(Status::Cached(CacheStatus::Unsupported).code_as_string(), "IGNORED");
}

#[test]
fn statuses_of_errors_and_cache() {
    assert_eq!(Status::from_error(ErrorKind::NetworkRequest(failure(true, false, false, Some(408)))), Status::Timeout(Some(408)));
    assert_eq!(
        Status::from_error(ErrorKind::NetworkRequest(failure(false, true, false, None))),
        Status::Unsupported(ErrorKind::BuildRequestClient(failure(false, true, false, None)))
    );
    assert_eq!(
        Status::from_error(ErrorKind::BuildRequestClient(failure(false, false, true, None))),
        Status::Unsupported(ErrorKind::ReadResponseBody(failure(false, false, true, None)))
    );
    assert_eq!(
        Status::from_error(ErrorKind::ReadResponseBody(failure(false, false, false, None))),
        Status::Error(ErrorKind::NetworkRequest(failure(false, false, false, None)))
    );
    assert_eq!(Status::from_error(ErrorKind::InvalidStatusCode(5)), Status::Error(ErrorKind::InvalidStatusCode(5)));

    let accepted: HashSet<u16> = [200u16, 429].into_iter().collect();
    assert_eq!(
        Status::from_cache_status(CacheStatus::Error(Some(429)), &accepted),
        Status::Cached(CacheStatus::Success(429))
    );
    assert_eq!(
        Status::from_cache_status(CacheStatus::Error(Some(404)), &accepted),
        Status::Cached(CacheStatus::Error(Some(404)))
    );
    assert_eq!(
        Status::from_cache_status(CacheStatus::Success(204), &accepted),
        Status::Cached(CacheStatus::Success(204))
    );
    assert_eq!(Status::new(200, &accepted), Status::Success(200));
    assert_eq!(Status::new(404, &accepted), Status::Error(ErrorKind::RejectedStatusCode(404)));
}

#[test]
fn error_kind_details_and_messages() {
    let read = |k: IoErrorKind| ErrorKind::ReadFileInput(k, "os error".to_string(), "/a.md".to_string());
    assert_eq!(read(IoErrorKind::NotFound).details(), "Check if file path is correct");
    assert_eq!(
        read(IoErrorKind::PermissionDenied).details(),
        "Permission denied: '/a.md'. Check file permissions"
    );
    assert_eq!(
        read(IoErrorKind::IsADirectory).details(),
        "Path is a directory, not a file: '/a.md'. Check file path"
    );
    assert_eq!(read(IoErrorKind::Other).details(), "File read error for '/a.md': os error");
    assert_eq!(read(IoErrorKind::Other).message(), "Cannot read input content from file '/a.md'");
    assert_eq!(ErrorKind::ReadInputUrlStatusCode(404).details(), "");
    assert_eq!(
        ErrorKind::ReadInputUrlStatusCode(404).message(),
        "Cannot read input content from URL: status code 404 Not Found. To check links in error pages, download and check locally instead."
    );
    assert_eq!(
        ErrorKind::InvalidIndexFile(vec![]).details(),
        "Cannot find index file within directory: Directory links are rejected because index_files is empty"
    );
    assert_eq!(
        ErrorKind::InvalidIndexFile(vec!["index.html".to_string()]).details(),
        "Cannot find index file within directory: An index file (index.html) is required"
    );
    assert_eq!(
        ErrorKind::InvalidIndexFile(vec!["a".to_string(), "b".to_string(), "c".to_string()]).details(),
        "Cannot find index file within directory: An index file (a, b, or c) is required"
    );
    assert_eq!(
        ErrorKind::InvalidStatusCode(1000).details(),
        "Invalid status code: 1000. Must be in the range 100-999"
    );
    assert_eq!(
        ErrorKind::BuildRequestClient(failure(false, true, false, None)).details(),
        "Failed to create HTTP request client: boom: Check system configuration"
    );
    assert_eq!(
        ErrorKind::InvalidGlobPattern("bad".to_string()).details(),
        "Invalid glob pattern: bad. Check pattern syntax"
    );
    let uri = Uri::try_from("https://a.org/").unwrap();
    assert_eq!(
        ErrorKind::InsecureURL(uri.clone()).message(),
        "Insecure HTTP URL used, where 'https://a.org/' can be used instead"
    );
    assert_eq!(ErrorKind::InvalidFragment(uri).details(), "Cannot find fragment");
    let mut net = failure(false, false, false, None);
    net.is_connect = true;
    assert_eq!(
        ErrorKind::NetworkRequest(net.clone()).message(),
        "Network error: Connection failed. Check network connectivity and firewall settings (boom)"
    );
    assert_eq!(
        ErrorKind::NetworkRequest(net).details(),
        "Connection failed. Check network connectivity and firewall settings"
    );
}

#[test]
fn the_cache_keeps_status_codes() {
    let statuses = vec![
        Status::Success(200),
        Status::Timeout(Some(504)),
        Status::Timeout(None),
        Status::UnknownStatusCode(999),
        Status::Error(ErrorKind::RejectedStatusCode(404)),
        Status::Error(ErrorKind::ReadResponseBody(failure(false, false, true, Some(500)))),
        Status::Excluded(ExcludeReason::Mail),
        Status::Cached(CacheStatus::Error(Some(410))),
    ];
    for s in statuses {
        assert_eq!(CacheStatus::from_status(&s).code(), s.code());
    }
    let network = Status::Error(ErrorKind::NetworkRequest(failure(false, false, false, Some(502))));
    assert_eq!(network.code(), Some(502));
    assert_eq!(CacheStatus::from_status(&network).code(), None);
    let none: HashSet<u16> = HashSet::new();
    assert!(Status::from_cache_status(CacheStatus::from_status(&Status::Success(201)), &none).is_success());
    for s in [
        Status::Success(200),
        Status::Timeout(None),
        Status::Excluded(ExcludeReason::Mail),
        Status::Unsupported(ErrorKind::InvalidStatusCode(1)),
        Status::Cached(CacheStatus::Error(None)),
    ] {
        let kinds = [s.is_success(), s.is_error(), s.is_excluded(), s.is_unsupported()];
        assert!(kinds.iter().filter(|k| **k).count() <= 1);
    }
}

#[test]
fn more_error_kind_messages() {
    assert_eq!(
        ErrorKind::InvalidHeader("bad".to_string()).details(),
        "Invalid HTTP header: bad. Check header format"
    );
    assert_eq!(
        ErrorKind::Regex("unclosed group".to_string()).message(),
        "Regular expression error: unclosed group. Check regex syntax"
    );
    assert_eq!(
        ErrorKind::StatusCodeSelectorError(lychee_lib::StatusCodeSelectorError::InvalidInput).details(),
        "Unable to parse status code selector: invalid/empty input. Check 'accept' and 'cache_exclude_status' configuration"
    );
    assert_eq!(
        ErrorKind::StatusCodeSelectorError(lychee_lib::StatusCodeSelectorError::AcceptRangeError(
            lychee_lib::AcceptRangeError::NoRangePattern
        ))
        .message(),
        "Unable to parse status code selector: failed to parse range: no range pattern found"
    );
    assert_eq!(
        ErrorKind::Internal(lychee_lib::InternalError::RuntimeJoin("panicked".to_string())).message(),
        "Task failed to execute to completion: panicked"
    );
    assert_eq!(
        ErrorKind::DirTraversal("denied".to_string()).details(),
        "Cannot traverse input directory: denied. Check directory permissions"
    );
    assert_eq!(
        ErrorKind::ReadStdinInput(IoErrorKind::BrokenPipe, "pipe".to_string()).message(),
        "Cannot read content from stdin: pipe"
    );
}

#[test]
fn test_status_serialization() {
    let status_ok = Status::Success(200).summary();
    assert_eq!((status_ok.text.as_str(), status_ok.code, status_ok.details), ("200 OK", Some(200), None));

    let status_error = Status::Error(ErrorKind::Uri(lychee_lib::UriError::Empty)).summary();
    assert_eq!(status_error.text, "Empty URL found but a URL must not be empty");
    assert_eq!(status_error.code, None);
    assert_eq!(status_error.details.as_deref(), Some("Empty URL found but a URL must not be empty"));

    let status_timeout = Status::Timeout(None).summary();
    assert_eq!(status_timeout.text, "Timeout");
    assert_eq!(status_timeout.details.as_deref(), Some("Request timed out"));
}

#[test]
fn error_kinds_compare_by_what_identifies_them() {
    let read = |k: IoErrorKind, text: &str, path: &str| {
        ErrorKind::ReadFileInput(k, text.to_string(), path.to_string())
    };
    assert_eq!(read(IoErrorKind::NotFound, "one", "/a"), read(IoErrorKind::NotFound, "two", "/a"));
    assert_ne!(read(IoErrorKind::NotFound, "one", "/a"), read(IoErrorKind::NotFound, "one", "/b"));
    assert_ne!(read(IoErrorKind::NotFound, "one", "/a"), read(IoErrorKind::TimedOut, "one", "/a"));
    assert_eq!(
        ErrorKind::ReadStdinInput(IoErrorKind::BrokenPipe, "x".to_string()),
        ErrorKind::ReadStdinInput(IoErrorKind::BrokenPipe, "y".to_string())
    );
    assert_eq!(
        ErrorKind::InvalidHeader("a".to_string()),
        ErrorKind::InvalidHeader("b".to_string())
    );
    let mut timed_out = failure(true, false, false, None);
    let same_text = failure(false, true, false, Some(500));
    assert_eq!(ErrorKind::NetworkRequest(timed_out.clone()), ErrorKind::NetworkRequest(same_text));
    timed_out.message = "other".to_string();
    assert_ne!(
        ErrorKind::NetworkRequest(timed_out),
        ErrorKind::NetworkRequest(failure(true, false, false, None))
    );
    assert_ne!(
        ErrorKind::InvalidStatusCode(7),
        ErrorKind::RejectedStatusCode(7)
    );
    let selector = ErrorKind::StatusCodeSelectorError(lychee_lib::StatusCodeSelectorError::InvalidInput);
    assert_ne!(selector.clone(), selector);
    assert_eq!(
        ErrorKind::Internal(lychee_lib::InternalError::Channel("a".to_string())),
        ErrorKind::Internal(lychee_lib::InternalError::Channel("b".to_string()))
    );
}

#[test]
fn same_error_kinds_hash_alike() {
    let mut set = HashSet::new();
    set.insert(ErrorKind::ReadFileInput(IoErrorKind::NotFound, "one".to_string(), "/a".to_string()));
    set.insert(ErrorKind::ReadFileInput(IoErrorKind::NotFound, "two".to_string(), "/a".to_string()));
    set.insert(ErrorKind::InvalidHeader("a".to_string()));
    set.insert(ErrorKind::InvalidHeader("b".to_string()));
    set.insert(ErrorKind::InvalidIndexFile(vec!["index.html".to_string()]));
    set.insert(ErrorKind::InvalidIndexFile(vec!["index.html".to_string()]));
    assert_eq!(set.len(), 3);
}
