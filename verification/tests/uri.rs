use lychee_lib::{
    is_root_relative_link, ErrorKind, GithubUri, Host, ParsedUri, RawUri, RawUriSpan, RelativeUri,
    Uri, UriError, UrlParseError,
};

fn website(url: &str) -> Uri {
    Uri::try_from(url).unwrap()
}

#[test]
fn uri_test_github_false_positives() {
    assert!(GithubUri::gh_org_and_repo(&website("https://github.com/sponsors/analysis-tools-dev ")).is_err());
    assert!(GithubUri::gh_org_and_repo(&website(
        "https://github.com/marketplace/actions/lychee-broken-link-checker"
    ))
    .is_err());
    assert!(GithubUri::gh_org_and_repo(&website("https://github.com/features/actions")).is_err());
    assert!(GithubUri::gh_org_and_repo(&website(
        "https://pkg.go.dev/github.com/Debian/pkg-go-tools/cmd/pgt-gopath"
    ))
    .is_err());
}

#[test]
fn github_repositories_are_recognised() {
    let g = GithubUri::gh_org_and_repo(&website("https://github.com/lycheeverse/lychee.git")).unwrap();
    assert_eq!(g, GithubUri::new("lycheeverse", "lychee"));
    let g = GithubUri::gh_org_and_repo(&website("https://github.com/org/repo/issues/1")).unwrap();
    assert_eq!(g, GithubUri::with_endpoint("org", "repo", "issues/1"));
    assert_eq!(g.build_full_url(), "https://github.com/org/repo/issues/1");
    let api = GithubUri::try_from(&website("https://api.github.com/repos/org/repo/contents/a?ref=x")).unwrap();
    assert!(api.is_api);
    assert_eq!(api.endpoint.as_deref(), Some("contents/a?ref=x"));
    assert_eq!(api.build_full_url(), "https://github.com/org/repo/contents/a?ref=x");
    let with_query = GithubUri::with_endpoint("o", "r", "blob/main/x?y=1#frag");
    assert_eq!(with_query.build_full_url(), "https://github.com/o/r/blob/main/x?y=1#frag");
    let empty_parts = GithubUri::with_endpoint("o", "r", "tree?#");
    assert_eq!(empty_parts.build_full_url(), "https://github.com/o/r/tree");
    let err = GithubUri::gh_org_and_repo(&website("https://example.com/a/b")).unwrap_err();
    assert_eq!(err, ErrorKind::InvalidGithubUrl("https://example.com/a/b".to_string()));
}

#[test]
fn test_ipv4_uri_is_loopback() {
    let uri = Uri::try_from("http://127.0.0.0").unwrap();
    assert!(uri.is_loopback());
}

#[test]
fn test_ipv6_uri_is_loopback() {
    let uri = Uri::try_from("https://[::1]").unwrap();
    assert!(uri.is_loopback());
}

#[test]
fn test_uri_tel() {
    assert_eq!(Uri::try_from("tel:1234567890"), Ok(Uri::try_from("tel:1234567890").unwrap()));
    assert!(Uri::try_from("tel:1234567890").unwrap().is_tel());
}

#[test]
fn test_file_uri() {
    assert!(Uri::try_from("file:///path/to/file").unwrap().is_file());
}

#[test]
fn uri_parse_errors_and_mail() {
    assert_eq!(Uri::try_from(""), Err(ErrorKind::Uri(UriError::Empty)));
    let mail = Uri::try_from("mail@example.com").unwrap();
    assert!(mail.is_mail());
    assert_eq!(mail.as_str(), "mail@example.com");
    assert_eq!(mail.url.as_str(), "mailto:mail@example.com");
    match Uri::try_from("relative/link") {
        Err(ErrorKind::Uri(UriError::Parse(e, s))) => {
            assert_eq!(e, UrlParseError::RelativeUrlWithoutBase);
            assert_eq!(s, "relative/link");
        }
        other => panic!("unexpected {other:?}"),
    }
    assert!(Uri::try_from("data:text/plain,x").unwrap().is_data());
}

#[test]
fn uri_hosts_and_ranges() {
    assert_eq!(website("http://127.0.0.1").host_ip(), Some(Host::Ipv4(0x7f00_0001)));
    assert_eq!(website("https://example.com").host_ip(), None);
    assert!(website("http://192.168.1.1").is_private());
    assert!(website("http://10.0.0.1").is_private());
    assert!(!website("http://11.0.0.1").is_private());
    assert!(website("http://169.254.3.4").is_link_local());
    assert!(website("http://[fe80::1]").is_link_local());
    assert!(website("http://[fd00::1]").is_private());
    assert!(!website("http://[::2]").is_loopback());
    assert_eq!(website("https://example.com/a/b").domain(), Some("example.com".to_string()));
    assert_eq!(website("https://example.com/a/b").path(), "/a/b");
    assert_eq!(
        website("https://example.com/a/b").path_segments(),
        Some(vec!["a".to_string(), "b".to_string()])
    );
    assert_eq!(website("https://example.com").scheme(), "https");
}

#[test]
fn relative_links() {
    assert!(is_root_relative_link("/help"));
    assert!(is_root_relative_link("  /help"));
    assert!(!is_root_relative_link("//example.com"));
    assert!(!is_root_relative_link("help"));
    assert_eq!(RelativeUri::parse(" //a.com/x"), RelativeUri::Scheme("//a.com/x"));
    assert_eq!(RelativeUri::parse("../home").link_text(), "../home");
    assert_eq!(RelativeUri::parse("/r"), RelativeUri::Root("/r"));
    match ParsedUri::parse("  ../x").unwrap() {
        ParsedUri::Relative(r) => assert_eq!(r, RelativeUri::Local("../x")),
        ParsedUri::Absolute(_) => panic!("expected a relative link"),
    }
    match ParsedUri::parse("https://a.org").unwrap() {
        ParsedUri::Absolute(u) => assert_eq!(u.as_str(), "https://a.org/"),
        ParsedUri::Relative(_) => panic!("expected an absolute link"),
    }
    assert!(ParsedUri::parse("http://[::1").is_err());
}

#[test]
fn raw_uris() {
    let raw = RawUri {
        text: "#top".to_string(),
        element: None,
        attribute: None,
        span: RawUriSpan { line: 1, column: None },
    };
    assert!(raw.is_anchor());
    assert_eq!(Uri::from_raw(raw), Err(ErrorKind::Uri(UriError::Parse(
        UrlParseError::RelativeUrlWithoutBase,
        "#top".to_string(),
    ))));
}

#[test]
fn uri_error_messages() {
    let e = UriError::Parse(UrlParseError::RelativeUrlWithoutBase, "x".to_string());
    assert_eq!(e.message(), "Cannot parse 'x' into a URL: relative URL without a base");
    assert_eq!(
        e.details(),
        "Cannot parse 'x' into a URL: relative URL without a base: This relative link was found inside an input source that has no base location"
    );
    assert_eq!(UriError::Empty.details(), "Empty URL found but a URL must not be empty");
    assert_eq!(
        UriError::UnsupportedType("ftp".to_string()).details(),
        "Unsupported URI type: 'ftp'. Only http, https, file, and mailto are supported"
    );
    assert_eq!(
        ErrorKind::InvalidBaseJoin("a".to_string()).message(),
        "Cannot join 'a' with the base URL"
    );
}

fn mail(address: &str) -> Uri {
    Uri::try_from(format!("mailto:{address}").as_str()).unwrap()
}

#[test]
fn test_uri_from_str() {
    assert!(Uri::try_from("").is_err());
    assert_eq!(Uri::try_from("https://example.org"), Ok(website("https://example.org")));
    assert_eq!(
        Uri::try_from("https://example.org/@test/testing"),
        Ok(website("https://example.org/@test/testing"))
    );
    assert_eq!(Uri::try_from("mail@example.org"), Ok(mail("mail@example.org")));
    assert_eq!(Uri::try_from("mailto:mail@example.org"), Ok(mail("mail@example.org")));
}

#[test]
fn test_uri_from_url() {
    assert!(Uri::try_from("").is_err());
    assert_eq!(Uri::try_from("https://example.com"), Ok(website("https://example.com")));
    assert_eq!(
        Uri::try_from("https://example.com/@test/testing"),
        Ok(website("https://example.com/@test/testing"))
    );
}

#[test]
fn test_uri_from_email_str() {
    assert_eq!(Uri::try_from("mail@example.com"), Ok(mail("mail@example.com")));
    assert_eq!(Uri::try_from("mailto:mail@example.com"), Ok(mail("mail@example.com")));
    assert_eq!(Uri::try_from("mail@example.com?foo=bar"), Ok(mail("mail@example.com?foo=bar")));
}

#[test]
fn uri_test_uri_host_ip_v4() {
    assert_eq!(website("http://127.0.0.1").host_ip(), Some(Host::Ipv4(0x7f00_0001)));
}

#[test]
fn uri_test_uri_host_ip_v6() {
    assert_eq!(
        website("https://[2020::0010]").host_ip(),
        Some(Host::Ipv6(0x2020_0000_0000_0000_0000_0000_0000_0010))
    );
}

#[test]
fn uri_test_uri_host_ip_no_ip() {
    assert!(website("https://some.cryptic/url").host_ip().is_none());
}

#[test]
fn uri_test_localhost() {
    assert_eq!(website("http://127.0.0.1").host_ip(), Some(Host::Ipv4(0x7f00_0001)));
}

#[test]
fn valid_test_uri_host_ip_v4() {
    assert_eq!(website("http://127.0.0.1").host_ip(), Some(Host::Ipv4(0x7f00_0001)));
}

#[test]
fn valid_test_uri_host_ip_v6() {
    assert_eq!(
        website("https://[2020::0010]").host_ip(),
        Some(Host::Ipv6(0x2020_0000_0000_0000_0000_0000_0000_0010))
    );
}

#[test]
fn valid_test_uri_host_ip_no_ip() {
    assert!(website("https://some.cryptic/url").host_ip().is_none());
}

#[test]
fn valid_test_localhost() {
    assert_eq!(website("http://127.0.0.1").host_ip(), Some(Host::Ipv4(0x7f00_0001)));
}

#[test]
fn test_convert_to_https() {
    assert_eq!(website("http://example.com").to_https().unwrap(), website("https://example.com"));
    assert_eq!(website("https://example.com").to_https().unwrap(), website("https://example.com"));
}

#[test]
fn uri_test_github() {
    let cases = [
        ("http://github.com/lycheeverse/lychee", GithubUri::new("lycheeverse", "lychee")),
        ("http://www.github.com/lycheeverse/lychee", GithubUri::new("lycheeverse", "lychee")),
        ("https://github.com/lycheeverse/lychee", GithubUri::new("lycheeverse", "lychee")),
        ("https://github.com/lycheeverse/lychee/", GithubUri::new("lycheeverse", "lychee")),
        (
            "https://github.com/Microsoft/python-language-server.git",
            GithubUri::new("Microsoft", "python-language-server"),
        ),
        (
            "https://github.com/lycheeverse/lychee/foo/bar",
            GithubUri::with_endpoint("lycheeverse", "lychee", "foo/bar"),
        ),
        (
            "https://github.com/lycheeverse/lychee/blob/master/NON_EXISTENT_FILE.md",
            GithubUri::with_endpoint("lycheeverse", "lychee", "blob/master/NON_EXISTENT_FILE.md"),
        ),
    ];
    for (url, expected) in cases {
        assert_eq!(GithubUri::gh_org_and_repo(&website(url)).ok(), Some(expected));
    }
}

#[test]
fn github_test_github() {
    let cases = [
        ("http://github.com/lycheeverse/lychee", GithubUri::new("lycheeverse", "lychee")),
        ("http://www.github.com/lycheeverse/lychee", GithubUri::new("lycheeverse", "lychee")),
        ("https://github.com/lycheeverse/lychee", GithubUri::new("lycheeverse", "lychee")),
        ("https://github.com/lycheeverse/lychee/", GithubUri::new("lycheeverse", "lychee")),
        (
            "https://github.com/lycheeverse/lychee/foo/bar",
            GithubUri::with_endpoint("lycheeverse", "lychee", "foo/bar"),
        ),
        (
            "https://github.com/Microsoft/python-language-server.git",
            GithubUri::new("Microsoft", "python-language-server"),
        ),
        (
            "https://github.com/lycheeverse/lychee/blob/master/NON_EXISTENT_FILE.md",
            GithubUri::with_endpoint("lycheeverse", "lychee", "blob/master/NON_EXISTENT_FILE.md"),
        ),
    ];
    for (url, expected) in cases {
        assert_eq!(GithubUri::try_from(&website(url)).unwrap(), expected);
    }
}

#[test]
fn github_test_github_false_positives() {
    assert!(GithubUri::try_from(&website("https://github.com/sponsors/analysis-tools-dev ")).is_err());
    assert!(GithubUri::try_from(&website(
        "https://github.com/marketplace/actions/lychee-broken-link-checker"
    ))
    .is_err());
    assert!(GithubUri::try_from(&website("https://github.com/features/actions")).is_err());
    assert!(GithubUri::try_from(&website(
        "https://pkg.go.dev/github.com/Debian/pkg-go-tools/cmd/pgt-gopath"
    ))
    .is_err());
}

#[test]
fn test_github_api_url() {
    let api_uri = GithubUri::try_from(&website("https://api.github.com/repos/user/repo")).unwrap();
    assert_eq!(api_uri.owner, "user");
    assert_eq!(api_uri.repo, "repo");
    assert_eq!(api_uri.endpoint, None);
    assert!(api_uri.is_api);

    let api_uri =
        GithubUri::try_from(&website("https://api.github.com/repos/user/repo/issues/comments/123")).unwrap();
    assert_eq!(api_uri.owner, "user");
    assert_eq!(api_uri.repo, "repo");
    assert_eq!(api_uri.endpoint, Some("issues/comments/123".to_string()));
    assert!(api_uri.is_api);

    let api_uri =
        GithubUri::try_from(&website("https://api.github.com/repos/user/repo/contents/README.md")).unwrap();
    assert_eq!(api_uri.owner, "user");
    assert_eq!(api_uri.repo, "repo");
    assert_eq!(api_uri.endpoint, Some("contents/README.md".to_string()));
    assert!(api_uri.is_api);

    let normal_uri = GithubUri::try_from(&website("https://github.com/user/repo")).unwrap();
    assert!(!normal_uri.is_api);
}

#[test]
fn parsed_uri_passes_on_the_parse_error() {
    match ParsedUri::parse("  http://exa mple.com") {
        Err(ErrorKind::Uri(UriError::Parse(e, text))) => {
            assert_eq!(e, UrlParseError::IdnaError);
            assert_eq!(text, "http://exa mple.com");
        }
        _ => panic!("expected the URL parse error"),
    }
    assert!(matches!(ParsedUri::parse("   "), Err(ErrorKind::Uri(UriError::Empty))));
}

#[test]
fn uri_text_leaves_out_the_mail_scheme() {
    assert_eq!(Uri::try_from("mailto:mail@example.org").unwrap().as_str(), "mail@example.org");
    assert_eq!(Uri::try_from("https://example.org/a").unwrap().as_str(), "https://example.org/a");
}
