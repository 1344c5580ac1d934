use lychee_lib::{
    absolute_path, create, create_request, error_uri, is_anchor,
    prepend_root_dir_if_absolute_local_link, remove_get_params_and_separate_fragment, resolve,
    resolve_and_create_url, try_parse_into_uri, BasicAuthCredentials,
    BasicAuthCredentialsParseError, BasicAuthSelector, BasicAuthSelectorParseError, Base, ErrorKind, RawBasicAuthSelector,
    RawUri, RawUriSpan, Request, RequestError, ResolvedInputSource, Uri,
};

const CWD: &str = "/work";

fn raw_uri(text: &str) -> RawUri {
    RawUri {
        text: text.to_string(),
        element: None,
        attribute: None,
        span: RawUriSpan { line: usize::MAX, column: None },
    }
}

fn file_uri(path: &str) -> Uri {
    Uri::try_from(format!("file://{path}").as_str()).unwrap()
}

#[test]
fn test_resolve_from_absolute() {
    let abs_index = "/path/to/index.html";
    let abs_path = "./foo.html";
    assert_eq!(
        resolve(abs_index, abs_path, true, CWD).unwrap(),
        Some("/path/to/foo.html".to_string())
    );
}

#[test]
fn resolve_relative_to_current_dir() {
    assert_eq!(resolve("index.html", "./foo.html", true, CWD).unwrap(), Some("/work/foo.html".to_string()));
    assert_eq!(resolve("/a/b.html", "/c.html", true, CWD).unwrap(), None);
    assert_eq!(resolve("/a/b.html", "/c/../d.html", false, CWD).unwrap(), Some("/d.html".to_string()));
    assert_eq!(
        resolve("", "x", true, CWD),
        Err(ErrorKind::InvalidFile("x".to_string()))
    );
    assert_eq!(absolute_path("a/./b/../c", "/w"), "/w/a/c");
}

#[test]
fn test_is_anchor() {
    assert!(is_anchor("#anchor"));
    assert!(!is_anchor("notan#anchor"));
}

#[test]
fn test_create_request_from_relative_file_path() {
    let base = Base::Local("/tmp/lychee".to_string());
    let input_source = ResolvedInputSource::FsPath("page.html".to_string());
    let actual = create_request(&raw_uri("file.html"), &input_source, None, Some(&base), CWD).unwrap();
    assert_eq!(
        actual,
        Request::new(file_uri("/tmp/lychee/file.html"), input_source, None, None, None)
    );
}

#[test]
fn test_create_request_from_relative_file_path_errors() {
    assert!(create_request(&raw_uri("file.html"), &ResolvedInputSource::Stdin, None, None, CWD).is_err());
    assert!(create_request(
        &raw_uri("/file.html"),
        &ResolvedInputSource::FsPath("page.html".to_string()),
        None,
        None,
        CWD,
    )
    .is_err());
}

#[test]
fn test_create_request_from_absolute_file_path() {
    let base = Base::Local("/tmp/lychee".to_string());
    let input_source = ResolvedInputSource::FsPath("/tmp/lychee/page.html".to_string());
    let absolute_file = "/usr/local/share/doc/example.html";
    let actual = create_request(&raw_uri(absolute_file), &input_source, None, Some(&base), CWD).unwrap();
    assert_eq!(
        actual,
        Request::new(file_uri(absolute_file), input_source, None, None, None)
    );
}

#[test]
fn test_parse_relative_path_into_uri() {
    let base = Base::Local("/tmp/lychee".to_string());
    let source = ResolvedInputSource::String(String::new());
    let uri = try_parse_into_uri(&raw_uri("relative.html"), &source, None, Some(&base), CWD).unwrap();
    assert_eq!(uri.url.as_str(), "file:///tmp/lychee/relative.html");
}

#[test]
fn test_parse_absolute_path_into_uri() {
    let base = Base::Local("/tmp/lychee".to_string());
    let source = ResolvedInputSource::String(String::new());
    let uri = try_parse_into_uri(&raw_uri("absolute.html"), &source, None, Some(&base), CWD).unwrap();
    assert_eq!(uri.url.as_str(), "file:///tmp/lychee/absolute.html");
}

#[test]
fn test_prepend_with_absolute_local_link_and_root_dir() {
    let result = prepend_root_dir_if_absolute_local_link("/absolute/path", Some("/root"));
    assert_eq!(result, "/root/absolute/path");
}

#[test]
fn test_prepend_with_absolute_local_link_and_no_root_dir() {
    let result = prepend_root_dir_if_absolute_local_link("/absolute/path", None);
    assert_eq!(result, "/absolute/path");
}

#[test]
fn test_prepend_with_relative_link_and_root_dir() {
    let result = prepend_root_dir_if_absolute_local_link("relative/path", Some("/root"));
    assert_eq!(result, "relative/path");
}

#[test]
fn test_prepend_with_relative_link_and_no_root_dir() {
    let result = prepend_root_dir_if_absolute_local_link("relative/path", None);
    assert_eq!(result, "relative/path");
}

#[test]
fn test_error_url_parses() {
    let uri = error_uri().unwrap();
    assert_eq!(uri.as_str(), "error:");
}

#[test]
fn create_deduplicates_requests_but_not_errors() {
    let base = Base::try_from("https://example.com/path/page.html").unwrap();
    let source = ResolvedInputSource::String(String::new());
    let uris = vec![
        raw_uri("relative.html"),
        raw_uri("https://another.com/page"),
        raw_uri("relative.html"),
        raw_uri("#fragment"),
    ];
    let results = create(uris, &source, None, Some(&base), CWD);
    let urls: Vec<String> = results.iter().map(|r| r.as_ref().unwrap().uri.as_str().to_string()).collect();
    assert_eq!(
        urls,
        vec![
            "https://example.com/path/relative.html",
            "https://another.com/page",
            "https://example.com/path/page.html#fragment",
        ]
    );

    let stdin = ResolvedInputSource::Stdin;
    let results = create(vec![raw_uri("a"), raw_uri("a")], &stdin, None, None, CWD);
    assert_eq!(results.len(), 2);
    for r in &results {
        match r {
            Err(RequestError::CreateRequestItem(raw, src, e)) => {
                assert_eq!(raw.text, "a");
                assert_eq!(*src, ResolvedInputSource::Stdin);
                assert_eq!(*e, ErrorKind::Uri(lychee_lib::UriError::UnsupportedType("a".to_string())));
            }
            other => panic!("unexpected {other:?}"),
        }
    }
}

#[test]
fn create_uses_root_dir_and_source_base() {
    let source = ResolvedInputSource::FsPath("/some/page.html".to_string());
    let results = create(vec![raw_uri("/root-relative")], &source, Some("/tmp/lychee"), None, CWD);
    assert_eq!(results[0].as_ref().unwrap().uri.as_str(), "file:///tmp/lychee/root-relative");
    let results = create(vec![raw_uri("relative.html")], &source, Some("/tmp/lychee"), None, CWD);
    assert_eq!(results[0].as_ref().unwrap().uri.as_str(), "file:///some/relative.html");
    let remote = ResolvedInputSource::RemoteUrl(Uri::try_from("https://example.com/a/b?x#y").unwrap().url);
    let results = create(vec![raw_uri("c")], &remote, None, None, CWD);
    assert_eq!(results[0].as_ref().unwrap().uri.as_str(), "https://example.com/c");
}

#[test]
fn links_to_files_keep_fragments() {
    let url = resolve_and_create_url("/README.md", "test+encoding", true, CWD).unwrap();
    assert_eq!(url.as_str(), "file:///test+encoding");
    let url = resolve_and_create_url("/docs/a.md", "b%20c.md?x=1#sec", true, CWD).unwrap();
    assert_eq!(url.as_str(), "file:///docs/b%20c.md#sec");
    assert_eq!(
        remove_get_params_and_separate_fragment("a?b#c?d"),
        ("a".to_string(), Some("c?d".to_string()))
    );
    assert_eq!(resolve_and_create_url("/docs/a.md", "%FF", true, CWD), Err(ErrorKind::Utf8("%FF".to_string())));
    let uri = lychee_lib::create_uri_from_file_path("/docs/a.md", "#sec", true, CWD).unwrap();
    assert_eq!(uri.as_str(), "file:///docs/a.md#sec");
}

#[test]
fn basic_auth_test_valid_basic_auth_selector() {
    let selector = RawBasicAuthSelector::from_str("http://example.com foo:bar").unwrap();
    assert_eq!(selector.url, "http://example.com".to_string());
    assert_eq!(
        selector.credentials,
        BasicAuthCredentials { username: "foo".to_string(), password: "bar".to_string() }
    );
}

#[test]
fn basic_auth_errors() {
    assert_eq!(BasicAuthCredentials::from_str("foo"), Err(BasicAuthCredentialsParseError::InvalidSyntax));
    assert_eq!(BasicAuthCredentials::from_str("a:b:c"), Err(BasicAuthCredentialsParseError::TooManyParts(3)));
    assert_eq!(BasicAuthCredentials::from_str(":b"), Err(BasicAuthCredentialsParseError::MissingUsername));
    assert_eq!(BasicAuthCredentials::from_str("a:"), Err(BasicAuthCredentialsParseError::MissingPassword));
    assert_eq!(RawBasicAuthSelector::from_str("http://x.org"), Err(BasicAuthSelectorParseError::MissingCredentials));
    assert_eq!(RawBasicAuthSelector::from_str("a b c"), Err(BasicAuthSelectorParseError::TooManyParts(3)));
    assert_eq!(
        RawBasicAuthSelector::from_str("a b"),
        Err(BasicAuthSelectorParseError::BasicAuthCredentialsParseError(
            BasicAuthCredentialsParseError::InvalidSyntax
        ))
    );
}

#[test]
fn request_builders() {
    let uri = Uri::try_from("https://a.org").unwrap();
    let req = Request::from_uri(uri)
        .with_element("a".to_string())
        .with_attribute("href".to_string())
        .with_span(RawUriSpan { line: 3, column: Some(4) })
        .with_credentials(BasicAuthCredentials { username: "u".into(), password: "p".into() });
    assert_eq!(req.element.as_deref(), Some("a"));
    assert_eq!(req.attribute.as_deref(), Some("href"));
    assert_eq!(req.span, Some(RawUriSpan { line: 3, column: Some(4) }));
    assert!(req.same_as(&req.clone()));
    let from_text = Request::try_from("https://b.org").unwrap();
    assert_eq!(from_text.source, ResolvedInputSource::String("https://b.org".to_string()));
    assert!(Request::try_from("").is_err());
}

/// Creates requests from the given raw URIs and keeps those that were
/// constructed successfully.
fn create_ok_only(
    uris: Vec<RawUri>,
    source: &ResolvedInputSource,
    root_dir: Option<&str>,
    base: Option<&Base>,
) -> Vec<Request> {
    create(uris, source, root_dir, base, CWD).into_iter().filter_map(Result::ok).collect()
}

fn example_base() -> Base {
    Base::try_from("https://example.com/path/page.html").unwrap()
}

fn assert_single(requests: &[Request], expected: &str) {
    assert_eq!(requests.len(), 1);
    assert!(requests.iter().any(|r| r.uri.url.as_str() == expected));
}

#[test]
fn test_create_uri_from_path() {
    let result = resolve_and_create_url("/README.md", "test+encoding", true, CWD).unwrap();
    assert_eq!(result.as_str(), "file:///test+encoding");
}

#[test]
fn test_relative_url_resolution() {
    let source = ResolvedInputSource::String(String::new());
    let requests = create_ok_only(vec![raw_uri("relative.html")], &source, None, Some(&example_base()));
    assert_single(&requests, "https://example.com/path/relative.html");
}

#[test]
fn test_absolute_url_resolution() {
    let source = ResolvedInputSource::String(String::new());
    let requests = create_ok_only(vec![raw_uri("https://another.com/page")], &source, None, Some(&example_base()));
    assert_single(&requests, "https://another.com/page");
}

#[test]
fn test_root_relative_url_resolution() {
    let source = ResolvedInputSource::String(String::new());
    let requests = create_ok_only(vec![raw_uri("/root-relative")], &source, None, Some(&example_base()));
    assert_single(&requests, "https://example.com/root-relative");
}

#[test]
fn test_parent_directory_url_resolution() {
    let source = ResolvedInputSource::String(String::new());
    let requests = create_ok_only(vec![raw_uri("../parent")], &source, None, Some(&example_base()));
    assert_single(&requests, "https://example.com/parent");
}

#[test]
fn test_fragment_url_resolution() {
    let source = ResolvedInputSource::String(String::new());
    let requests = create_ok_only(vec![raw_uri("#fragment")], &source, None, Some(&example_base()));
    assert_single(&requests, "https://example.com/path/page.html#fragment");
}

#[test]
fn test_relative_url_resolution_from_root_dir() {
    let source = ResolvedInputSource::FsPath("/some/page.html".to_string());
    let requests = create_ok_only(vec![raw_uri("relative.html")], &source, Some("/tmp/lychee"), None);
    assert_single(&requests, "file:///some/relative.html");
}

#[test]
fn test_absolute_url_resolution_from_root_dir() {
    let source = ResolvedInputSource::FsPath("/some/page.html".to_string());
    let requests = create_ok_only(vec![raw_uri("https://another.com/page")], &source, Some("/tmp/lychee"), None);
    assert_single(&requests, "https://another.com/page");
}

#[test]
fn test_root_relative_url_resolution_from_root_dir() {
    let source = ResolvedInputSource::FsPath("/some/page.html".to_string());
    let requests = create_ok_only(vec![raw_uri("/root-relative")], &source, Some("/tmp/lychee"), None);
    assert_single(&requests, "file:///tmp/lychee/root-relative");
}

#[test]
fn test_parent_directory_url_resolution_from_root_dir() {
    let source = ResolvedInputSource::FsPath("/some/page.html".to_string());
    let requests = create_ok_only(vec![raw_uri("../parent")], &source, Some("/tmp/lychee"), None);
    assert_single(&requests, "file:///parent");
}

#[test]
fn test_fragment_url_resolution_from_root_dir() {
    let source = ResolvedInputSource::FsPath("/some/page.html".to_string());
    let requests = create_ok_only(vec![raw_uri("#fragment")], &source, Some("/tmp/lychee"), None);
    assert_single(&requests, "file:///some/page.html#fragment");
}

#[test]
fn test_relative_url_resolution_from_root_dir_and_base_url() {
    let source = ResolvedInputSource::FsPath("/some/page.html".to_string());
    let requests =
        create_ok_only(vec![raw_uri("relative.html")], &source, Some("/tmp/lychee"), Some(&example_base()));
    assert_single(&requests, "https://example.com/path/relative.html");
}

#[test]
fn test_absolute_url_resolution_from_root_dir_and_base_url() {
    let source = ResolvedInputSource::FsPath("/some/page.html".to_string());
    let requests = create_ok_only(
        vec![raw_uri("https://another.com/page")],
        &source,
        Some("/tmp/lychee"),
        Some(&example_base()),
    );
    assert_single(&requests, "https://another.com/page");
}

#[test]
fn test_root_relative_url_resolution_from_root_dir_and_base_url() {
    let source = ResolvedInputSource::FsPath("/some/page.html".to_string());
    let requests =
        create_ok_only(vec![raw_uri("/root-relative")], &source, Some("/tmp/lychee"), Some(&example_base()));
    assert_single(&requests, "https://example.com/tmp/lychee/root-relative");
}

#[test]
fn test_parent_directory_url_resolution_from_root_dir_and_base_url() {
    let source = ResolvedInputSource::FsPath("/some/page.html".to_string());
    let requests =
        create_ok_only(vec![raw_uri("../parent")], &source, Some("/tmp/lychee"), Some(&example_base()));
    assert_single(&requests, "https://example.com/parent");
}

#[test]
fn test_fragment_url_resolution_from_root_dir_and_base_url() {
    let source = ResolvedInputSource::FsPath("/some/page.html".to_string());
    let requests =
        create_ok_only(vec![raw_uri("#fragment")], &source, Some("/tmp/lychee"), Some(&example_base()));
    assert_single(&requests, "https://example.com/path/page.html#fragment");
}

#[test]
fn test_no_base_url_resolution() {
    let source = ResolvedInputSource::String(String::new());
    let requests = create_ok_only(vec![raw_uri("https://example.com/page")], &source, None, None);
    assert_single(&requests, "https://example.com/page");
}

#[test]
fn test_resolve_relative() {
    assert_eq!(resolve("index.html", "./foo.html", true, CWD).unwrap(), Some(format!("{CWD}/foo.html")));
}

#[test]
fn test_resolve_relative_index() {
    assert_eq!(resolve("./index.html", "./foo.html", true, CWD).unwrap(), Some(format!("{CWD}/foo.html")));
}

#[test]
fn selector_test_valid_basic_auth_selector() {
    let selector = BasicAuthSelector::from_str("http://example.com foo:bar").unwrap();
    assert_eq!(selector.raw_uri_regex, "http://example.com".to_string());
    assert_eq!(
        selector.credentials,
        BasicAuthCredentials { username: "foo".to_string(), password: "bar".to_string() }
    );
}

#[test]
fn test_missing_uri_basic_auth_selector() {
    let result = BasicAuthSelector::from_str("foo:bar");
    assert!(result.is_err());
    assert_eq!(result.unwrap_err(), BasicAuthSelectorParseError::InvalidSyntax);
}

#[test]
fn test_missing_credentials_basic_auth_selector() {
    let result = BasicAuthSelector::from_str("https://example.com");
    assert!(result.is_err());
    assert_eq!(result.unwrap_err(), BasicAuthSelectorParseError::InvalidSyntax);
}

#[test]
fn test_empty_basic_auth_selector() {
    let result = BasicAuthSelector::from_str("");
    assert!(result.is_err());
    assert_eq!(result.unwrap_err(), BasicAuthSelectorParseError::EmptyInput);

    let result = BasicAuthSelector::from_str("   ");
    assert!(result.is_err());
    assert_eq!(result.unwrap_err(), BasicAuthSelectorParseError::EmptyInput);
}

#[test]
fn test_too_many_parts_basic_auth_selector() {
    let result = BasicAuthSelector::from_str("");
    assert!(result.is_err());
    assert_eq!(result.unwrap_err(), BasicAuthSelectorParseError::EmptyInput);

    let result = BasicAuthSelector::from_str("   ");
    assert!(result.is_err());
    assert_eq!(result.unwrap_err(), BasicAuthSelectorParseError::EmptyInput);
}

#[test]
fn basic_auth_selector_counts_parts() {
    assert_eq!(
        BasicAuthSelector::from_str("a b c"),
        Err(BasicAuthSelectorParseError::TooManyParts(3))
    );
    assert_eq!(
        BasicAuthSelector::from_str("a b:"),
        Err(BasicAuthSelectorParseError::BasicAuthCredentialsParseError(
            BasicAuthCredentialsParseError::MissingPassword
        ))
    );
}

#[test]
fn requests_are_written_with_their_source() {
    let req = Request::new(
        Uri::try_from("https://a.org/").unwrap(),
        ResolvedInputSource::FsPath("docs/x.md".to_string()),
        None,
        None,
        None,
    );
    assert_eq!(req.to_string(), "https://a.org/ (docs/x.md)");
}

#[test]
fn requests_from_text_pass_on_the_uri_error() {
    assert_eq!(Request::try_from(""), Err(lychee_lib::ErrorKind::Uri(lychee_lib::UriError::Empty)));
    match Request::try_from("no/scheme") {
        Err(lychee_lib::ErrorKind::Uri(lychee_lib::UriError::Parse(_, text))) => assert_eq!(text, "no/scheme"),
        _ => panic!("expected the parse error"),
    }
    let mail = Request::try_from("mail@example.org").unwrap();
    assert_eq!(mail.to_string(), "mail@example.org (mail@example.org)");
}
