use std::path::Path;

use lychee_lib::{
    ContentStep, DiscoveredContent, ErrorKind, FileType, Input, InputContent, InputResolver,
    InputSource, IoErrorKind, RequestError, ResolveStep, ResolvedInputSource, SourceStep, Uri,
    UriError,
};

fn path_exists(value: &str) -> bool {
    Path::new(value).exists()
}

fn from_value(value: &str) -> Result<Input, ErrorKind> {
    Input::from_value(value, path_exists(value))
}

#[test]
fn input_test_input_handles_real_relative_paths() {
    // The directory the tests run in, which always exists.
    let test_file = "./";
    let path = Path::new(test_file);
    assert!(path.exists());
    assert!(path.is_relative());

    let input = Input::new(test_file, None, false, path_exists(test_file));
    assert!(input.is_ok());
    assert!(matches!(
        input,
        Ok(Input { source: InputSource::FsPath(_), file_type_hint: None })
    ));
}

#[test]
fn input_test_input_handles_nonexistent_relative_paths() {
    let test_file = "./nonexistent/relative/path";
    let path = Path::new(test_file);
    assert!(!path.exists());
    assert!(path.is_relative());

    let input = from_value(test_file);
    assert!(input.is_err());
    assert!(matches!(input, Err(ErrorKind::InvalidFile(_))));
}

#[test]
fn input_test_url_without_scheme() {
    let input = from_value("example.com");
    assert_eq!(input.unwrap().source.to_string(), String::from("http://example.com/"));
}

#[test]
fn test_windows_style_filepath_not_existing() {
    let input = from_value("C:\\example\\project\\here");
    assert!(input.is_err());
    match input.unwrap_err() {
        ErrorKind::InvalidFile(_) => (),
        _ => panic!("Should have received InvalidFile error"),
    }
}

#[test]
fn test_url_scheme_check_succeeding() {
    for value in [
        "http://example.com",
        "https://example.com",
        "http://subdomain.example.com/path?query=value",
        "https://example.com:8080",
    ] {
        assert!(matches!(
            from_value(value),
            Ok(Input { source: InputSource::RemoteUrl(_), .. })
        ));
    }
}

#[test]
fn test_url_scheme_check_failing() {
    for value in [
        "ftp://example.com",
        "httpx://example.com",
        "file:///path/to/file",
        "mailto:user@example.com",
    ] {
        assert!(matches!(from_value(value), Err(ErrorKind::InvalidFile(_))));
    }
}

#[test]
fn test_non_url_inputs() {
    assert!(matches!(from_value("./local/path"), Err(ErrorKind::InvalidFile(_))));
    assert!(matches!(
        from_value("*.md"),
        Ok(Input { source: InputSource::FsGlob { .. }, .. })
    ));
    assert!(matches!(
        from_value("."),
        Ok(Input { source: InputSource::FsPath(_), .. })
    ));
}

#[test]
fn input_sources_of_texts() {
    assert_eq!(InputSource::new("-", false, false), Ok(InputSource::Stdin));
    assert_eq!(
        InputSource::new("docs/**/*.md", true, false),
        Ok(InputSource::FsGlob { pattern: "docs/**/*.md".to_string(), ignore_case: true })
    );
    match InputSource::new("a[", false, false) {
        Err(ErrorKind::InvalidGlobPattern(text)) => assert!(text.starts_with("Pattern syntax error")),
        other => panic!("unexpected {other:?}"),
    }
    assert_eq!(
        InputSource::new("README.md", false, true),
        Ok(InputSource::FsPath("README.md".to_string()))
    );
    assert_eq!(
        InputSource::new("~/missing", false, false),
        Err(ErrorKind::InvalidFile("~/missing".to_string()))
    );
    match InputSource::new("exa mple", false, false) {
        Err(ErrorKind::Uri(UriError::Parse(_, text))) => assert_eq!(text, "Input is not a valid URL"),
        other => panic!("unexpected {other:?}"),
    }
    let input = Input::new("*.md", Some(FileType::Markdown), false, false).unwrap();
    assert_eq!(input.file_type_hint, Some(FileType::Markdown));
    assert_eq!(input.source.to_string(), "*.md");
    assert_eq!(InputSource::Stdin.to_string(), "stdin");
    let url = Uri::try_from("https://a.org/x").unwrap().url;
    assert_eq!(
        InputSource::from_resolved(ResolvedInputSource::RemoteUrl(url.clone())),
        InputSource::RemoteUrl(url)
    );
    let plain = Input::from_input_source(InputSource::String("x".to_string()));
    assert_eq!(plain.file_type_hint, None);
}

#[test]
fn content_steps_by_source() {
    let url = Input::from_value("https://example.com/a", false).unwrap();
    assert!(matches!(url.content_step(), ContentStep::FetchUrl(u) if u.as_str() == "https://example.com/a"));
    let path = Input::from_value("docs", true).unwrap();
    assert!(matches!(path.content_step(), ContentStep::CheckPath(p) if p == "docs"));
    let glob = Input::from_value("*.md", false).unwrap();
    assert!(matches!(glob.content_step(), ContentStep::Resolve));
    let stdin = Input::new("-", Some(FileType::Markdown), false, false).unwrap();
    assert!(matches!(stdin.content_step(), ContentStep::ReadStdin(FileType::Markdown)));
    let text = Input::from_input_source(InputSource::String("<a href=x>".to_string()));
    match text.content_step() {
        ContentStep::Content(c) => {
            assert_eq!(c.content, "<a href=x>");
            assert_eq!(c.file_type, FileType::Plaintext);
            assert_eq!(c.source, ResolvedInputSource::String("<a href=x>".to_string()));
        }
        other => panic!("unexpected {other:?}"),
    }
}

#[test]
fn content_outcomes() {
    let url = Input::from_value("https://example.com/a", false).unwrap();
    let failure = || ErrorKind::ReadInputUrlStatusCode(404);
    assert!(url.on_user_content(Err(failure()), true).is_none());
    match url.on_user_content(Err(failure()), false) {
        Some(Err(RequestError::UserInputContent(src, e))) => {
            assert_eq!(src, url.source);
            assert_eq!(e, failure());
        }
        other => panic!("unexpected {other:?}"),
    }
    let stdin = Input::from_value("-", false).unwrap();
    assert!(matches!(stdin.on_user_content(Err(failure()), true), Some(Err(_))));
    assert!(stdin.on_path_check(Ok(())).is_none());
    assert!(matches!(
        stdin.on_path_check(Err(failure())),
        Some(RequestError::UserInputContent(InputSource::Stdin, _))
    ));

    let glob = Input::from_value("*.md", false).unwrap();
    let content = Input::string_content("x", None);
    assert!(matches!(glob.on_discovered_content(Ok(content), false), DiscoveredContent::Content(_)));
    assert!(matches!(glob.on_discovered_content(Err(failure()), true), DiscoveredContent::Skip));
    let binary = ErrorKind::ReadFileInput(IoErrorKind::InvalidData, "bad".to_string(), "a.bin".to_string());
    assert!(matches!(
        glob.on_discovered_content(Err(binary), false),
        DiscoveredContent::SkipNotUtf8(p) if p == "a.bin"
    ));
    assert!(matches!(
        glob.on_discovered_content(Err(failure()), false),
        DiscoveredContent::Fail(RequestError::GetInputContent(InputSource::FsGlob { .. }, _))
    ));
    assert!(matches!(
        glob.on_resolution_error(failure()),
        RequestError::GetInputContent(InputSource::FsGlob { .. }, ErrorKind::ReadInputUrlStatusCode(404))
    ));
    let from_file = InputContent::from_path("notes/a.md", "# x".to_string());
    assert_eq!(from_file.file_type, FileType::Markdown);
    assert_eq!(from_file.source, ResolvedInputSource::FsPath("notes/a.md".to_string()));
    assert!(matches!(
        glob.source_step(ResolvedInputSource::FsPath("a.md".to_string())),
        SourceStep::ReadPath(p) if p == "a.md"
    ));
}

#[test]
fn resolver_decisions() {
    let glob = Input::new("*.MD", None, true, false).unwrap();
    match InputResolver::resolve_step(&glob, false) {
        ResolveStep::ExpandGlob { pattern, case_sensitive } => {
            assert_eq!(pattern, "*.MD");
            assert!(!case_sensitive);
        }
        other => panic!("unexpected {other:?}"),
    }
    let dir = Input::from_value("docs", true).unwrap();
    assert!(matches!(InputResolver::resolve_step(&dir, true), ResolveStep::WalkDirectory(p) if p == "docs"));
    assert!(matches!(InputResolver::resolve_step(&dir, false), ResolveStep::SingleFile(p) if p == "docs"));
    let stdin = Input::from_value("-", false).unwrap();
    assert!(matches!(InputResolver::resolve_step(&stdin, false), ResolveStep::Ready(ResolvedInputSource::Stdin)));
    assert!(InputResolver::keep_glob_match(false, false));
    assert!(!InputResolver::keep_glob_match(true, false));
    assert!(!InputResolver::keep_glob_match(false, true));
    assert!(InputResolver::keep_walk_entry(false, Some(true)));
    assert!(!InputResolver::keep_walk_entry(false, None));
    assert!(!InputResolver::keep_walk_entry(true, Some(true)));
    assert!(InputResolver::keep_single_file(false));
    assert_eq!(InputResolver::source_label(&ResolvedInputSource::Stdin), "<stdin>");
    assert_eq!(InputResolver::source_label(&ResolvedInputSource::String("x".to_string())), "<raw string>");
    assert_eq!(InputResolver::source_label(&ResolvedInputSource::FsPath("a.md".to_string())), "a.md");
}

#[test]
fn request_errors_are_described() {
    let raw = lychee_lib::RawUri {
        text: "a b".to_string(),
        element: None,
        attribute: Some("href".to_string()),
        span: lychee_lib::RawUriSpan { line: 1, column: None },
    };
    let e = RequestError::CreateRequestItem(raw, ResolvedInputSource::Stdin, ErrorKind::InvalidBaseJoin("a b".to_string()));
    assert_eq!(
        e.to_string(),
        "Error building URL for \"a b\" (Attribute: Some(\"href\")): Cannot join 'a b' with the base URL"
    );
    assert_eq!(e.input_source(), InputSource::Stdin);
    let e = RequestError::UserInputContent(InputSource::FsPath("x.md".to_string()), ErrorKind::InvalidStatusCode(7));
    assert_eq!(e.to_string(), "Error reading user input 'x.md': Invalid status code: 7");
    let e = RequestError::GetInputContent(InputSource::Stdin, ErrorKind::InvalidStatusCode(7));
    assert_eq!(e.to_string(), "Error reading input 'stdin': Invalid status code: 7");
}

#[test]
fn contents_of_fetched_urls() {
    let url = |s: &str| Uri::try_from(s).unwrap().url;
    let root = InputContent::from_url_response(&url("https://a.org"), 200, "<html>".to_string()).unwrap();
    assert_eq!(root.file_type, FileType::Html);
    assert_eq!(root.content, "<html>");
    let md = InputContent::from_url_response(&url("https://a.org/README.md"), 204, String::new()).unwrap();
    assert_eq!(md.file_type, FileType::Markdown);
    assert_eq!(
        InputContent::from_url_response(&url("https://a.org/x"), 404, String::new()).unwrap_err(),
        ErrorKind::ReadInputUrlStatusCode(404)
    );
}

#[test]
fn test_pattern_serialization_is_original_pattern() {
    let pat = "asd[f]*";
    let source = InputSource::new(pat, false, false).unwrap();
    assert_eq!(source, InputSource::FsGlob { pattern: pat.to_string(), ignore_case: false });
    assert_eq!(format!("{:?}", source.to_string()), "\"asd[f]*\"");
}

#[test]
fn file_sources_have_file_urls() {
    let source = ResolvedInputSource::FsPath("/tmp/docs/a.md".to_string());
    let url = source.to_url().unwrap().unwrap();
    assert_eq!(url.as_str(), "file:///tmp/docs/a.md");
    assert_eq!(
        ResolvedInputSource::FsPath(String::new()).to_url(),
        Err(ErrorKind::InvalidUrlFromPath(String::new()))
    );
    assert_eq!(ResolvedInputSource::Stdin.to_url(), Ok(None));
    let made = lychee_lib::file_source_url_of("a.md", Some("/work/a.md".to_string()))
        .unwrap()
        .unwrap();
    assert_eq!(made.as_str(), "file:///work/a.md");
    assert_eq!(
        lychee_lib::file_source_url_of("a.md", None),
        Err(ErrorKind::InvalidUrlFromPath("a.md".to_string()))
    );
}
