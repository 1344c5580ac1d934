use lychee_lib::{Base, BaseInfo, ResolvedInputSource, Uri};

fn url(s: &str) -> lychee_lib::AbsoluteUrl {
    Uri::try_from(s).unwrap().url
}

#[test]
fn test_valid_remote() {
    let base = Base::try_from("https://endler.dev").unwrap();
    assert_eq!(base, Base::Remote(url("https://endler.dev")));
}

#[test]
fn test_invalid_url() {
    assert!(Base::try_from("data:text/plain,Hello?World#").is_err());
}

#[test]
fn test_valid_local_path_string_as_base() {
    let cases = vec!["/tmp/lychee", "/tmp/lychee/"];
    for case in cases {
        assert_eq!(Base::try_from(case).unwrap(), Base::Local(case.to_string()));
    }
}

#[test]
fn test_invalid_local_path_string_as_base() {
    let cases = vec!["a", "tmp/lychee/", "example.com", "../nonlocal"];
    for case in cases {
        assert!(Base::try_from(case).is_err());
    }
}

#[test]
fn test_base_info_construction() {
    assert_eq!(
        BaseInfo::try_from("https://a.com/b/?q#x").unwrap(),
        BaseInfo::Full(url("https://a.com"), "b/?q#x".to_string())
    );
    assert_eq!(
        BaseInfo::try_from("file:///file-path").unwrap(),
        BaseInfo::NoRoot(url("file:///file-path"))
    );
    assert_eq!(
        BaseInfo::try_from("/file-path").unwrap(),
        BaseInfo::Full(url("file:///file-path/"), String::new())
    );

    let urls = ["https://a.com/b/?q#x", "file:///a.com/b/?q#x"];
    for url_str in urls {
        let expected = url(url_str);
        assert_eq!(BaseInfo::try_from(url_str).unwrap().url(), Some(expected));
    }
}

#[test]
fn test_base_info_with_http_base() {
    let base = BaseInfo::try_from("https://a.com/c/u/").unwrap();
    let root_dir = url("file:///root/");

    assert_eq!(
        base.parse_url_text_with_root_dir("/a", Some(&root_dir)),
        Ok(url("https://a.com/a"))
    );

    assert_eq!(
        base.parse_url_text_with_root_dir("..", Some(&root_dir)),
        Ok(url("https://a.com/c/"))
    );
}

#[test]
fn test_base_info_parse_with_root_dir() {
    let base = BaseInfo::try_from("/file-path").unwrap();
    let root_dir = url("file:///root/");

    assert_eq!(
        base.parse_url_text_with_root_dir("a", Some(&root_dir)),
        Ok(url("file:///file-path/a"))
    );
    assert_eq!(
        base.parse_url_text_with_root_dir("./a", Some(&root_dir)),
        Ok(url("file:///file-path/a"))
    );
    assert_eq!(
        base.parse_url_text_with_root_dir("///scheme-relative", Some(&root_dir)),
        Ok(url("file:///scheme-relative"))
    );
    assert_eq!(
        base.parse_url_text_with_root_dir("https://a.com/b?q", Some(&root_dir)),
        Ok(url("https://a.com/b?q"))
    );
    assert_eq!(
        base.parse_url_text_with_root_dir("file:///a/", Some(&root_dir)),
        Ok(url("file:///a/"))
    );
    assert_eq!(
        base.parse_url_text_with_root_dir("/a", Some(&root_dir)),
        Ok(url("file:///root/a"))
    );
    assert_eq!(
        base.parse_url_text_with_root_dir("/../../", Some(&root_dir)),
        Ok(url("file:///"))
    );
}

#[test]
fn join_rooted_cases() {
    let cases = [
        ("https://a.com/b", "x/", "d", "https://a.com/x/d"),
        ("https://a.com/b/", "x/", "d", "https://a.com/b/x/d"),
        ("https://a.com/b/", "", "https://new.com", "https://new.com/"),
        ("https://a.com/b/", "", "file:///a", "file:///a"),
        ("file:///a/b/", "", "/x/y", "file:///a/b/x/y"),
        ("file:///a/b/", "", "a/", "file:///a/b/a/"),
        ("file:///a/b/", "a/", "../..", "file:///a/"),
        ("file:///a/b/", "a/", "/", "file:///a/b/"),
        ("file:///a/b/", "", "/..", "file:///a/"),
        ("file:///a/b/", "", "/../../", "file:///"),
        ("https://a.com/x", "", "#", "https://a.com/x#"),
        ("https://a.com/x", "?q", "#x", "https://a.com/x?q#x"),
        ("https://a.com/x", ".", "?a", "https://a.com/?a"),
        ("https://a.com/x?q#anchor", "", "?q", "https://a.com/x?q"),
        ("file:///root/", "", "///new-root", "file:///new-root"),
        ("file:///root/", "", "//a.com/boop", "file://a.com/boop"),
        ("https://root/", "", "//a.com/boop", "https://a.com/boop"),
    ];
    for (origin, path, text, expected) in cases {
        let got = BaseInfo::full(url(origin), path.to_string()).parse_url_text(text).unwrap();
        assert_eq!(got.as_str(), expected, "origin={origin}, path={path:?}, text={text:?}");
    }
}

#[test]
fn base_info_root_relative_without_root_is_refused() {
    let base = BaseInfo::try_from("file:///file-path").unwrap();
    assert!(!base.supports_root_relative());
    assert!(base.supports_locally_relative());
    let err = base.parse_url_text("/a").unwrap_err();
    assert_eq!(err.message(), "Cannot resolve root-relative link '/a'");
}

#[test]
fn base_info_none_cannot_resolve_relative_links() {
    let base = BaseInfo::none();
    assert!(base.is_none());
    assert!(base.parse_url_text("a/b").is_err());
    assert_eq!(
        base.parse_url_text("https://x.org/a").unwrap().as_str(),
        "https://x.org/a"
    );
    assert_eq!(BaseInfo::try_from("").unwrap(), BaseInfo::none());
}

#[test]
fn base_info_prefers_more_information() {
    let full = BaseInfo::full(url("https://a.com/"), String::new());
    let no_root = BaseInfo::NoRoot(url("file:///x/"));
    let none = BaseInfo::none();
    assert_eq!(none.or_fallback(&no_root), &no_root);
    assert_eq!(no_root.or_fallback(&full), &full);
    assert_eq!(full.or_fallback(&no_root), &full);
    assert_eq!(none.or_fallback(&none), &none);
}

#[test]
fn base_info_promotes_no_root() {
    let no_root = BaseInfo::NoRoot(url("file:///x/y/"));
    assert_eq!(
        no_root.use_fs_path_as_origin(),
        BaseInfo::Full(url("file:///x/y/"), String::new())
    );
    assert_eq!(
        no_root.try_use_fs_root_as_origin(),
        Some(BaseInfo::Full(url("file:///"), "x/y/".to_string()))
    );
    assert_eq!(no_root.scheme(), Some("file"));
    assert_eq!(no_root.to_file_path(), Some("/x/y/".to_string()));
}

#[test]
fn base_info_from_path_errors() {
    let err = BaseInfo::from_path("relative/dir").unwrap_err();
    assert_eq!(
        err.message(),
        "Invalid base URL or directory: 'relative/dir'. Base must either be a full URL (with scheme) or an absolute local path"
    );
    let err = BaseInfo::from_base_url(&url("data:text/plain,x")).unwrap_err();
    assert_eq!(
        err.message(),
        "Invalid base URL or directory: 'data:text/plain,x'. The given URL cannot be used as a base URL"
    );
}

#[test]
fn parse_url_or_path_cases() {
    assert_eq!(lychee_lib::parse_url_or_path("tel:1").map(|u| u.as_str().to_string()), Ok("tel:1".to_string()));
    assert_eq!(
        lychee_lib::parse_url_or_path("http://a.com").map(|u| u.as_str().to_string()),
        Ok("http://a.com/".to_string())
    );
    for p in ["", ".", "C:", "/unix", "C:/a", r"C:\a\b", "**/*.md", "something"] {
        assert_eq!(lychee_lib::parse_url_or_path(p).map(|u| u.as_str().to_string()), Err(p));
    }
}

#[test]
fn base_joins_and_from_source() {
    let remote = Base::try_from("https://example.com/path/page.html").unwrap();
    assert_eq!(
        remote.join("relative.html").unwrap().as_str(),
        "https://example.com/path/relative.html"
    );
    let local = Base::Local("/tmp/lychee".to_string());
    assert_eq!(local.join("a.html").unwrap().as_str(), "file:///tmp/lychee/a.html");
    let source = lychee_lib::ResolvedInputSource::RemoteUrl(url("https://example.com:1234/foo/bar?q=1#x"));
    assert_eq!(
        Base::from_source(&source),
        Some(Base::Remote(url("https://example.com:1234")))
    );
    assert_eq!(Base::from_source(&lychee_lib::ResolvedInputSource::Stdin), None);
}

#[test]
fn test_valid_local() {
    Base::try_from("/tmp").unwrap();
}

#[test]
fn test_get_base_from_url() {
    for (u, expected) in [
        ("https://example.com", "https://example.com"),
        ("https://example.com?query=something", "https://example.com"),
        ("https://example.com/#anchor", "https://example.com"),
        ("https://example.com/foo/bar", "https://example.com"),
        ("https://example.com:1234/foo/bar", "https://example.com:1234"),
    ] {
        let source = ResolvedInputSource::RemoteUrl(url(u));
        let base = Base::from_source(&source);
        assert_eq!(base, Some(Base::Remote(url(expected))));
    }
}

#[test]
fn base_of_source_url_gives_the_url_back() {
    for text in ["https://a.com/b/?q#x", "https://a.com", "http://a.com:8080/x/y.html?z=1", "file:///a.com/b/?q#x"] {
        let source = url(text);
        let base = BaseInfo::from_source_url(&source);
        assert_eq!(base.url().map(|u| u.as_str().to_string()), Some(source.as_str().to_string()));
    }
}
