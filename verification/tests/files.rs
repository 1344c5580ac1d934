use lychee_lib::{is_url, valid_extension, FileExtensions, FileType};

#[test]
fn test_extension() {
    assert_eq!(FileType::from_path("foo.md"), FileType::Markdown);
    assert_eq!(FileType::from_path("foo.MD"), FileType::Markdown);
    assert_eq!(FileType::from_path("foo.mdx"), FileType::Markdown);

    assert_eq!(FileType::from_path("README"), FileType::Plaintext);
    assert_eq!(FileType::from_path("test"), FileType::Plaintext);

    assert_eq!(FileType::from_path("test.unknown"), FileType::Plaintext);
    assert_eq!(FileType::from_path("test.txt"), FileType::Plaintext);
    assert_eq!(FileType::from_path("README.TXT"), FileType::Plaintext);

    assert_eq!(FileType::from_path("test.htm"), FileType::Html);
    assert_eq!(FileType::from_path("index.html"), FileType::Html);
    assert_eq!(FileType::from_path("http://foo.com/index.html"), FileType::Html);
}

#[test]
fn test_default_extensions() {
    let extensions = FileType::default_extensions();
    assert!(extensions.contains("md"));
    assert!(extensions.contains("html"));
    assert!(extensions.contains("markdown"));
    assert!(extensions.contains("htm"));
    let all_extensions: Vec<String> = extensions.into_vec();
    assert_eq!(
        all_extensions.len(),
        FileType::markdown_extensions().into_vec().len()
            + FileType::html_extensions().into_vec().len()
            + FileType::plaintext_extensions().into_vec().len()
    );
    assert_eq!(all_extensions.len(), 11);
}

#[test]
fn test_is_url() {
    assert!(is_url("http://foo.com"));
    assert!(is_url("https://foo.com"));
    assert!(is_url("http://www.foo.com"));
    assert!(is_url("https://www.foo.com"));
    assert!(is_url("http://foo.com/bar"));
    assert!(is_url("https://foo.com/bar"));
    assert!(is_url("http://foo.com:8080"));
    assert!(is_url("https://foo.com:8080"));
    assert!(is_url("http://foo.com/bar?q=hello"));
    assert!(is_url("https://foo.com/bar?q=hello"));

    assert!(!is_url("foo.com"));
    assert!(!is_url("www.foo.com"));
    assert!(!is_url("foo"));
    assert!(!is_url("foo/bar"));
    assert!(!is_url("foo/bar/baz"));
    assert!(!is_url("file:///foo/bar.txt"));
    assert!(!is_url("ftp://foo.com"));
}

#[test]
fn test_from_extension() {
    assert_eq!(FileType::from_extension("html"), Some(FileType::Html));
    assert_eq!(FileType::from_extension("HTML"), Some(FileType::Html));
    assert_eq!(FileType::from_extension("htm"), Some(FileType::Html));
    assert_eq!(FileType::from_extension("markdown"), Some(FileType::Markdown));
    assert_eq!(FileType::from_extension("md"), Some(FileType::Markdown));
    assert_eq!(FileType::from_extension("MD"), Some(FileType::Markdown));
    assert_eq!(FileType::from_extension("txt"), Some(FileType::Plaintext));
    assert_eq!(FileType::from_extension("TXT"), Some(FileType::Plaintext));

    assert_eq!(FileType::from_extension("unknown"), None);
    assert_eq!(FileType::from_extension("xyz"), None);
}

#[test]
fn test_valid_extension() {
    assert!(valid_extension("file.md"));
    assert!(valid_extension("file.markdown"));
    assert!(valid_extension("file.html"));
    assert!(valid_extension("file.htm"));
    assert!(valid_extension("file.HTM"));
    assert!(!valid_extension("file.txt"));
    assert!(!valid_extension("file"));
}

#[test]
fn file_extensions_list_operations() {
    let mut exts = FileExtensions::empty();
    assert!(!exts.contains("md"));
    exts.extend(vec!["md".to_string(), "rst".to_string()]);
    assert!(exts.contains("rst"));
    assert_eq!(exts.to_string(), "md,rst");
    assert_eq!(exts.next(), Some("rst".to_string()));
    assert_eq!(exts.next(), Some("md".to_string()));
    assert_eq!(exts.next(), None);
    let parsed = FileExtensions::from_str("a,b,,c");
    assert_eq!(parsed.into_vec(), vec!["a", "b", "", "c"]);
    assert_eq!(FileExtensions::from_file_type(FileType::Html).to_string(), "htm,html");
    assert_eq!(FileExtensions::default().to_string(), "markdown,mkdown,mkdn,mdwn,mdown,mdx,mkd,md,htm,html,txt");
    assert_eq!(FileType::default(), FileType::Plaintext);
}
