use lychee_lib::{span, span_line, OffsetSpanProvider, RawUriSpan, SourceSpanProvider};
use lychee_lib::{
    default_accepted_status_codes, error_from_output, AntiBotSoftware, Base, ErrorKind,
    ExcludeReason, Hint, Hints, MailCheckOutput, Reachable,
    MarkdownFlavor, Preprocessor, Redirect, RedirectHistory, Redirects, RemapHistory, Remapping,
    RootDir, Sitemap, SitemapEntity, StatusCodeSelector, Uri, WikilinkChecker, WindowsPath,
};

#[test]
fn selector_test_default_accepted_values() {
    let _ = default_accepted_status_codes();
}

#[test]
fn status_code_selector_test_default_accepted_values() {
    let codes = default_accepted_status_codes();
    assert_eq!(codes.len(), 104);
    assert_eq!(codes[0].as_u16(), 100);
    assert_eq!(codes[3].as_u16(), 103);
    assert_eq!(codes[4].as_u16(), 200);
    assert_eq!(codes[103].status_code(), http::StatusCode::from_u16(299).unwrap());
    let selector = StatusCodeSelector::default_accepted();
    assert!(selector.contains(200));
    assert!(!selector.contains(404));
}

#[test]
fn test_windows_absolute_path_detection() {
    assert!(WindowsPath::try_from("C:\\").is_ok());
    assert!(WindowsPath::try_from("C:\\folder").is_ok());
    assert!(WindowsPath::try_from("D:\\folder\\file.txt").is_ok());
    assert!(WindowsPath::try_from("Z:/folder/file.txt").is_ok());

    assert!(WindowsPath::try_from("C:").is_err());
    assert!(WindowsPath::try_from("c:\\").is_err());
    assert!(WindowsPath::try_from("CC:\\").is_err());
    assert!(WindowsPath::try_from("C-\\").is_err());
    assert!(WindowsPath::try_from("C:file").is_err());
    assert!(WindowsPath::try_from("https://example.com").is_err());
    assert!(WindowsPath::try_from("./relative").is_err());
    assert_eq!(WindowsPath::try_from("Z:/a").unwrap().as_path(), "Z:/a");
    assert_eq!(
        WindowsPath::try_from("x").unwrap_err(),
        "'x' is not a Windows absolute path"
    );
}

#[test]
fn hints_are_sorted() {
    let mut hints = Hints::new();
    hints.add_hint(Hint::from_str("b"));
    hints.add_hint(Hint::from_str("a"));
    hints.add_hint(Hint::from_str("ab"));
    hints.add_hint(Hint::from_str("a"));
    let got: Vec<String> = hints.get_hints().iter().map(|h| h.to_string()).collect();
    assert_eq!(got, vec!["a", "a", "ab", "b"]);
}

#[test]
fn exclude_reasons_and_flavors() {
    assert_eq!(
        ExcludeReason::Pattern("x".to_string()).to_string(),
        "Excluded by pattern: `x`"
    );
    assert_eq!(ExcludeReason::RequestChain.to_string(), "Excluded by request chain");
    assert_eq!(MarkdownFlavor::from_str("CommonMark"), Some(MarkdownFlavor::CommonMark));
    assert_eq!(MarkdownFlavor::from_str("MEDIAWIKI"), Some(MarkdownFlavor::MediaWiki));
    assert_eq!(MarkdownFlavor::from_str("gfm"), None);
    assert_eq!(MarkdownFlavor::default().to_string(), "commonmark");
}

#[test]
fn anti_bot_detection() {
    let uri = Uri::try_from("https://www.winehq.org/x").unwrap();
    let headers = vec![("server".to_string(), Some("cloudflare".to_string()))];
    assert_eq!(lychee_lib::detect_software(403, &headers), Some(AntiBotSoftware::Cloudflare));
    assert_eq!(lychee_lib::detect_software(200, &headers), None);
    let hint = lychee_lib::hint_bot_detection(&uri, 403, &headers).unwrap();
    assert_eq!(
        hint.to_string(),
        "Detected Cloudflare anti-bot protection on website www.winehq.org"
    );
    let refresh = vec![("refresh".to_string(), Some("0; url=/.within.website/x/anubis/api/pass-challenge".to_string()))];
    assert_eq!(lychee_lib::detect_software(200, &refresh), Some(AntiBotSoftware::Anubis));
}

#[test]
fn remap_history_records_originals() {
    let original = Uri::try_from("https://old.org/a").unwrap().url;
    let new = Uri::try_from("https://new.org/a").unwrap().url;
    let mut history = RemapHistory::new();
    assert!(history.get(&new).is_none());
    history.record_remap(Remapping { original: original.clone(), new: new.clone() });
    assert_eq!(history.get(&new), Some(original.clone()));
    let m = history.handle_remapped(&new).unwrap();
    assert_eq!(m.to_string(), "https://old.org/a --> https://new.org/a");
}

#[test]
fn preprocessor_outcomes() {
    let p = Preprocessor::from("cat".to_string());
    assert_eq!(p.process_output(true, b"out".to_vec(), Vec::new()), Ok("out".to_string()));
    let err = p.process_output(false, Vec::new(), Vec::new()).unwrap_err();
    assert_eq!(err.message(), "Preprocessor command 'cat' failed: exited with non-zero code: <empty stderr>");
    let err = p.process_output(true, vec![0xff], Vec::new()).unwrap_err();
    assert_eq!(err, lychee_lib::ErrorKind::Utf8("cat".to_string()));
    assert_eq!(RootDir::new("docs", "/srv").as_path(), "/srv/docs");
    assert_eq!(RootDir::new("/abs", "/srv").as_path(), "/abs");
}

#[test]
fn spans_of_offsets() {
    let input = "ab\nc\u{e9}d\n\nx";
    let provider = SourceSpanProvider::from_input(input);
    assert_eq!(provider.span(0), span(1, 1));
    assert_eq!(provider.span(1), span(1, 2));
    assert_eq!(provider.span(3), span(2, 1));
    // after the two-byte character: one character past it
    assert_eq!(provider.span(6), span(2, 3));
    // inside the two-byte character: counted to the end of the document
    assert_eq!(provider.span(5), RawUriSpan { line: 2, column: Some(7) });
    assert_eq!(provider.span(8), span(3, 1));
    assert_eq!(provider.span(9), span(4, 1));
    let offset = OffsetSpanProvider { offset: 3, inner: &provider };
    assert_eq!(offset.span(0), span(2, 1));
    assert_eq!(span_line(2), RawUriSpan { line: 2, column: None });
}

#[test]
fn redirects_are_recorded_per_first_url() {
    let url = |s: &str| Uri::try_from(s).unwrap().url;
    let mut history = RedirectHistory::new();
    history.record_redirects(&vec![], &url("https://b.org/"), 301);
    assert!(history.get_resolved(&url("https://b.org/")).is_none());
    history.record_redirects(&vec![url("https://a.org/")], &url("https://b.org/"), 301);
    history.record_redirects(&vec![url("https://a.org/"), url("https://b.org/")], &url("https://c.org/"), 308);
    let chain = history.get_resolved(&url("https://a.org/")).unwrap();
    assert_eq!(chain.count(), 2);
    assert_eq!(
        chain.to_string(),
        "https://a.org/ --[301]--> https://b.org/ --[308]--> https://c.org/"
    );
    assert!(history.get_resolved(&url("https://b.org/")).is_none());
    let mut single = Redirects::new(url("https://x.org/"));
    assert_eq!(single.to_string(), "https://x.org/");
    single.push(Redirect { url: url("https://y.org/"), code: 302 });
    assert_eq!(single.count(), 1);
    assert_eq!(single.copy(), single);
}

#[test]
fn wikilink_index_lookups() {
    assert!(WikilinkChecker::new(None).is_none());
    let remote = WikilinkChecker::new(Some(Base::try_from("https://a.org").unwrap())).unwrap();
    assert_eq!(
        remote.index_target(),
        Err(ErrorKind::WikilinkCheckerInit(
            "Remote Base Directory found, only local directories are allowed".to_string()
        ))
    );
    let mut checker = WikilinkChecker::new(Some(Base::Local("/notes".to_string()))).unwrap();
    assert_eq!(checker.index_target(), Ok(Some("/notes".to_string())));
    checker.add_files(vec![
        "/notes".to_string(),
        "/notes/Alpha.md".to_string(),
        "/notes/sub/alpha.md".to_string(),
        "/notes/Beta.MD".to_string(),
    ]);
    assert_eq!(checker.index_target(), Ok(None));
    assert_eq!(checker.contains_path("ALPHA.md"), Some("/notes/sub/alpha.md".to_string()));
    assert_eq!(checker.contains_path("x/beta.md"), Some("/notes/Beta.MD".to_string()));
    assert_eq!(checker.contains_path("gamma.md"), None);
    assert_eq!(checker.contains_path("/"), None);
    assert_eq!(checker.contains_path("notes"), Some("/notes".to_string()));
}

#[test]
fn mail_check_outcomes_are_explained() {
    let base = MailCheckOutput { misc_failed: false, smtp_error: None, mx_error: None, is_reachable: Reachable::Safe };
    assert_eq!(error_from_output(&base), "Safe: The email is safe to send");
    let invalid = MailCheckOutput { is_reachable: Reachable::Invalid, ..base.clone() };
    assert_eq!(error_from_output(&invalid), "Invalid: Email doesn't exist or is syntactically incorrect");
    let mx = MailCheckOutput { mx_error: Some("NoMx".to_string()), ..base.clone() };
    assert_eq!(error_from_output(&mx), "NoMx");
    let smtp = MailCheckOutput { smtp_error: Some("Timeout".to_string()), ..mx.clone() };
    assert_eq!(error_from_output(&smtp), "Timeout");
    let misc = MailCheckOutput { misc_failed: true, ..smtp };
    assert_eq!(error_from_output(&misc), "Error occurred connecting to this email server via SMTP");
}

#[test]
fn sitemap_pages_are_listed() {
    let url = |s: &str| Uri::try_from(s).unwrap().url;
    let entities = vec![
        SitemapEntity::Url(Some(url("https://a.org/1"))),
        SitemapEntity::SiteMap(Some(url("https://a.org/nested.xml"))),
        SitemapEntity::Unreadable,
        SitemapEntity::Url(None),
        SitemapEntity::Url(Some(url("https://a.org/2"))),
    ];
    let urls: Vec<String> = Sitemap::urls(entities).iter().map(|u| u.as_str().to_string()).collect();
    assert_eq!(urls, vec!["https://a.org/1", "https://a.org/2"]);
}

#[test]
fn root_directories_from_inputs() {
    let dir = lychee_lib::Input::from_value("docs", true).unwrap();
    assert_eq!(RootDir::from_input(&dir, true, "/w").unwrap().as_path(), "/w/docs");
    assert_eq!(RootDir::from_input(&dir, false, "/w"), Err(ErrorKind::InvalidRootDir("docs".to_string())));
    let stdin = lychee_lib::Input::from_value("-", false).unwrap();
    assert_eq!(
        RootDir::from_input(&stdin, true, "/w"),
        Err(ErrorKind::InvalidRootDir("Root directory must be a local path".to_string()))
    );
}

#[test]
fn status_codes_keep_their_numbers() {
    let codes = lychee_lib::status_codes_of(&vec![404, 200, 999]).unwrap();
    let numbers: Vec<u16> = codes.iter().map(|c| c.as_u16()).collect();
    assert_eq!(numbers, vec![404, 200, 999]);
    assert_eq!(codes[0].status_code(), http::StatusCode::NOT_FOUND);
    assert!(lychee_lib::status_codes_of(&vec![200, 99]).is_err());
}
