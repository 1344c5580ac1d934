use lychee_lib::fragment_checker;
use lychee_lib::parsed_fragment::{ParsedFragment, TextDirective};
use lychee_lib::text_fragments::{
    check_text_fragments, extract_visible_text, is_hidden_tag, normalize_whitespace,
};
use lychee_lib::{FileType, Uri};

fn url(s: &str) -> lychee_lib::AbsoluteUrl {
    Uri::try_from(s).unwrap().url
}

#[test]
fn mod_parses_pure_text_fragment_directive() {
    let url = url("https://example.com/#:~:unknown&text=needle");
    let parsed = fragment_checker::ParsedFragment::parse(&url);
    assert_eq!(
        parsed,
        fragment_checker::ParsedFragment {
            element_id: None,
            encoded_text_directive_value: Some("needle".to_string()),
        }
    );
}

#[test]
fn mod_parses_element_fragment_before_text_directive() {
    let url = url("https://example.com/#section:~:text=needle&unknown");
    let parsed = fragment_checker::ParsedFragment::parse(&url);
    assert_eq!(
        parsed,
        fragment_checker::ParsedFragment {
            element_id: Some("section"),
            encoded_text_directive_value: Some("needle".to_string()),
        }
    );
}

#[test]
fn mod_parses_plain_element_fragment() {
    let url = url("https://example.com/#section");
    let parsed = fragment_checker::ParsedFragment::parse(&url);
    assert_eq!(
        parsed,
        fragment_checker::ParsedFragment {
            element_id: Some("section"),
            encoded_text_directive_value: None,
        }
    );
}

#[test]
fn parses_text_directive_with_encoded_values() {
    let url = url("https://en.wikipedia.org/wiki/End_user#:~:unknown&text=The%20concept%20of-,end%2Duser,-first%20surfaced%20in&unknown&text=ignored-in-lychee");
    let parsed = fragment_checker::ParsedFragment::parse(&url);
    assert_eq!(
        parsed,
        fragment_checker::ParsedFragment {
            element_id: None,
            encoded_text_directive_value: Some(
                "The%20concept%20of-,end%2Duser,-first%20surfaced%20in".to_string()
            ),
        }
    );
}

#[test]
fn parsed_fragment_parses_pure_text_fragment_directive() {
    let url = url("https://example.com/#:~:unknown&text=needle");
    let parsed = ParsedFragment::parse(&url);
    assert_eq!(
        parsed,
        ParsedFragment {
            element_id: None,
            text_directives: vec![TextDirective {
                prefix: None,
                start: "needle".to_string(),
                end: None,
                suffix: None,
            }],
        }
    );
}

#[test]
fn parsed_fragment_parses_element_fragment_before_text_directive() {
    let url = url("https://example.com/#section:~:text=needle&unknown");
    let parsed = ParsedFragment::parse(&url);
    assert_eq!(
        parsed,
        ParsedFragment {
            element_id: Some("section"),
            text_directives: vec![TextDirective {
                prefix: None,
                start: "needle".to_string(),
                end: None,
                suffix: None,
            }],
        }
    );
}

#[test]
fn parsed_fragment_parses_plain_element_fragment() {
    let url = url("https://example.com/#section");
    let parsed = ParsedFragment::parse(&url);
    assert_eq!(
        parsed,
        ParsedFragment { element_id: Some("section"), text_directives: Vec::new() }
    );
}

#[test]
fn parses_all_text_directives_with_encoded_values() {
    let url = url("https://en.wikipedia.org/wiki/End_user#:~:unknown&text=The%20concept%20of-,end%2Duser,-first%20surfaced%20in&unknown&text=second%20text%20directive");
    let parsed = ParsedFragment::parse(&url);
    assert_eq!(
        parsed,
        ParsedFragment {
            element_id: None,
            text_directives: vec![
                TextDirective {
                    prefix: Some("The concept of".to_string()),
                    start: "end-user".to_string(),
                    end: None,
                    suffix: Some("first surfaced in".to_string()),
                },
                TextDirective {
                    prefix: None,
                    start: "second text directive".to_string(),
                    end: None,
                    suffix: None,
                }
            ],
        }
    );
}

#[test]
fn parses_text_directive_with_prefix_and_suffix() {
    let url = url("https://example.com/#:~:text=consectetur%20adipiscing%20elit.-,Sed%20porta,-nisl%20sit%20amet");
    let parsed = ParsedFragment::parse(&url);
    assert_eq!(
        parsed.text_directives,
        vec![TextDirective {
            prefix: Some("consectetur adipiscing elit.".into()),
            start: "Sed porta".into(),
            end: None,
            suffix: Some("nisl sit amet".into()),
        }]
    );
}

#[test]
fn parses_text_directive_with_empty_values() {
    let url = url("https://example.com/#:~:text=");
    let parsed = ParsedFragment::parse(&url);
    assert_eq!(parsed.text_directives, vec![]);
}

#[test]
fn parses_text_directive_with_encoded_utf8() {
    const NBSP: &str = "\u{a0}";
    const NBSP_ENCODED: &str = "%C2%A0";
    let url = url(&format!("http://127.0.0.1:8000/a.html#:~:text=b{NBSP_ENCODED}cd"));
    let parsed = ParsedFragment::parse(&url);
    assert_eq!(
        parsed.text_directives,
        vec![TextDirective { prefix: None, start: format!("b{NBSP}cd"), end: None, suffix: None }]
    );
}

#[test]
fn strip_prefix_and_suffix_cases() {
    let mut parts: Vec<String> = vec!["prefix-".into(), "start".into(), "-suffix".into()];
    assert_eq!(TextDirective::strip_prefix(&mut parts), Some("prefix".to_string()));
    assert_eq!(parts, vec!["start".to_string(), "-suffix".to_string()]);
    assert_eq!(TextDirective::strip_suffix(&mut parts), Some("suffix".to_string()));
    assert_eq!(parts, vec!["start".to_string()]);
    let mut short: Vec<String> = vec!["prefix-".into()];
    assert_eq!(TextDirective::strip_prefix(&mut short), None);
    assert_eq!(short, vec!["prefix-".to_string()]);
    let mut bad: Vec<String> = vec!["start".into(), "end".into(), "suffix-".into()];
    assert_eq!(TextDirective::strip_suffix(&mut bad), None);
    assert_eq!(TextDirective::parse("a,b,c"), None);
    assert_eq!(TextDirective::parse(""), None);
    assert_eq!(
        TextDirective::parse("a,b"),
        Some(TextDirective { prefix: None, start: "a".into(), end: Some("b".into()), suffix: None })
    );
}

#[test]
fn check_text_fragments_alternative_whitespaces() {
    let url1 = url("http://127.0.0.1:8000/a.html#:~:text=b%C2%A0cd");
    let parsed = ParsedFragment::parse(&url1);
    assert!(
        check_text_fragments(&parsed.text_directives, "b\u{00a0}cd", FileType::Html),
        "percent encoded nbsp in fragment should be decoded"
    );
    let url2 = url("http://127.0.0.1:8000/a.html#:~:text=b%20cd");
    let parsed = ParsedFragment::parse(&url2);
    assert!(
        check_text_fragments(&parsed.text_directives, "b\u{00a0}cd", FileType::Html),
        "%20 space in fragment should match any space in the text"
    );
}

#[test]
fn check_text_fragments_prefix_and_suffix() {
    let url = url("https://en.wikipedia.org/wiki/Most_common_words_in_English#:~:text=in-,the,the,-texts");
    let parsed = ParsedFragment::parse(&url);
    let html = "<p>written      in     the English language.</p>\n\n<p>In total, the      texts</p>";
    assert!(
        check_text_fragments(&parsed.text_directives, html, FileType::Html),
        "whitespace should be skipped between the match and prefix/suffix"
    );
    let html = "<p>in</p><p>the English language.</p>\n<p>In total, the</p><p>texts</p>";
    assert!(
        check_text_fragments(&parsed.text_directives, html, FileType::Html),
        "prefix/suffix should match across block tags"
    );
}

#[test]
fn check_text_fragments_multiple_occurrences() {
    let url = url("https://en.wikipedia.org/wiki/#:~:text=prefix-,start,end,-suffix");
    let parsed = ParsedFragment::parse(&url);
    let html = "start [ prefix start end suffix ]";
    assert!(check_text_fragments(&parsed.text_directives, html, FileType::Html));
    let html = "[ prefix start end end suffix ]";
    assert!(check_text_fragments(&parsed.text_directives, html, FileType::Html));
    let html = "start [ prefix start end end suffix ]";
    assert!(check_text_fragments(&parsed.text_directives, html, FileType::Html));
}

#[test]
fn visible_text_extraction() {
    assert!(!extract_visible_text("<STYLE> inside </STYLE>").contains("inside"));
    assert!(!extract_visible_text("<STYLE> inside </style>").contains("inside"));
    assert!(extract_visible_text("<STYLE> inside </style> after").contains("after"));
    assert!(extract_visible_text("a<span>b</span>").contains("ab"));
    assert!(extract_visible_text("a\n\t           b").contains("a b"));
    assert!(extract_visible_text("a&nbsp;b").contains("a b"));
    assert!(extract_visible_text("a\u{00A0}b").contains("a b"));
    assert_eq!(normalize_whitespace("  a \n\t b  "), "a b");
    assert!(is_hidden_tag("script"));
    assert!(!is_hidden_tag("p"));
}

#[test]
fn text_fragments_outside_html_always_pass() {
    let url = url("https://x.org/#:~:text=absent");
    let parsed = ParsedFragment::parse(&url);
    assert!(check_text_fragments(&parsed.text_directives, "nothing here", FileType::Markdown));
    assert!(!check_text_fragments(&parsed.text_directives, "nothing here", FileType::Html));
    assert!(check_text_fragments(&Vec::new(), "nothing", FileType::Html));
}

#[test]
fn anchor_fragments() {
    let page = url("https://example.com/page#intro");
    let frags = vec!["intro".to_string(), "user-content-x".to_string()];
    let opts = fragment_checker::FragmentCheckerOptions {
        check_anchor_fragments: true,
        check_text_fragments: true,
    };
    assert_eq!(fragment_checker::check("<p>x</p>", FileType::Html, &page, opts, &frags), Ok(true));
    let missing = url("https://example.com/page#nope");
    assert_eq!(fragment_checker::check("", FileType::Html, &missing, opts, &frags), Ok(false));
    let top = url("https://example.com/page#TOP");
    assert_eq!(fragment_checker::check("", FileType::Html, &top, opts, &frags), Ok(true));
    let gh = url("https://github.com/o/r#x");
    assert_eq!(fragment_checker::check("", FileType::Html, &gh, opts, &frags), Ok(true));
    let md = url("https://example.com/doc#Intro");
    assert_eq!(fragment_checker::check("", FileType::Markdown, &md, opts, &frags), Ok(true));
    assert_eq!(
        fragment_checker::remove_fragment(url("https://example.com/a#b")),
        "https://example.com/a"
    );
    assert_eq!(
        fragment_checker::with_element_fragment(&url("https://example.com/a#b"), Some("c")).as_str(),
        "https://example.com/a#c"
    );
}

#[test]
fn extract_visible_text_capital_tags() {
    assert!(!extract_visible_text("<STYLE> inside </STYLE>").contains("inside"));
    assert!(!extract_visible_text("<STYLE> inside </style>").contains("inside"));
    assert!(extract_visible_text("<STYLE> inside </style> after").contains("after"));
    assert!(extract_visible_text("<style> inside </STYLE> after").contains("after"));
}

#[test]
fn extract_visible_text_whitespace_implied_by_adjacent_tags() {
    assert!(
        extract_visible_text("a<span>b</span>").contains("ab"),
        "span is an inline tag, so should /not/ create whitespace"
    );
}

#[test]
fn extract_visible_text_alternative_whitespaces() {
    assert!(extract_visible_text("a\n\t           b").contains("a b"), "all spaces should be collapsed");
    assert!(
        extract_visible_text("a&nbsp;b").contains("a b"),
        "encoded &nbsp; space should be interpreted as space"
    );
    assert!(
        extract_visible_text("a\u{00A0}b").contains("a b"),
        "inline nbsp should also be interpreted as space"
    );
}
