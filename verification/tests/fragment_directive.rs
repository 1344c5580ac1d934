use lychee_lib::fragment_directive::{FragmentDirective, TextDirective};
use lychee_lib::{Status, TextFragmentStatus, Uri};

const TEST_FRAGMENT: &str = ":~:text=prefix-,start,end,-suffix&text=start,-suffix%2Dwith%2Ddashes&unknown_directive&text=prefix%2Donly-";

const MULTILINE_INPUT: &str = "Is there a way to deal with repeated instances of this split in a block of text? FOr instance: \"This is just\na simple sentence. Here is some additional stuff. This is just\na simple sentence. And here is some more stuff. This is just\na simple sentence. \". Currently it matches the entire string, rather than and therefore each instance. prefix   \n    \n    start (immediately after the prefix and this) is start the statement and continue till the end. the suffix shall come into effect as well.there is going to be a test for starting is mapped or not.\n    \n    actual end is this new line.\n    \n    type\n    Hints at the linked URL's format with a MIME type. No built-in functionality.\n\n    ";

fn directive(fragment: &str) -> TextDirective {
    TextDirective::from_fragment_as_str(fragment).unwrap()
}

#[test]
fn test_fragment_directive_as_url() {
    let url = Uri::try_from(format!("https://example.com/#test{TEST_FRAGMENT}").as_str()).unwrap().url;
    let fd = FragmentDirective::from_url(&url).unwrap();
    assert_eq!(fd.text_directives.len(), 2);
}

#[test]
fn text_directives_are_read_with_all_terms() {
    let d = directive("text=prefix-,start,end,-suffix");
    assert_eq!(
        (d.prefix.as_str(), d.start.as_str(), d.end.as_str(), d.suffix.as_str()),
        ("prefix", "start", "end", "suffix")
    );
    assert_eq!(d.raw_directive, "text=prefix-,start,end,-suffix");
    let d = directive("text=start,-suffix%2Dwith%2Ddashes");
    assert_eq!(d.start, "start");
    assert_eq!(d.suffix, "suffix-with-dashes");
    assert_eq!(d.prefix, "");
    assert_eq!(directive("text=caf%C3%A9").start, "caf\\u{e9}");
}

#[test]
fn unreadable_text_directives() {
    assert_eq!(
        TextDirective::from_fragment_as_str("unknown_directive"),
        Err(TextFragmentStatus::NotTextDirective)
    );
    assert_eq!(
        TextDirective::from_fragment_as_str("text=prefix%2Donly-"),
        Err(TextFragmentStatus::StartDirectiveMissingError)
    );
    assert_eq!(
        TextDirective::from_fragment_as_str("text=%FF"),
        Err(TextFragmentStatus::PercentDecodeError("%FF".to_string()))
    );
}

#[test]
fn fragment_directives_keep_readable_text_directives() {
    let fd = FragmentDirective::from_fragment_as_str(TEST_FRAGMENT).unwrap();
    let starts: Vec<&str> = fd.text_directives.iter().map(|d| d.start.as_str()).collect();
    assert_eq!(starts, vec!["start", "start"]);
    assert!(FragmentDirective::from_fragment_as_str("text=start").is_none());
    assert!(FragmentDirective::extract_text_directives("nothing").is_none());
}

#[test]
fn text_directives_are_checked_against_text() {
    assert_eq!(directive("text=repeated").check(MULTILINE_INPUT), Ok(Status::Success(200)));
    assert_eq!(directive("text=with-,repeated").check(MULTILINE_INPUT), Ok(Status::Success(200)));
    assert_eq!(
        directive("text=with-,repeated,-instance").check(MULTILINE_INPUT),
        Ok(Status::Success(200))
    );
    assert_eq!(
        directive("text=nowhere").check(MULTILINE_INPUT),
        Err(TextFragmentStatus::RegexNoCaptureError("text=nowhere".to_string()))
    );
    assert_eq!(
        directive("text=repeated,split,-block").check(MULTILINE_INPUT),
        Err(TextFragmentStatus::TextDirectiveRangeError("split".to_string(), "a".to_string()))
    );
}

#[test]
fn text_fragment_status_messages() {
    assert_eq!(TextFragmentStatus::NotTextDirective.to_string(), "Not a Text Directive");
    assert_eq!(
        TextFragmentStatus::TextDirectiveRangeError("a".to_string(), "b".to_string()).to_string(),
        "Suffix match error - expected a but matched b"
    );
    assert_eq!(
        TextFragmentStatus::TextDirectiveNotFound("x".to_string()).to_string(),
        "Text directive x not found"
    );
}

/// Checks each text directive of a fragment against the input; as in the
/// checks of a whole fragment directive, a found directive answers 200.
fn check_fragment_directive(fragment: &str) {
    if let Some(fd) = FragmentDirective::from_fragment_as_str(fragment) {
        for d in &fd.text_directives {
            if let Ok(status) = d.check(MULTILINE_INPUT) {
                assert_eq!(status, Status::Success(200));
            }
        }
    }
}

#[test]
fn test_fragment_directive_start_only() {
    check_fragment_directive(":~:text=repeated");
}

#[test]
fn test_fragment_directive_start_end() {
    check_fragment_directive(":~:text=repeated, block");
}

#[test]
fn test_fragment_directive_prefix_start() {
    check_fragment_directive(":~:text=with-,repeated");
}

#[test]
fn test_fragment_directive_start_suffix() {
    check_fragment_directive(":~:text=linked%20URL,-'s%20format");
}

#[test]
fn test_fragment_directive_prefix_start_suffix() {
    check_fragment_directive(":~:text=with-,repeated,-instance");
}

#[test]
fn test_fragment_directive_prefix_start_suffix_end() {
    check_fragment_directive(":~:text=with-,repeated, For, -instance");
}
