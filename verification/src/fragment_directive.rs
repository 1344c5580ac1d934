//! Fragment directives, read with regular expressions.
//!
//! A fragment directive is the part of a URL fragment after the delimiter
//! `:~:`. It holds directives separated by `&`; the only kind the
//! specification defines is the text directive,
//! `text=[prefix-,]start[,end][,-suffix]`, of which `start` is mandatory.
//! See <https://wicg.github.io/scroll-to-text-fragment/#syntax>.
use vstd::prelude::*;

use crate::address::{opt_string, AbsoluteUrl};
use crate::files::{lowercase, to_lowercase};
use crate::request_builder::{percent_decode_utf8, percent_decoded};
use crate::status::Status;
use crate::text::{
    append_str, chars_of, contains, find, find_chars, split, split_chars, str_contains, str_eq, string_of,
    string_views, views,
};

verus! {

/// Why a text directive could not be read or found.
#[derive(Debug, Clone, PartialEq, Eq)]
pub enum TextFragmentStatus {
    /// The fragment directive delimiter `:~:` is missing.
    FragmentDirectiveDelimiterMissing,
    /// The directive is not a text directive.
    NotTextDirective,
    /// The regular expression captured nothing; the directive, or the
    /// error of the regular expression.
    RegexNoCaptureError(String),
    /// The mandatory `start` of the directive is missing.
    StartDirectiveMissingError,
    /// A term of the directive is not UTF-8 once percent-decoded; the term.
    PercentDecodeError(String),
    /// The text directive was not found.
    TextDirectiveNotFound(String),
    /// The text found does not end with the `end` of the directive: the
    /// expected and the found last word.
    TextDirectiveRangeError(String, String),
    /// Only a part of the text directive was found.
    TextDirectivePartialMatchFoundError,
    /// The block element holding the text is not visible.
    TextDirectiveBlockElementHidden,
}

/// The message of a [`TextFragmentStatus`].
pub open spec fn text_fragment_status_message(s: TextFragmentStatus) -> Seq<char> {
    match s {
        TextFragmentStatus::FragmentDirectiveDelimiterMissing => "Fragment Directive delimiter missing"@,
        TextFragmentStatus::NotTextDirective => "Not a Text Directive"@,
        TextFragmentStatus::RegexNoCaptureError(d) => "Regex no capture error for directive: "@ + d@,
        TextFragmentStatus::StartDirectiveMissingError => "Start directive is missing error"@,
        TextFragmentStatus::PercentDecodeError(_) => "Percent decode error"@,
        TextFragmentStatus::TextDirectiveNotFound(d) => "Text directive "@ + d@ + " not found"@,
        TextFragmentStatus::TextDirectiveRangeError(e, m) => "Suffix match error - expected "@ + e@
            + " but matched "@ + m@,
        TextFragmentStatus::TextDirectivePartialMatchFoundError => "Partial text directive match found!"@,
        TextFragmentStatus::TextDirectiveBlockElementHidden => "Block element is not visible"@,
    }
}

impl TextFragmentStatus {
    /// The message describing this status.
    pub fn to_string(&self) -> (r: String)
        ensures
            r@ == text_fragment_status_message(*self),
    {
        let mut out: Vec<char> = Vec::new();
        match self {
            TextFragmentStatus::FragmentDirectiveDelimiterMissing => append_str(
                &mut out,
                "Fragment Directive delimiter missing",
            ),
            TextFragmentStatus::NotTextDirective => append_str(&mut out, "Not a Text Directive"),
            TextFragmentStatus::RegexNoCaptureError(d) => {
                append_str(&mut out, "Regex no capture error for directive: ");
                append_str(&mut out, d.as_str());
            },
            TextFragmentStatus::StartDirectiveMissingError => append_str(
                &mut out,
                "Start directive is missing error",
            ),
            TextFragmentStatus::PercentDecodeError(_) => append_str(&mut out, "Percent decode error"),
            TextFragmentStatus::TextDirectiveNotFound(d) => {
                append_str(&mut out, "Text directive ");
                append_str(&mut out, d.as_str());
                append_str(&mut out, " not found");
            },
            TextFragmentStatus::TextDirectiveRangeError(e, m) => {
                append_str(&mut out, "Suffix match error - expected ");
                append_str(&mut out, e.as_str());
                append_str(&mut out, " but matched ");
                append_str(&mut out, m.as_str());
            },
            TextFragmentStatus::TextDirectivePartialMatchFoundError => append_str(
                &mut out,
                "Partial text directive match found!",
            ),
            TextFragmentStatus::TextDirectiveBlockElementHidden => append_str(
                &mut out,
                "Block element is not visible",
            ),
        }
        string_of(out.as_slice())
    }
}

/// What running a regular expression (of the `fancy_regex` crate) on a
/// text gives, with the named groups asked for.
pub enum CaptureOutcomeView {
    /// The pattern is not a valid regular expression; the error's text.
    Invalid(Seq<char>),
    /// Running the expression failed; the error's text.
    Failed(Seq<char>),
    /// The expression does not match.
    NoMatch,
    /// The expression matches; what each named group asked for captured.
    Match(Seq<Option<Seq<char>>>),
}

/// What running a regular expression on a text gives.
#[derive(Debug)]
pub enum CaptureOutcome {
    /// The pattern is not a valid regular expression; the error's text.
    Invalid(String),
    /// Running the expression failed; the error's text.
    Failed(String),
    /// The expression does not match.
    NoMatch,
    /// The expression matches; what each named group asked for captured.
    Match(Vec<Option<String>>),
}

/// The view of optional texts.
pub open spec fn opt_strings(v: Seq<Option<String>>) -> Seq<Option<Seq<char>>> {
    v.map_values(|o: Option<String>| opt_string(o))
}

impl View for CaptureOutcome {
    type V = CaptureOutcomeView;

    open spec fn view(&self) -> CaptureOutcomeView {
        match self {
            CaptureOutcome::Invalid(t) => CaptureOutcomeView::Invalid(t@),
            CaptureOutcome::Failed(t) => CaptureOutcomeView::Failed(t@),
            CaptureOutcome::NoMatch => CaptureOutcomeView::NoMatch,
            CaptureOutcome::Match(v) => CaptureOutcomeView::Match(opt_strings(v@)),
        }
    }
}

/// What `fancy_regex::Regex::new(pattern)` and then `captures(haystack)`
/// give, with the named groups `names` read from the captures.
pub uninterp spec fn fancy_captures(
    pattern: Seq<char>,
    haystack: Seq<char>,
    names: Seq<Seq<char>>,
) -> CaptureOutcomeView;

/// Compiles a pattern with `fancy_regex::Regex::new`, runs it on `haystack`
/// with `captures`, and reads the named groups `names`, one for one.
#[verifier::external_body]
fn captures_of(pattern: &str, haystack: &str, names: &Vec<String>) -> (r: CaptureOutcome)
    ensures
        r@ == fancy_captures(pattern@, haystack@, string_views(names@)),
        r matches CaptureOutcome::Match(v) ==> v.len() == names.len(),
{
    match fancy_regex::Regex::new(pattern) {
        Err(e) => CaptureOutcome::Invalid(e.to_string()),
        Ok(re) => match re.captures(haystack) {
            Err(e) => CaptureOutcome::Failed(e.to_string()),
            Ok(None) => CaptureOutcome::NoMatch,
            Ok(Some(c)) => CaptureOutcome::Match(
                names.iter().map(|n| c.name(n).map(|m| m.as_str().to_string())).collect(),
            ),
        },
    }
}

/// The delimiter before a fragment directive.
pub open spec fn fragment_directive_delimiter() -> Seq<char> {
    ":~:"@
}

/// The delimiter before a text directive.
pub open spec fn text_directive_delimiter() -> Seq<char> {
    "text="@
}

/// The regular expression that reads a text directive into its named
/// groups `prefix`, `start`, `end` and `suffix`.
pub open spec fn text_directive_regex() -> Seq<char> {
    "(?s)^text=(?:\\s*(?P<prefix>[^,&-]*)-\\s*[,$]?\\s*)?(?:\\s*(?P<start>[^-&,]*)\\s*)(?:\\s*,\\s*(?P<end>[^,&-]*)\\s*)?(?:\\s*,\\s*-(?P<suffix>[^,&-]*)\\s*)?$"@
}

/// The names of the groups of [`text_directive_regex`], in the order the
/// directive reads them.
pub open spec fn directive_group_names() -> Seq<Seq<char>> {
    seq!["start"@, "end"@, "prefix"@, "suffix"@]
}

/// The lowercase hexadecimal digits of a number, without leading zeros.
pub open spec fn hex_lower(n: nat) -> Seq<char>
    decreases n,
{
    if n < 16 {
        seq![hex_digit(n)]
    } else {
        hex_lower(n / 16) + seq![hex_digit(n % 16)]
    }
}

/// A lowercase hexadecimal digit.
pub open spec fn hex_digit(d: nat) -> char {
    if d < 10 {
        (('0' as nat) + d) as char
    } else {
        (('a' as nat) + d - 10) as char
    }
}

/// How `char::escape_default` writes a character: tab, carriage return
/// and line feed as `\t`, `\r`, `\n`; quotes and the backslash after a
/// backslash; other printable ASCII characters as they are; every other
/// character as `\u{..}` with its code in lowercase hexadecimal.
pub open spec fn escape_default_char(c: char) -> Seq<char> {
    if c == '\t' {
        "\\t"@
    } else if c == '\r' {
        "\\r"@
    } else if c == '\n' {
        "\\n"@
    } else if c == '\'' || c == '"' || c == '\\' {
        seq!['\\', c]
    } else if ' ' <= c && c <= '~' {
        seq![c]
    } else {
        "\\u{"@ + hex_lower(c as nat) + "}"@
    }
}

/// How `str::escape_default` writes a text: each character as
/// `char::escape_default` writes it.
pub open spec fn escape_default(s: Seq<char>) -> Seq<char>
    decreases s.len(),
{
    if s.len() == 0 {
        seq![]
    } else {
        escape_default(s.drop_last()) + escape_default_char(s.last())
    }
}

/// Escapes a text as `str::escape_default` does.
#[verifier::external_body]
fn escape_default_str(s: &str) -> (r: String)
    ensures
        r@ == escape_default(s@),
{
    s.escape_default().to_string()
}

/// A text directive: the range of text in a page to show the user.
///
/// `start` is required; the other terms may be empty. `start` with `end`
/// is a range of text; `prefix` and `suffix` are the context around it.
/// The terms are percent-decoded and then escaped as `str::escape_default`
/// writes them.
#[derive(Debug, Clone, Default, PartialEq, Eq)]
pub struct TextDirective {
    /// The context just before `start`
    pub prefix: String,
    /// The first text of the range, or the whole text to find
    pub start: String,
    /// The last text of the range
    pub end: String,
    /// The context just after `end`
    pub suffix: String,
    /// The text of the directive
    pub raw_directive: String,
}

/// The view of a [`TextDirective`]: prefix, start, end, suffix, and the text
/// of the directive.
pub type TextDirectiveView = (Seq<char>, Seq<char>, Seq<char>, Seq<char>, Seq<char>);

impl View for TextDirective {
    type V = TextDirectiveView;

    open spec fn view(&self) -> TextDirectiveView {
        (self.prefix@, self.start@, self.end@, self.suffix@, self.raw_directive@)
    }
}

/// What decoding a term of a directive gives: the term percent-decoded,
/// then escaped, or the error that it is not UTF-8.
pub open spec fn decode_term(term: Seq<char>) -> Result<Seq<char>, Seq<char>> {
    match percent_decoded(term) {
        Some(d) => Ok(escape_default(d)),
        None => Err(term),
    }
}

/// A captured group, or the empty text when the group did not take part.
pub open spec fn group_or_empty(groups: Seq<Option<Seq<char>>>, i: int) -> Seq<char> {
    if 0 <= i < groups.len() {
        match groups[i] {
            Some(g) => g,
            None => seq![],
        }
    } else {
        seq![]
    }
}

/// What reading a text directive gives: its terms, in the order prefix,
/// start, end, suffix, or the reason it cannot be read.
pub open spec fn text_directive_of(fragment: Seq<char>) -> Result<
    (Seq<char>, Seq<char>, Seq<char>, Seq<char>),
    TextFragmentStatusView,
> {
    if !contains(fragment, text_directive_delimiter()) {
        Err(TextFragmentStatusView::NotTextDirective)
    } else {
        match fancy_captures(text_directive_regex(), fragment, directive_group_names()) {
            CaptureOutcomeView::Invalid(t) => Err(TextFragmentStatusView::RegexNoCaptureError(t)),
            CaptureOutcomeView::Failed(t) => Err(TextFragmentStatusView::RegexNoCaptureError(t)),
            CaptureOutcomeView::NoMatch => Err(TextFragmentStatusView::RegexNoCaptureError(fragment)),
            CaptureOutcomeView::Match(g) => match decode_term(group_or_empty(g, 0)) {
                Err(t) => Err(TextFragmentStatusView::PercentDecodeError(t)),
                Ok(start) => if start.len() == 0 {
                    Err(TextFragmentStatusView::StartDirectiveMissingError)
                } else {
                    match decode_term(group_or_empty(g, 1)) {
                        Err(t) => Err(TextFragmentStatusView::PercentDecodeError(t)),
                        Ok(end) => match decode_term(group_or_empty(g, 2)) {
                            Err(t) => Err(TextFragmentStatusView::PercentDecodeError(t)),
                            Ok(prefix) => match decode_term(group_or_empty(g, 3)) {
                                Err(t) => Err(TextFragmentStatusView::PercentDecodeError(t)),
                                Ok(suffix) => Ok((prefix, start, end, suffix)),
                            },
                        },
                    }
                },
            },
        }
    }
}

/// The view of a [`TextFragmentStatus`].
pub enum TextFragmentStatusView {
    /// See [`TextFragmentStatus::FragmentDirectiveDelimiterMissing`].
    FragmentDirectiveDelimiterMissing,
    /// See [`TextFragmentStatus::NotTextDirective`].
    NotTextDirective,
    /// See [`TextFragmentStatus::RegexNoCaptureError`].
    RegexNoCaptureError(Seq<char>),
    /// See [`TextFragmentStatus::StartDirectiveMissingError`].
    StartDirectiveMissingError,
    /// See [`TextFragmentStatus::PercentDecodeError`].
    PercentDecodeError(Seq<char>),
    /// See [`TextFragmentStatus::TextDirectiveNotFound`].
    TextDirectiveNotFound(Seq<char>),
    /// See [`TextFragmentStatus::TextDirectiveRangeError`].
    TextDirectiveRangeError(Seq<char>, Seq<char>),
    /// See [`TextFragmentStatus::TextDirectivePartialMatchFoundError`].
    TextDirectivePartialMatchFoundError,
    /// See [`TextFragmentStatus::TextDirectiveBlockElementHidden`].
    TextDirectiveBlockElementHidden,
}

impl View for TextFragmentStatus {
    type V = TextFragmentStatusView;

    open spec fn view(&self) -> TextFragmentStatusView {
        match self {
            TextFragmentStatus::FragmentDirectiveDelimiterMissing => TextFragmentStatusView::FragmentDirectiveDelimiterMissing,
            TextFragmentStatus::NotTextDirective => TextFragmentStatusView::NotTextDirective,
            TextFragmentStatus::RegexNoCaptureError(d) => TextFragmentStatusView::RegexNoCaptureError(d@),
            TextFragmentStatus::StartDirectiveMissingError => TextFragmentStatusView::StartDirectiveMissingError,
            TextFragmentStatus::PercentDecodeError(t) => TextFragmentStatusView::PercentDecodeError(t@),
            TextFragmentStatus::TextDirectiveNotFound(d) => TextFragmentStatusView::TextDirectiveNotFound(d@),
            TextFragmentStatus::TextDirectiveRangeError(e, m) => TextFragmentStatusView::TextDirectiveRangeError(
                e@,
                m@,
            ),
            TextFragmentStatus::TextDirectivePartialMatchFoundError => TextFragmentStatusView::TextDirectivePartialMatchFoundError,
            TextFragmentStatus::TextDirectiveBlockElementHidden => TextFragmentStatusView::TextDirectiveBlockElementHidden,
        }
    }
}

fn owned(s: &str) -> (r: String)
    ensures
        r@ == s@,
{
    string_of(chars_of(s).as_slice())
}

/// Decodes a term of a directive: percent-decodes it, then escapes it.
fn decode(term: &str) -> (r: Result<String, TextFragmentStatus>)
    ensures
        match decode_term(term@) {
            Ok(d) => r matches Ok(x) && x@ == d,
            Err(t) => r matches Err(e) && e@ == TextFragmentStatusView::PercentDecodeError(t),
        },
{
    match percent_decode_utf8(term) {
        Some(d) => Ok(escape_default_str(d.as_str())),
        None => Err(TextFragmentStatus::PercentDecodeError(owned(term))),
    }
}

/// A captured group, or the empty text.
fn group(groups: &Vec<Option<String>>, i: usize) -> (r: String)
    ensures
        r@ == group_or_empty(opt_strings(groups@), i as int),
{
    if i < groups.len() {
        match &groups[i] {
            Some(g) => owned(g.as_str()),
            None => String::new(),
        }
    } else {
        String::new()
    }
}

/// The regular expression of a directive: the selection starts at `start`
/// (right after `prefix` and a space, when there is a prefix); it runs to
/// `end` when there is an end and no suffix; with a suffix, it runs to a
/// last word followed by a space and the suffix.
pub open spec fn directive_regex(prefix: Seq<char>, start: Seq<char>, end: Seq<char>, suffix: Seq<char>) -> Seq<char> {
    "(?mi)(?P<selection>"@
        + (if prefix.len() > 0 { "(?<="@ + prefix + ")\\s"@ } else { seq![] })
        + start
        + (if suffix.len() == 0 && end.len() > 0 { "\\s(.|\\n)+?\\b"@ + end } else { seq![] })
        + (if suffix.len() > 0 { "(.|\\n)+?(?P<last_word>\\w+?)\\s\\b(?="@ + suffix + ")"@ } else { seq![] })
        + ")"@
}

/// What checking a directive against a text gives: found, or the reason
/// it is not. When the directive has both an end and a suffix, the last
/// word of the selection must be the end, in lowercase.
pub open spec fn directive_check(d: TextDirectiveView, input: Seq<char>) -> Result<(), TextFragmentStatusView> {
    match fancy_captures(directive_regex(d.0, d.1, d.2, d.3), input, seq!["last_word"@]) {
        CaptureOutcomeView::Invalid(_) => Err(TextFragmentStatusView::TextDirectiveNotFound(d.4)),
        CaptureOutcomeView::Failed(_) => Err(TextFragmentStatusView::RegexNoCaptureError(d.4)),
        CaptureOutcomeView::NoMatch => Err(TextFragmentStatusView::RegexNoCaptureError(d.4)),
        CaptureOutcomeView::Match(g) => if d.3.len() > 0 && d.2.len() > 0 {
            match if g.len() > 0 { g[0] } else { None } {
                None => Err(TextFragmentStatusView::TextDirectiveNotFound(d.4)),
                Some(w) => if lowercase(d.2) == lowercase(w) {
                    Ok(())
                } else {
                    Err(TextFragmentStatusView::TextDirectiveRangeError(lowercase(d.2), lowercase(w)))
                },
            }
        } else {
            Ok(())
        },
    }
}

impl TextDirective {
    /// Reads a text directive, `text=[prefix-,]start[,end][,-suffix]`, and
    /// decodes its terms; see [`text_directive_of`].
    pub fn from_fragment_as_str(fragment: &str) -> (r: Result<TextDirective, TextFragmentStatus>)
        ensures
            match text_directive_of(fragment@) {
                Ok((prefix, start, end, suffix)) => r matches Ok(d) && d@ == (
                    prefix,
                    start,
                    end,
                    suffix,
                    fragment@,
                ),
                Err(e) => r matches Err(x) && x@ == e,
            },
    {
        if !str_contains(fragment, "text=") {
            return Err(TextFragmentStatus::NotTextDirective);
        }
        let mut names: Vec<String> = Vec::new();
        names.push(owned("start"));
        names.push(owned("end"));
        names.push(owned("prefix"));
        names.push(owned("suffix"));
        assert(string_views(names@) =~= directive_group_names());
        let pattern = owned(
            "(?s)^text=(?:\\s*(?P<prefix>[^,&-]*)-\\s*[,$]?\\s*)?(?:\\s*(?P<start>[^-&,]*)\\s*)(?:\\s*,\\s*(?P<end>[^,&-]*)\\s*)?(?:\\s*,\\s*-(?P<suffix>[^,&-]*)\\s*)?$",
        );
        proof {
            reveal_strlit(
                "(?s)^text=(?:\\s*(?P<prefix>[^,&-]*)-\\s*[,$]?\\s*)?(?:\\s*(?P<start>[^-&,]*)\\s*)(?:\\s*,\\s*(?P<end>[^,&-]*)\\s*)?(?:\\s*,\\s*-(?P<suffix>[^,&-]*)\\s*)?$",
            );
        }
        assert(pattern@ == text_directive_regex());
        let groups = match captures_of(pattern.as_str(), fragment, &names) {
            CaptureOutcome::Invalid(t) => return Err(TextFragmentStatus::RegexNoCaptureError(t)),
            CaptureOutcome::Failed(t) => return Err(TextFragmentStatus::RegexNoCaptureError(t)),
            CaptureOutcome::NoMatch => return Err(
                TextFragmentStatus::RegexNoCaptureError(owned(fragment)),
            ),
            CaptureOutcome::Match(g) => g,
        };
        let start = match decode(group(&groups, 0).as_str()) {
            Ok(t) => t,
            Err(e) => return Err(e),
        };
        if start.as_str().is_empty() {
            return Err(TextFragmentStatus::StartDirectiveMissingError);
        }
        let end = match decode(group(&groups, 1).as_str()) {
            Ok(t) => t,
            Err(e) => return Err(e),
        };
        let prefix = match decode(group(&groups, 2).as_str()) {
            Ok(t) => t,
            Err(e) => return Err(e),
        };
        let suffix = match decode(group(&groups, 3).as_str()) {
            Ok(t) => t,
            Err(e) => return Err(e),
        };
        Ok(TextDirective { prefix, start, end, suffix, raw_directive: owned(fragment) })
    }

    /// Checks whether the directive is found in a text; see
    /// [`directive_check`].
    pub fn check(&self, input: &str) -> (r: Result<Status, TextFragmentStatus>)
        requires
            self.start@.len() > 0,
        ensures
            match directive_check(self@, input@) {
                Ok(()) => r == Ok::<Status, TextFragmentStatus>(Status::Success(200)),
                Err(e) => r matches Err(x) && x@ == e,
            },
    {
        let mut regex: Vec<char> = Vec::new();
        append_str(&mut regex, "(?mi)(?P<selection>");
        if !self.prefix.as_str().is_empty() {
            append_str(&mut regex, "(?<=");
            append_str(&mut regex, self.prefix.as_str());
            append_str(&mut regex, ")\\s");
        }
        append_str(&mut regex, self.start.as_str());
        if self.suffix.as_str().is_empty() && !self.end.as_str().is_empty() {
            append_str(&mut regex, "\\s(.|\\n)+?\\b");
            append_str(&mut regex, self.end.as_str());
        }
        if !self.suffix.as_str().is_empty() {
            append_str(&mut regex, "(.|\\n)+?(?P<last_word>\\w+?)\\s\\b(?=");
            append_str(&mut regex, self.suffix.as_str());
            append_str(&mut regex, ")");
        }
        append_str(&mut regex, ")");
        let pattern = string_of(regex.as_slice());
        assert(pattern@ =~= directive_regex(self.prefix@, self.start@, self.end@, self.suffix@));
        let mut names: Vec<String> = Vec::new();
        names.push(owned("last_word"));
        assert(string_views(names@) =~= seq!["last_word"@]);
        let groups = match captures_of(pattern.as_str(), input, &names) {
            CaptureOutcome::Invalid(_) => return Err(
                TextFragmentStatus::TextDirectiveNotFound(owned(self.raw_directive.as_str())),
            ),
            CaptureOutcome::Failed(_) => return Err(
                TextFragmentStatus::RegexNoCaptureError(owned(self.raw_directive.as_str())),
            ),
            CaptureOutcome::NoMatch => return Err(
                TextFragmentStatus::RegexNoCaptureError(owned(self.raw_directive.as_str())),
            ),
            CaptureOutcome::Match(g) => g,
        };
        if !self.suffix.as_str().is_empty() && !self.end.as_str().is_empty() {
            let end_lowercase = to_lowercase(self.end.as_str());
            let last_word = if groups.len() > 0 {
                match &groups[0] {
                    Some(w) => to_lowercase(w.as_str()),
                    None => return Err(
                        TextFragmentStatus::TextDirectiveNotFound(owned(self.raw_directive.as_str())),
                    ),
                }
            } else {
                return Err(
                    TextFragmentStatus::TextDirectiveNotFound(owned(self.raw_directive.as_str())),
                );
            };
            if !str_eq(end_lowercase.as_str(), last_word.as_str()) {
                return Err(TextFragmentStatus::TextDirectiveRangeError(end_lowercase, last_word));
            }
        }
        Ok(Status::Success(200))
    }
}

/// A text directive that can be read has a non-empty start: the start is
/// the one mandatory term.
pub proof fn law_read_directive_has_start(fragment: Seq<char>)
    ensures
        text_directive_of(fragment) matches Ok((_, start, _, _)) ==> start.len() > 0,
{
}

/// A fragment directive: the text directives of a fragment.
#[derive(Debug, Clone, Default)]
pub struct FragmentDirective {
    /// The text directives that could be read, in order
    pub text_directives: Vec<TextDirective>,
}

/// The directives of a fragment directive that can be read, in order.
pub open spec fn readable_directives(parts: Seq<Seq<char>>) -> Seq<TextDirectiveView>
    decreases parts.len(),
{
    if parts.len() == 0 {
        seq![]
    } else {
        let rest = readable_directives(parts.drop_last());
        let p = parts.last();
        match text_directive_of(p) {
            Ok((prefix, start, end, suffix)) => rest.push((prefix, start, end, suffix, p)),
            Err(_) => rest,
        }
    }
}

/// The views of text directives.
pub open spec fn directive_views(v: Seq<TextDirective>) -> Seq<TextDirectiveView> {
    v.map_values(|d: TextDirective| d@)
}

/// What reading the text directives of a fragment gives: none when it has
/// no fragment directive delimiter; otherwise the directives that can be
/// read among the `&`-separated parts after the first delimiter.
pub open spec fn fragment_directives_of(fragment: Seq<char>) -> Option<Seq<TextDirectiveView>> {
    match find(fragment, fragment_directive_delimiter()) {
        Some(i) => Some(readable_directives(split(fragment.skip(i + 3), '&'))),
        None => None,
    }
}

impl FragmentDirective {
    /// Reads the text directives of a fragment, after the delimiter `:~:`;
    /// directives that cannot be read are left out.
    pub fn extract_text_directives(fragment: &str) -> (r: Option<Vec<TextDirective>>)
        ensures
            match fragment_directives_of(fragment@) {
                Some(ds) => r matches Some(v) && directive_views(v@) == ds,
                None => r is None,
            },
    {
        let chars = chars_of(fragment);
        let delimiter = chars_of(":~:");
        proof {
            reveal_strlit(":~:");
        }
        let found = find_chars(chars.as_slice(), delimiter.as_slice());
        match found {
            Some(offset) => {
                proof {
                    crate::text::lemma_find(chars@, delimiter@);
                }
                assert(delimiter@.len() == 3);
                assert(find(chars@, delimiter@) == Some(offset as int));
                assert(offset + 3 <= chars.len());
                let rest = crate::text::slice_of(chars.as_slice(), offset + 3, chars.len());
                assert(rest@ =~= fragment@.skip(offset + 3));
                let parts = split_chars(rest.as_slice(), '&');
                let ghost pv = views(parts@);
                let mut out: Vec<TextDirective> = Vec::new();
                let mut i: usize = 0;
                while i < parts.len()
                    invariant
                        i <= parts.len(),
                        pv == views(parts@),
                        pv.len() == parts.len(),
                        directive_views(out@) == readable_directives(pv.take(i as int)),
                    decreases parts.len() - i,
                {
                    let text = string_of(parts[i].as_slice());
                    proof {
                        assert(pv.take(i as int + 1).drop_last() =~= pv.take(i as int));
                        assert(pv.take(i as int + 1).last() == text@);
                    }
                    match TextDirective::from_fragment_as_str(text.as_str()) {
                        Ok(d) => {
                            let ghost before = out@;
                            out.push(d);
                            assert(directive_views(out@) =~= directive_views(before).push(d@));
                        },
                        Err(_) => {},
                    }
                    i += 1;
                }
                assert(pv.take(parts.len() as int) =~= pv);
                Some(out)
            },
            None => None,
        }
    }

    /// The fragment directive of a fragment; none when the fragment has no
    /// delimiter.
    pub fn from_fragment_as_str(fragment: &str) -> (r: Option<FragmentDirective>)
        ensures
            match fragment_directives_of(fragment@) {
                Some(ds) => r matches Some(f) && directive_views(f.text_directives@) == ds,
                None => r is None,
            },
    {
        match FragmentDirective::extract_text_directives(fragment) {
            Some(text_directives) => Some(FragmentDirective { text_directives }),
            None => None,
        }
    }

    /// The fragment directive of a URL's fragment; none when the URL has no
    /// fragment or the fragment has no delimiter.
    pub fn from_url(url: &AbsoluteUrl) -> (r: Option<FragmentDirective>)
        ensures
            match crate::address::url_fragment(url@) {
                Some(f) => match fragment_directives_of(f) {
                    Some(ds) => r matches Some(d) && directive_views(d.text_directives@) == ds,
                    None => r is None,
                },
                None => r is None,
            },
    {
        match url.fragment() {
            Some(f) => FragmentDirective::from_fragment_as_str(f),
            None => None,
        }
    }
}

} // verus!
