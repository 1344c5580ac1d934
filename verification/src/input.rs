//! Input sources as the user gives them: URLs, file paths, glob patterns,
//! standard input and raw strings, and how a text given as input is
//! recognised as one of them.
use vstd::prelude::*;

use crate::address::{opt_string, url_parse, url_path, url_scheme, AbsoluteUrl};
use crate::diagnosis::IoErrorKind;
use crate::error::{ErrorKind, UriError};
use crate::files::{type_of_path, FileType};
use crate::request_builder::RequestError;
use crate::source::{ResolvedInputSource, SourceView};
use crate::text::{append_str, chars_of, str_eq, string_of};

verus! {

/// The text that stands for standard input.
pub open spec fn stdin_marker() -> Seq<char> {
    "-"@
}

/// A text with each glob metacharacter (`?`, `*`, `[`, `]`) put in square
/// brackets, as `glob::Pattern::escape` writes it.
pub open spec fn glob_escaped(s: Seq<char>) -> Seq<char>
    decreases s.len(),
{
    if s.len() == 0 {
        seq![]
    } else {
        let c = s.last();
        glob_escaped(s.drop_last()) + if is_glob_meta(c) {
            seq!['[', c, ']']
        } else {
            seq![c]
        }
    }
}

/// A glob metacharacter.
pub open spec fn is_glob_meta(c: char) -> bool {
    c == '?' || c == '*' || c == '[' || c == ']'
}

/// Whether a text holds a glob metacharacter.
pub open spec fn has_glob_meta(s: Seq<char>) -> bool {
    exists|i: int| 0 <= i < s.len() && is_glob_meta(#[trigger] s[i])
}

/// Escaping changes a text exactly when the text holds a metacharacter.
pub proof fn lemma_glob_escaped_changes(s: Seq<char>)
    ensures
        glob_escaped(s).len() >= s.len(),
        has_glob_meta(s) ==> glob_escaped(s).len() > s.len(),
        !has_glob_meta(s) ==> glob_escaped(s) == s,
        (glob_escaped(s) == s) <==> !has_glob_meta(s),
    decreases s.len(),
{
    if s.len() == 0 {
        assert(glob_escaped(s) =~= s);
    } else {
        let p = s.drop_last();
        lemma_glob_escaped_changes(p);
        if has_glob_meta(p) {
            let i = choose|i: int| 0 <= i < p.len() && is_glob_meta(#[trigger] p[i]);
            assert(s[i] == p[i]);
            assert(has_glob_meta(s));
        } else if is_glob_meta(s.last()) {
            assert(is_glob_meta(s[s.len() - 1]));
            assert(has_glob_meta(s));
        } else {
            assert(glob_escaped(s) =~= s);
            assert forall|i: int| 0 <= i < s.len() implies !is_glob_meta(#[trigger] s[i]) by {
                if i < p.len() {
                    assert(s[i] == p[i]);
                }
            }
        }
    }
}

/// The text of the error that `glob::Pattern::new` gives for a pattern, or
/// none when the pattern is valid.
pub uninterp spec fn glob_pattern_error(pattern: Seq<char>) -> Option<Seq<char>>;

/// Escapes the glob metacharacters of a text (`glob::Pattern::escape`).
#[verifier::external_body]
fn escape_glob(s: &str) -> (r: String)
    ensures
        r@ == glob_escaped(s@),
{
    glob::Pattern::escape(s)
}

/// Checks a glob pattern (`glob::Pattern::new`); gives the text of the
/// error when the pattern is not valid.
#[verifier::external_body]
fn glob_error(pattern: &str) -> (r: Option<String>)
    ensures
        opt_string(r) == glob_pattern_error(pattern@),
{
    glob::Pattern::new(pattern).err().map(|e| e.to_string())
}

/// Input types which lychee supports.
#[derive(Debug, Clone, PartialEq, Eq, Hash)]
pub enum InputSource {
    /// URL (of HTTP/HTTPS scheme).
    RemoteUrl(AbsoluteUrl),
    /// Unix shell-style glob pattern.
    FsGlob {
        /// The glob pattern matching all input files; a valid pattern
        pattern: String,
        /// Don't be case sensitive when matching files against a glob pattern
        ignore_case: bool,
    },
    /// File path.
    FsPath(String),
    /// Standard Input.
    Stdin,
    /// Raw string input.
    String(String),
}

/// The view of an [`InputSource`].
pub enum InputSourceView {
    /// A remote URL.
    RemoteUrl(Seq<char>),
    /// A glob pattern, and whether it ignores case.
    FsGlob(Seq<char>, bool),
    /// A file path.
    FsPath(Seq<char>),
    /// Standard input.
    Stdin,
    /// A raw string.
    String(Seq<char>),
}

impl View for InputSource {
    type V = InputSourceView;

    open spec fn view(&self) -> InputSourceView {
        match self {
            InputSource::RemoteUrl(u) => InputSourceView::RemoteUrl(u@),
            InputSource::FsGlob { pattern, ignore_case } => InputSourceView::FsGlob(
                pattern@,
                *ignore_case,
            ),
            InputSource::FsPath(p) => InputSourceView::FsPath(p@),
            InputSource::Stdin => InputSourceView::Stdin,
            InputSource::String(s) => InputSourceView::String(s@),
        }
    }
}

/// What a text given as input stands for, or the error that it gives.
/// `-` is standard input. A text that parses as a URL must be an `http` or
/// `https` URL. A text with a glob metacharacter is a glob pattern, which
/// must be valid. Otherwise the text is a path when the path exists; when
/// it does not and starts with `~` or `.`, it is an invalid file; else it
/// is taken as a URL without its `http://` scheme.
pub open spec fn input_source_of(input: Seq<char>, glob_ignore_case: bool, path_exists: bool) -> Result<
    InputSourceView,
    InputErrorView,
> {
    if input == stdin_marker() {
        Ok(InputSourceView::Stdin)
    } else if url_parse(input) is Ok {
        let u = url_parse(input)->Ok_0;
        if url_scheme(u) == "http"@ || url_scheme(u) == "https"@ {
            Ok(InputSourceView::RemoteUrl(u))
        } else {
            Err(InputErrorView::InvalidFile(input))
        }
    } else if has_glob_meta(input) {
        match glob_pattern_error(input) {
            None => Ok(InputSourceView::FsGlob(input, glob_ignore_case)),
            Some(t) => Err(InputErrorView::InvalidGlobPattern(t)),
        }
    } else if path_exists {
        Ok(InputSourceView::FsPath(input))
    } else if input.len() > 0 && (input[0] == '~' || input[0] == '.') {
        Err(InputErrorView::InvalidFile(input))
    } else {
        match url_parse("http://"@ + input) {
            Ok(u) => Ok(InputSourceView::RemoteUrl(u)),
            Err(e) => Err(InputErrorView::NotUrl(e)),
        }
    }
}

/// The errors that a text given as input can give.
pub enum InputErrorView {
    /// See [`ErrorKind::InvalidFile`]: the input.
    InvalidFile(Seq<char>),
    /// See [`ErrorKind::InvalidGlobPattern`]: the text of the pattern error.
    InvalidGlobPattern(Seq<char>),
    /// The input, with `http://` before it, is no URL either.
    NotUrl(crate::address::UrlParseError),
}

/// The view of an error of [`InputSource::new`].
pub open spec fn input_error_view(e: ErrorKind) -> Option<InputErrorView> {
    match e {
        ErrorKind::InvalidFile(s) => Some(InputErrorView::InvalidFile(s@)),
        ErrorKind::InvalidGlobPattern(t) => Some(InputErrorView::InvalidGlobPattern(t@)),
        ErrorKind::Uri(UriError::Parse(p, s)) => if s@ == not_url_message() {
            Some(InputErrorView::NotUrl(p))
        } else {
            None
        },
        _ => None,
    }
}

/// The text given with the parse error of an input that is no URL.
pub open spec fn not_url_message() -> Seq<char> {
    "Input is not a valid URL"@
}

/// How an input source is written: its URL, pattern or path, `stdin`, or
/// the raw string.
pub open spec fn input_source_text(s: InputSourceView) -> Seq<char> {
    match s {
        InputSourceView::RemoteUrl(u) => u,
        InputSourceView::FsGlob(p, _) => p,
        InputSourceView::FsPath(p) => p,
        InputSourceView::Stdin => "stdin"@,
        InputSourceView::String(t) => t,
    }
}

fn owned(s: &str) -> (r: String)
    ensures
        r@ == s@,
{
    string_of(chars_of(s).as_slice())
}

impl InputSource {
    /// Recognises what a text given as input stands for; see
    /// [`input_source_of`]. `path_exists` tells whether the text names an
    /// existing path; it is read only when the text is neither a URL nor a
    /// glob pattern.
    pub fn new(input: &str, glob_ignore_case: bool, path_exists: bool) -> (r: Result<
        InputSource,
        ErrorKind,
    >)
        ensures
            match input_source_of(input@, glob_ignore_case, path_exists) {
                Ok(v) => r matches Ok(s) && s@ == v,
                Err(e) => r matches Err(k) && input_error_view(k) == Some(e),
            },
    {
        if str_eq(input, "-") {
            return Ok(InputSource::Stdin);
        }
        match AbsoluteUrl::parse(input) {
            Ok(url) => {
                if str_eq(url.scheme(), "http") || str_eq(url.scheme(), "https") {
                    return Ok(InputSource::RemoteUrl(url));
                } else {
                    return Err(ErrorKind::InvalidFile(owned(input)));
                }
            },
            Err(_) => {},
        }
        let escaped = escape_glob(input);
        proof {
            lemma_glob_escaped_changes(input@);
        }
        if !str_eq(escaped.as_str(), input) {
            return match glob_error(input) {
                None => Ok(InputSource::FsGlob { pattern: owned(input), ignore_case: glob_ignore_case }),
                Some(t) => Err(ErrorKind::InvalidGlobPattern(t)),
            };
        }
        if path_exists {
            return Ok(InputSource::FsPath(owned(input)));
        }
        let chars = chars_of(input);
        if chars.len() > 0 && (chars[0] == '~' || chars[0] == '.') {
            return Err(ErrorKind::InvalidFile(owned(input)));
        }
        let mut with_scheme: Vec<char> = Vec::new();
        append_str(&mut with_scheme, "http://");
        append_str(&mut with_scheme, input);
        let text = string_of(with_scheme.as_slice());
        match AbsoluteUrl::parse(text.as_str()) {
            Ok(url) => Ok(InputSource::RemoteUrl(url)),
            Err(e) => Err(ErrorKind::Uri(UriError::Parse(e, owned("Input is not a valid URL")))),
        }
    }

    /// The input source that a resolved input source stands for.
    pub fn from_resolved(resolved: ResolvedInputSource) -> (r: InputSource)
        ensures
            r@ == match resolved {
                ResolvedInputSource::RemoteUrl(u) => InputSourceView::RemoteUrl(u@),
                ResolvedInputSource::FsPath(p) => InputSourceView::FsPath(p@),
                ResolvedInputSource::Stdin => InputSourceView::Stdin,
                ResolvedInputSource::String(s) => InputSourceView::String(s@),
            },
    {
        match resolved {
            ResolvedInputSource::RemoteUrl(url) => InputSource::RemoteUrl(url),
            ResolvedInputSource::FsPath(path) => InputSource::FsPath(path),
            ResolvedInputSource::Stdin => InputSource::Stdin,
            ResolvedInputSource::String(s) => InputSource::String(s),
        }
    }

    /// How this input source is written.
    pub fn to_string(&self) -> (r: String)
        ensures
            r@ == input_source_text(self@),
    {
        match self {
            InputSource::RemoteUrl(url) => owned(url.as_str()),
            InputSource::FsGlob { pattern, .. } => owned(pattern.as_str()),
            InputSource::FsPath(path) => owned(path.as_str()),
            InputSource::Stdin => owned("stdin"),
            InputSource::String(s) => owned(s.as_str()),
        }
    }
}

/// An input, with an optional hint of its file type.
#[derive(Debug, Clone, PartialEq, Eq, Hash)]
pub struct Input {
    /// Origin of input
    pub source: InputSource,
    /// Hint to indicate which extractor to use; when there is none, the
    /// extractor is guessed from the input (its file extension or URL path)
    pub file_type_hint: Option<FileType>,
}

impl Input {
    /// An input from a text; see [`InputSource::new`].
    pub fn new(input: &str, file_type_hint: Option<FileType>, glob_ignore_case: bool, path_exists: bool) -> (r:
        Result<Input, ErrorKind>)
        ensures
            match input_source_of(input@, glob_ignore_case, path_exists) {
                Ok(v) => r matches Ok(i) && i.source@ == v && i.file_type_hint == file_type_hint,
                Err(e) => r matches Err(k) && input_error_view(k) == Some(e),
            },
    {
        match InputSource::new(input, glob_ignore_case, path_exists) {
            Ok(source) => Ok(Input { source, file_type_hint }),
            Err(e) => Err(e),
        }
    }

    /// An input from a text, without file type hint, with case-sensitive
    /// glob patterns.
    pub fn from_value(value: &str, path_exists: bool) -> (r: Result<Input, ErrorKind>)
        ensures
            match input_source_of(value@, false, path_exists) {
                Ok(v) => r matches Ok(i) && i.source@ == v && i.file_type_hint is None,
                Err(e) => r matches Err(k) && input_error_view(k) == Some(e),
            },
    {
        Input::new(value, None, false, path_exists)
    }

    /// An input from an input source, without file type hint.
    pub fn from_input_source(source: InputSource) -> (r: Input)
        ensures
            r.source == source,
            r.file_type_hint is None,
    {
        Input { source, file_type_hint: None }
    }
}


/// The content of an input, with its source and file type.
#[derive(Debug)]
pub struct InputContent {
    /// Input source
    pub source: ResolvedInputSource,
    /// File type of given input
    pub file_type: FileType,
    /// Raw UTF-8 string content
    pub content: String,
}

impl InputContent {
    /// The content of an input string: its source is the string itself.
    pub fn from_string(s: &str, file_type: FileType) -> (r: InputContent)
        ensures
            r.source@ == SourceView::String(s@),
            r.file_type == file_type,
            r.content@ == s@,
    {
        InputContent {
            source: ResolvedInputSource::String(owned(s)),
            file_type,
            content: owned(s),
        }
    }

    /// The content read from a file: its file type comes from the path.
    pub fn from_path(path: &str, content: String) -> (r: InputContent)
        ensures
            r.source@ == SourceView::FsPath(path@),
            r.file_type == type_of_path(path@),
            r.content == content,
    {
        InputContent {
            source: ResolvedInputSource::FsPath(owned(path)),
            file_type: FileType::from_path(path),
            content,
        }
    }
}

/// The file type of the content fetched from a URL: HTML for an empty or
/// root path, otherwise the file type of the URL's text.
pub open spec fn url_content_type(url: Seq<char>) -> FileType {
    if url_path(url).len() == 0 || url_path(url) == "/"@ {
        FileType::Html
    } else {
        type_of_path(url)
    }
}

/// What a response to fetching an input URL gives: its body, as content of
/// the URL, when the status code is a success (200 to 299); otherwise the
/// error that the URL answered with that status code.
pub open spec fn url_response_ok(status: u16) -> bool {
    200 <= status && status <= 299
}

impl InputContent {
    /// The content fetched from an input URL, from the status code and body
    /// of the response.
    pub fn from_url_response(url: &AbsoluteUrl, status: u16, body: String) -> (r: Result<
        InputContent,
        ErrorKind,
    >)
        ensures
            url_response_ok(status) ==> (r matches Ok(c) && c.source@ == SourceView::RemoteUrl(url@)
                && c.file_type == url_content_type(url@) && c.content == body),
            !url_response_ok(status) ==> r == Err::<InputContent, ErrorKind>(
                ErrorKind::ReadInputUrlStatusCode(status),
            ),
    {
        if !(200 <= status && status <= 299) {
            return Err(ErrorKind::ReadInputUrlStatusCode(status));
        }
        let path = url.path();
        let file_type = if path.is_empty() || str_eq(path, "/") {
            FileType::Html
        } else {
            FileType::from_path(url.as_str())
        };
        Ok(InputContent { source: ResolvedInputSource::RemoteUrl(url.clone()), file_type, content: body })
    }
}

/// The file type for content without other clue: the hint, or the default.
pub open spec fn hinted_type(hint: Option<FileType>) -> FileType {
    match hint {
        Some(t) => t,
        None => FileType::Plaintext,
    }
}

/// The first step of getting the contents of an input.
#[derive(Debug)]
pub enum ContentStep {
    /// Fetch the content of the URL.
    FetchUrl(AbsoluteUrl),
    /// Check that the path can be read (a directory can be listed), then
    /// resolve the input into files.
    CheckPath(String),
    /// Read standard input; its content has this file type.
    ReadStdin(FileType),
    /// The content is at hand.
    Content(InputContent),
    /// Resolve the input into concrete sources (a glob pattern into files).
    Resolve,
}

/// How the content of one resolved source is got.
#[derive(Debug)]
pub enum SourceStep {
    /// Read the file, or run the preprocessor on it.
    ReadPath(String),
    /// Fetch the content of the URL.
    FetchUrl(AbsoluteUrl),
    /// Read standard input; its content has this file type.
    ReadStdin(FileType),
    /// The content is at hand.
    Content(InputContent),
}

/// What becomes of the content got for a resolved source.
#[derive(Debug)]
pub enum DiscoveredContent {
    /// The content is handed on.
    Content(InputContent),
    /// A failure is left out, as missing inputs are skipped.
    Skip,
    /// The file at this path is left out, as it is not UTF-8 (it may be
    /// binary).
    SkipNotUtf8(String),
    /// The failure ends the reading of this input.
    Fail(RequestError),
}

impl Input {
    /// The content of a string input, of the hinted file type or the
    /// default one.
    pub fn string_content(s: &str, file_type_hint: Option<FileType>) -> (r: InputContent)
        ensures
            r.source@ == SourceView::String(s@),
            r.file_type == hinted_type(file_type_hint),
            r.content@ == s@,
    {
        let file_type = match file_type_hint {
            Some(t) => t,
            None => FileType::default(),
        };
        InputContent::from_string(s, file_type)
    }

    /// The first step of getting the contents of this input: a URL is
    /// fetched; a path is checked, then resolved; standard input is read;
    /// a string is its own content; a glob pattern is resolved.
    pub fn content_step(&self) -> (r: ContentStep)
        ensures
            match self.source@ {
                InputSourceView::RemoteUrl(u) => r matches ContentStep::FetchUrl(x) && x@ == u,
                InputSourceView::FsPath(p) => r matches ContentStep::CheckPath(x) && x@ == p,
                InputSourceView::Stdin => r == ContentStep::ReadStdin(hinted_type(self.file_type_hint)),
                InputSourceView::String(t) => r matches ContentStep::Content(c) && c.source@
                    == SourceView::String(t) && c.content@ == t && c.file_type == hinted_type(
                    self.file_type_hint,
                ),
                InputSourceView::FsGlob(_, _) => r is Resolve,
            },
    {
        match &self.source {
            InputSource::RemoteUrl(url) => ContentStep::FetchUrl(url.clone()),
            InputSource::FsPath(path) => ContentStep::CheckPath(owned(path.as_str())),
            InputSource::Stdin => ContentStep::ReadStdin(
                match self.file_type_hint {
                    Some(t) => t,
                    None => FileType::default(),
                },
            ),
            InputSource::String(s) => ContentStep::Content(
                Input::string_content(s.as_str(), self.file_type_hint),
            ),
            InputSource::FsGlob { .. } => ContentStep::Resolve,
        }
    }

    /// What becomes of the content fetched for a URL or read from
    /// standard input, which the user gave directly: a failure is the
    /// user's input error, except that a URL that cannot be fetched is
    /// left out when missing inputs are skipped.
    pub fn on_user_content(&self, result: Result<InputContent, ErrorKind>, skip_missing: bool) -> (r:
        Option<Result<InputContent, RequestError>>)
        ensures
            match result {
                Ok(c) => r == Some(Ok::<InputContent, RequestError>(c)),
                Err(e) => if skip_missing && self.source is RemoteUrl {
                    r is None
                } else {
                    r matches Some(Err(RequestError::UserInputContent(s, k))) && s@ == self.source@
                        && k == e
                },
            },
    {
        match result {
            Ok(c) => Some(Ok(c)),
            Err(e) => {
                if skip_missing && matches!(self.source, InputSource::RemoteUrl(_)) {
                    None
                } else {
                    Some(Err(RequestError::UserInputContent(copy_source(&self.source), e)))
                }
            },
        }
    }

    /// What becomes of the check that a path given as input can be read: a
    /// failure is the user's input error.
    pub fn on_path_check(&self, result: Result<(), ErrorKind>) -> (r: Option<RequestError>)
        ensures
            match result {
                Ok(()) => r is None,
                Err(e) => r matches Some(RequestError::UserInputContent(s, k)) && s@ == self.source@
                    && k == e,
            },
    {
        match result {
            Ok(()) => None,
            Err(e) => Some(RequestError::UserInputContent(copy_source(&self.source), e)),
        }
    }

    /// How the content of a resolved source is got; standard input and
    /// strings take the hinted file type of this input.
    pub fn source_step(&self, source: ResolvedInputSource) -> (r: SourceStep)
        ensures
            match source@ {
                SourceView::FsPath(p) => r matches SourceStep::ReadPath(x) && x@ == p,
                SourceView::RemoteUrl(u) => r matches SourceStep::FetchUrl(x) && x@ == u,
                SourceView::Stdin => r == SourceStep::ReadStdin(hinted_type(self.file_type_hint)),
                SourceView::String(t) => r matches SourceStep::Content(c) && c.source@
                    == SourceView::String(t) && c.content@ == t && c.file_type == hinted_type(
                    self.file_type_hint,
                ),
            },
    {
        match source {
            ResolvedInputSource::FsPath(path) => SourceStep::ReadPath(path),
            ResolvedInputSource::RemoteUrl(url) => SourceStep::FetchUrl(url),
            ResolvedInputSource::Stdin => SourceStep::ReadStdin(
                match self.file_type_hint {
                    Some(t) => t,
                    None => FileType::default(),
                },
            ),
            ResolvedInputSource::String(s) => SourceStep::Content(
                Input::string_content(s.as_str(), self.file_type_hint),
            ),
        }
    }

    /// What becomes of the content got for a resolved source: it is handed
    /// on; a failure is left out when missing inputs are skipped; a file
    /// that is not UTF-8 is left out; any other failure ends the reading of
    /// this input.
    pub fn on_discovered_content(&self, result: Result<InputContent, ErrorKind>, skip_missing: bool) -> (r:
        DiscoveredContent)
        ensures
            match result {
                Ok(c) => r == DiscoveredContent::Content(c),
                Err(e) => if skip_missing {
                    r is Skip
                } else {
                    match e {
                        ErrorKind::ReadFileInput(IoErrorKind::InvalidData, _, p) => r matches DiscoveredContent::SkipNotUtf8(x)
                            && x@ == p@,
                        _ => r matches DiscoveredContent::Fail(RequestError::GetInputContent(s, k))
                            && s@ == self.source@ && k == e,
                    }
                },
            },
    {
        match result {
            Ok(c) => DiscoveredContent::Content(c),
            Err(e) => {
                if skip_missing {
                    return DiscoveredContent::Skip;
                }
                match &e {
                    ErrorKind::ReadFileInput(IoErrorKind::InvalidData, _, p) => {
                        return DiscoveredContent::SkipNotUtf8(owned(p.as_str()));
                    },
                    _ => {},
                }
                DiscoveredContent::Fail(RequestError::GetInputContent(copy_source(&self.source), e))
            },
        }
    }

    /// A failure to resolve this input ends its reading.
    pub fn on_resolution_error(&self, e: ErrorKind) -> (r: RequestError)
        ensures
            r matches RequestError::GetInputContent(s, k) && s@ == self.source@ && k == e,
    {
        RequestError::GetInputContent(copy_source(&self.source), e)
    }
}

/// A copy of an input source.
pub(crate) fn copy_source(s: &InputSource) -> (r: InputSource)
    ensures
        r@ == s@,
{
    match s {
        InputSource::RemoteUrl(u) => InputSource::RemoteUrl(u.clone()),
        InputSource::FsGlob { pattern, ignore_case } => InputSource::FsGlob {
            pattern: owned(pattern.as_str()),
            ignore_case: *ignore_case,
        },
        InputSource::FsPath(p) => InputSource::FsPath(owned(p.as_str())),
        InputSource::Stdin => InputSource::Stdin,
        InputSource::String(t) => InputSource::String(owned(t.as_str())),
    }
}


/// Resolves input sources into concrete sources: glob patterns are
/// expanded into files, directories walked, and excluded paths left out.
/// The walking and matching are done outside; this type decides.
#[derive(Debug, Clone, Copy)]
pub struct InputResolver;

/// The first step of resolving an input.
#[derive(Debug)]
pub enum ResolveStep {
    /// The source is concrete already.
    Ready(ResolvedInputSource),
    /// Expand the glob pattern into the paths that match it.
    ExpandGlob {
        /// The pattern
        pattern: String,
        /// Whether matching respects case
        case_sensitive: bool,
    },
    /// Walk the directory, keeping the files of the wanted extensions.
    WalkDirectory(String),
    /// The file itself, unless it is excluded; its extension does not
    /// matter, as the user named it.
    SingleFile(String),
}

/// How a resolved source is named in a list of sources.
pub open spec fn source_label(s: SourceView) -> Seq<char> {
    match s {
        SourceView::FsPath(p) => p,
        SourceView::RemoteUrl(u) => u,
        SourceView::Stdin => "<stdin>"@,
        SourceView::String(_) => "<raw string>"@,
    }
}

impl InputResolver {
    /// The first step of resolving an input; `is_dir` tells whether a path
    /// given as input is a directory.
    pub fn resolve_step(input: &Input, is_dir: bool) -> (r: ResolveStep)
        ensures
            match input.source@ {
                InputSourceView::RemoteUrl(u) => r matches ResolveStep::Ready(s) && s@ == SourceView::RemoteUrl(u),
                InputSourceView::FsGlob(p, ignore_case) => r matches ResolveStep::ExpandGlob { pattern, case_sensitive }
                    && pattern@ == p && case_sensitive == !ignore_case,
                InputSourceView::FsPath(p) => if is_dir {
                    r matches ResolveStep::WalkDirectory(x) && x@ == p
                } else {
                    r matches ResolveStep::SingleFile(x) && x@ == p
                },
                InputSourceView::Stdin => r matches ResolveStep::Ready(s) && s@ == SourceView::Stdin,
                InputSourceView::String(t) => r matches ResolveStep::Ready(s) && s@ == SourceView::String(t),
            },
    {
        match &input.source {
            InputSource::RemoteUrl(url) => ResolveStep::Ready(ResolvedInputSource::RemoteUrl(url.clone())),
            InputSource::FsGlob { pattern, ignore_case } => ResolveStep::ExpandGlob {
                pattern: owned(pattern.as_str()),
                case_sensitive: !*ignore_case,
            },
            InputSource::FsPath(path) => {
                if is_dir {
                    ResolveStep::WalkDirectory(owned(path.as_str()))
                } else {
                    ResolveStep::SingleFile(owned(path.as_str()))
                }
            },
            InputSource::Stdin => ResolveStep::Ready(ResolvedInputSource::Stdin),
            InputSource::String(s) => ResolveStep::Ready(ResolvedInputSource::String(owned(s.as_str()))),
        }
    }

    /// Whether a path that matches a glob pattern is kept: directories and
    /// excluded paths are left out; the extension does not matter, as the
    /// user asked for the pattern.
    pub fn keep_glob_match(is_dir: bool, excluded: bool) -> (r: bool)
        ensures
            r == (!is_dir && !excluded),
    {
        !is_dir && !excluded
    }

    /// Whether an entry met while walking a directory is kept: it must not
    /// be excluded, and must be a file (an entry of unknown type is left
    /// out).
    pub fn keep_walk_entry(excluded: bool, is_file: Option<bool>) -> (r: bool)
        ensures
            r == (!excluded && is_file == Some(true)),
    {
        if excluded {
            return false;
        }
        match is_file {
            Some(f) => f,
            None => false,
        }
    }

    /// Whether a file given as input is kept: unless it is excluded.
    pub fn keep_single_file(excluded: bool) -> (r: bool)
        ensures
            r == !excluded,
    {
        !excluded
    }

    /// How a resolved source is named in a list of sources: its path or
    /// URL, `<stdin>`, or `<raw string>`.
    pub fn source_label(source: &ResolvedInputSource) -> (r: String)
        ensures
            r@ == source_label(source@),
    {
        match source {
            ResolvedInputSource::FsPath(path) => owned(path.as_str()),
            ResolvedInputSource::RemoteUrl(url) => owned(url.as_str()),
            ResolvedInputSource::Stdin => owned("<stdin>"),
            ResolvedInputSource::String(_) => owned("<raw string>"),
        }
    }
}

} // verus!
