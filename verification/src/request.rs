//! Requests: links found in an input source, resolved into URIs.
use vstd::prelude::*;

use crate::address::{opt_string, url_from_file_path, url_with_fragment, AbsoluteUrl};
use crate::base::{base_join, source_base, Base, BaseView};
use crate::error::{ErrorKind, ErrorKindView, UriError, UriErrorSpec};
use crate::paths::{file_name_of, path_file_name, resolve, resolve_spec};
use crate::source::{source_text, ResolvedInputSource, SourceView};
use crate::text::{
    append_str, chars_of, find_char, find_char_from, slice_of, split, split_chars, str_eq,
    string_of, trim, trim_chars, views,
};
use crate::uri::{uri_parse, uri_result, without_mailto, RawUri, RawUriSpan, Uri, UriErrorView};

verus! {

/// Why basic auth credentials could not be parsed.
#[derive(Debug, Clone, Copy, PartialEq, Eq, Structural)]
pub enum BasicAuthCredentialsParseError {
    /// The text is not of the form `<username>:<password>`.
    InvalidSyntax,
    /// The password is empty.
    MissingPassword,
    /// The username is empty.
    MissingUsername,
    /// There are more than two values separated by colons: their number.
    TooManyParts(usize),
}

/// A pair of basic auth values: a username and a password.
#[derive(Debug, Clone, PartialEq, Eq, Hash)]
pub struct BasicAuthCredentials {
    /// Basic auth username
    pub username: String,
    /// Basic auth password
    pub password: String,
}

impl View for BasicAuthCredentials {
    type V = (Seq<char>, Seq<char>);

    open spec fn view(&self) -> (Seq<char>, Seq<char>) {
        (self.username@, self.password@)
    }
}

/// What parsing `<username>:<password>` (after trimming) gives.
pub open spec fn credentials_parse(s: Seq<char>) -> Result<
    (Seq<char>, Seq<char>),
    BasicAuthCredentialsParseError,
> {
    let parts = split(trim(s), ':');
    if parts.len() <= 1 {
        Err(BasicAuthCredentialsParseError::InvalidSyntax)
    } else if parts.len() > 2 {
        Err(BasicAuthCredentialsParseError::TooManyParts(parts.len() as usize))
    } else if parts[0].len() == 0 {
        Err(BasicAuthCredentialsParseError::MissingUsername)
    } else if parts[1].len() == 0 {
        Err(BasicAuthCredentialsParseError::MissingPassword)
    } else {
        Ok((parts[0], parts[1]))
    }
}

impl BasicAuthCredentials {
    /// Parses credentials of the form `<username>:<password>`.
    pub fn from_str(credentials: &str) -> (r: Result<Self, BasicAuthCredentialsParseError>)
        ensures
            match credentials_parse(credentials@) {
                Ok(c) => (r matches Ok(x) && x@ == c),
                Err(e) => r == Err::<Self, BasicAuthCredentialsParseError>(e),
            },
    {
        let trimmed = trim_chars(chars_of(credentials).as_slice());
        let parts = split_chars(trimmed.as_slice(), ':');
        assert(views(parts@).len() == parts@.len());
        if parts.len() <= 1 {
            return Err(BasicAuthCredentialsParseError::InvalidSyntax);
        }
        if parts.len() > 2 {
            return Err(BasicAuthCredentialsParseError::TooManyParts(parts.len()));
        }
        assert(views(parts@)[0] == parts@[0]@);
        assert(views(parts@)[1] == parts@[1]@);
        if parts[0].len() == 0 {
            return Err(BasicAuthCredentialsParseError::MissingUsername);
        }
        if parts[1].len() == 0 {
            return Err(BasicAuthCredentialsParseError::MissingPassword);
        }
        Ok(
            BasicAuthCredentials {
                username: string_of(parts[0].as_slice()),
                password: string_of(parts[1].as_slice()),
            },
        )
    }
}

/// Why a basic auth selector could not be parsed.
#[derive(Debug, Clone, Copy, PartialEq, Eq, Structural)]
pub enum BasicAuthSelectorParseError {
    /// The selector is empty or only whitespace.
    EmptyInput,
    /// The URI or the credentials are missing.
    InvalidSyntax,
    /// Only the URL was given.
    MissingCredentials,
    /// There are more than two values separated by spaces: their number.
    TooManyParts(usize),
    /// The credentials could not be parsed.
    BasicAuthCredentialsParseError(BasicAuthCredentialsParseError),
}

/// Basic auth credentials for the URLs which match a regular expression,
/// as written by the user.
#[derive(Debug, Clone, PartialEq)]
pub struct RawBasicAuthSelector {
    /// The basic auth credentials made up of username and password
    pub credentials: BasicAuthCredentials,
    /// The regular expression of the URLs which use the credentials
    pub url: String,
}

/// What parsing `<url> <username>:<password>` (after trimming) gives: the
/// URL pattern and the credentials.
pub open spec fn selector_parse(s: Seq<char>) -> Result<
    (Seq<char>, (Seq<char>, Seq<char>)),
    BasicAuthSelectorParseError,
> {
    let parts = split(trim(s), ' ');
    if parts.len() == 1 {
        Err(BasicAuthSelectorParseError::MissingCredentials)
    } else if parts.len() != 2 {
        Err(BasicAuthSelectorParseError::TooManyParts(parts.len() as usize))
    } else {
        match credentials_parse(parts[1]) {
            Ok(c) => Ok((parts[0], c)),
            Err(e) => Err(BasicAuthSelectorParseError::BasicAuthCredentialsParseError(e)),
        }
    }
}

impl RawBasicAuthSelector {
    /// Parses a selector of the form `<url> <username>:<password>`.
    pub fn from_str(selector: &str) -> (r: Result<Self, BasicAuthSelectorParseError>)
        ensures
            match selector_parse(selector@) {
                Ok((u, c)) => (r matches Ok(x) && x.url@ == u && x.credentials@ == c),
                Err(e) => r == Err::<Self, BasicAuthSelectorParseError>(e),
            },
    {
        let trimmed = trim_chars(chars_of(selector).as_slice());
        let parts = split_chars(trimmed.as_slice(), ' ');
        assert(views(parts@).len() == parts@.len());
        if parts.len() == 1 {
            return Err(BasicAuthSelectorParseError::MissingCredentials);
        }
        if parts.len() != 2 {
            return Err(BasicAuthSelectorParseError::TooManyParts(parts.len()));
        }
        assert(views(parts@)[0] == parts@[0]@);
        assert(views(parts@)[1] == parts@[1]@);
        let text = string_of(parts[1].as_slice());
        match BasicAuthCredentials::from_str(text.as_str()) {
            Ok(credentials) => Ok(RawBasicAuthSelector { credentials, url: string_of(parts[0].as_slice()) }),
            Err(e) => Err(BasicAuthSelectorParseError::BasicAuthCredentialsParseError(e)),
        }
    }
}

/// Basic auth credentials for the URLs which match a regular expression,
/// kept as the text of that expression.
#[derive(Debug, Clone, PartialEq)]
pub struct BasicAuthSelector {
    /// The basic auth credentials made up of username and password
    pub credentials: BasicAuthCredentials,
    /// The regular expression of the URLs which use the credentials
    pub raw_uri_regex: String,
}

/// What parsing a selector `<uri> <username>:<password>` gives: the text is
/// trimmed, must not be empty, and must hold exactly two values separated by
/// a space.
pub open spec fn basic_auth_selector_parse(s: Seq<char>) -> Result<
    (Seq<char>, (Seq<char>, Seq<char>)),
    BasicAuthSelectorParseError,
> {
    let t = trim(s);
    let parts = split(t, ' ');
    if t.len() == 0 {
        Err(BasicAuthSelectorParseError::EmptyInput)
    } else if parts.len() <= 1 {
        Err(BasicAuthSelectorParseError::InvalidSyntax)
    } else if parts.len() > 2 {
        Err(BasicAuthSelectorParseError::TooManyParts(parts.len() as usize))
    } else {
        match credentials_parse(parts[1]) {
            Ok(c) => Ok((parts[0], c)),
            Err(e) => Err(BasicAuthSelectorParseError::BasicAuthCredentialsParseError(e)),
        }
    }
}

impl BasicAuthSelector {
    /// Parses a selector of the form `<uri> <username>:<password>`.
    pub fn from_str(selector: &str) -> (r: Result<Self, BasicAuthSelectorParseError>)
        ensures
            match basic_auth_selector_parse(selector@) {
                Ok((u, c)) => (r matches Ok(x) && x.raw_uri_regex@ == u && x.credentials@ == c),
                Err(e) => r == Err::<Self, BasicAuthSelectorParseError>(e),
            },
    {
        let trimmed = trim_chars(chars_of(selector).as_slice());
        if trimmed.len() == 0 {
            return Err(BasicAuthSelectorParseError::EmptyInput);
        }
        let parts = split_chars(trimmed.as_slice(), ' ');
        assert(views(parts@).len() == parts@.len());
        if parts.len() <= 1 {
            return Err(BasicAuthSelectorParseError::InvalidSyntax);
        }
        if parts.len() > 2 {
            return Err(BasicAuthSelectorParseError::TooManyParts(parts.len()));
        }
        assert(views(parts@)[0] == parts@[0]@);
        assert(views(parts@)[1] == parts@[1]@);
        let text = string_of(parts[1].as_slice());
        match BasicAuthCredentials::from_str(text.as_str()) {
            Ok(credentials) => Ok(
                BasicAuthSelector { credentials, raw_uri_regex: string_of(parts[0].as_slice()) },
            ),
            Err(e) => Err(BasicAuthSelectorParseError::BasicAuthCredentialsParseError(e)),
        }
    }
}

/// A checkable element extracted from a document, containing a URI and its
/// location within the source.
#[derive(Debug, PartialEq, Eq, Hash, Clone)]
pub struct Request {
    /// The extracted URI, which can be checked
    pub uri: Uri,
    /// The resource which contains the given URI
    pub source: ResolvedInputSource,
    /// How the URI is rendered inside a document (for example `img`, `a`,
    /// `pre`, or `code`); `None` for plaintext input.
    pub element: Option<String>,
    /// What attribute (e.g. `href`) the URI is contained in
    pub attribute: Option<String>,
    /// Where the URI is located
    pub span: Option<RawUriSpan>,
    /// Basic auth credentials
    pub credentials: Option<BasicAuthCredentials>,
}

/// The view of a [`Request`]: URI, source, element, attribute, span and
/// credentials.
pub type RequestView = (
    Seq<char>,
    SourceView,
    Option<Seq<char>>,
    Option<Seq<char>>,
    Option<RawUriSpan>,
    Option<(Seq<char>, Seq<char>)>,
);

/// The view of optional credentials.
pub open spec fn opt_credentials(c: Option<BasicAuthCredentials>) -> Option<(Seq<char>, Seq<char>)> {
    match c {
        Some(x) => Some(x@),
        None => None,
    }
}

impl View for Request {
    type V = RequestView;

    open spec fn view(&self) -> RequestView {
        (
            self.uri@,
            self.source@,
            opt_string(self.element),
            opt_string(self.attribute),
            self.span,
            opt_credentials(self.credentials),
        )
    }
}

fn copy_opt_string(o: &Option<String>) -> (r: Option<String>)
    ensures
        opt_string(r) == opt_string(*o),
{
    match o {
        Some(s) => Some(string_of(chars_of(s.as_str()).as_slice())),
        None => None,
    }
}

fn opt_string_eq(a: &Option<String>, b: &Option<String>) -> (r: bool)
    ensures
        r == (opt_string(*a) == opt_string(*b)),
{
    match (a, b) {
        (Some(x), Some(y)) => str_eq(x.as_str(), y.as_str()),
        (None, None) => true,
        _ => false,
    }
}

fn source_eq(a: &ResolvedInputSource, b: &ResolvedInputSource) -> (r: bool)
    ensures
        r == (a@ == b@),
{
    match (a, b) {
        (ResolvedInputSource::RemoteUrl(x), ResolvedInputSource::RemoteUrl(y)) => str_eq(
            x.as_str(),
            y.as_str(),
        ),
        (ResolvedInputSource::FsPath(x), ResolvedInputSource::FsPath(y)) => str_eq(
            x.as_str(),
            y.as_str(),
        ),
        (ResolvedInputSource::Stdin, ResolvedInputSource::Stdin) => true,
        (ResolvedInputSource::String(x), ResolvedInputSource::String(y)) => str_eq(
            x.as_str(),
            y.as_str(),
        ),
        _ => false,
    }
}

fn span_eq(a: &Option<RawUriSpan>, b: &Option<RawUriSpan>) -> (r: bool)
    ensures
        r == (*a == *b),
{
    match (a, b) {
        (Some(x), Some(y)) => x.line == y.line && match (x.column, y.column) {
            (Some(c), Some(d)) => c == d,
            (None, None) => true,
            _ => false,
        },
        (None, None) => true,
        _ => false,
    }
}

fn credentials_eq(a: &Option<BasicAuthCredentials>, b: &Option<BasicAuthCredentials>) -> (r: bool)
    ensures
        r == (opt_credentials(*a) == opt_credentials(*b)),
{
    match (a, b) {
        (Some(x), Some(y)) => str_eq(x.username.as_str(), y.username.as_str()) && str_eq(
            x.password.as_str(),
            y.password.as_str(),
        ),
        (None, None) => true,
        _ => false,
    }
}

impl Request {
    /// The request as text: its URI (as [`Uri::as_str`] writes it), and its
    /// source in parentheses.
    pub fn to_string(&self) -> (r: String)
        ensures
            r@ == without_mailto(self.uri@) + " ("@ + source_text(self.source@) + ")"@,
    {
        let mut out: Vec<char> = Vec::new();
        append_str(&mut out, self.uri.as_str());
        append_str(&mut out, " (");
        let src = self.source.to_string();
        append_str(&mut out, src.as_str());
        append_str(&mut out, ")");
        string_of(out.as_slice())
    }

    /// A request for a URI found in a source.
    pub fn new(
        uri: Uri,
        source: ResolvedInputSource,
        element: Option<String>,
        attribute: Option<String>,
        credentials: Option<BasicAuthCredentials>,
    ) -> (r: Self)
        ensures
            r@ == (
                uri@,
                source@,
                opt_string(element),
                opt_string(attribute),
                None::<RawUriSpan>,
                opt_credentials(credentials),
            ),
    {
        Request { uri, source, element, attribute, span: None, credentials }
    }

    /// Sets the element.
    pub fn with_element(self, element: String) -> (r: Self)
        ensures
            r@ == (self@.0, self@.1, Some(element@), self@.3, self@.4, self@.5),
    {
        let mut s = self;
        s.element = Some(element);
        s
    }

    /// Sets the attribute.
    pub fn with_attribute(self, attribute: String) -> (r: Self)
        ensures
            r@ == (self@.0, self@.1, self@.2, Some(attribute@), self@.4, self@.5),
    {
        let mut s = self;
        s.attribute = Some(attribute);
        s
    }

    /// Sets the span.
    pub fn with_span(self, span: RawUriSpan) -> (r: Self)
        ensures
            r@ == (self@.0, self@.1, self@.2, self@.3, Some(span), self@.5),
    {
        let mut s = self;
        s.span = Some(span);
        s
    }

    /// Sets the credentials.
    pub fn with_credentials(self, credentials: BasicAuthCredentials) -> (r: Self)
        ensures
            r@ == (self@.0, self@.1, self@.2, self@.3, self@.4, Some(credentials@)),
    {
        let mut s = self;
        s.credentials = Some(credentials);
        s
    }

    /// A request for a URI whose source is the URI itself.
    pub fn from_uri(uri: Uri) -> (r: Self)
        ensures
            r@ == (
                uri@,
                SourceView::RemoteUrl(uri@),
                None::<Seq<char>>,
                None::<Seq<char>>,
                None::<RawUriSpan>,
                None::<(Seq<char>, Seq<char>)>,
            ),
    {
        let url = uri.url.clone();
        Request::new(uri, ResolvedInputSource::RemoteUrl(url), None, None, None)
    }

    /// A request for a link given as text, whose source is the text.
    pub fn try_from(s: &str) -> (r: Result<Self, ErrorKind>)
        ensures
            match uri_parse(s@) {
                Ok(u) => (r matches Ok(x) && x@ == (
                    u,
                    SourceView::String(s@),
                    None::<Seq<char>>,
                    None::<Seq<char>>,
                    None::<RawUriSpan>,
                    None::<(Seq<char>, Seq<char>)>,
                )),
                Err(e) => (r matches Err(x) && x is Uri && uri_result(Err::<Uri, ErrorKind>(x))
                    == Err::<Seq<char>, UriErrorView>(e)),
            },
    {
        let uri = match Uri::try_from(s) {
            Ok(u) => u,
            Err(e) => return Err(e),
        };
        Ok(
            Request::new(
                uri,
                ResolvedInputSource::String(string_of(chars_of(s).as_slice())),
                None,
                None,
                None,
            ),
        )
    }

    /// Whether two requests are the same.
    pub fn same_as(&self, other: &Request) -> (r: bool)
        ensures
            r == (self@ == other@),
    {
        str_eq(self.uri.url.as_str(), other.uri.url.as_str()) && source_eq(&self.source, &other.source)
            && opt_string_eq(&self.element, &other.element) && opt_string_eq(
            &self.attribute,
            &other.attribute,
        ) && span_eq(&self.span, &other.span) && credentials_eq(
            &self.credentials,
            &other.credentials,
        )
    }
}

} // verus!
