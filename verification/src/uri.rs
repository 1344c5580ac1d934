//! Lychee's representation of links: absolute URIs, raw links found in
//! documents, relative links, and GitHub repository links.
use vstd::prelude::*;
use vstd::string::*;

use crate::address::{
    host_option, ipv4_is_link_local, ipv4_is_loopback, ipv4_is_private, ipv4_link_local,
    ipv4_loopback, ipv4_private, ipv6_is_loopback, ipv6_is_unicast_link_local,
    ipv6_is_unique_local, ipv6_unicast_link_local, ipv6_unique_local, opt_string, opt_view,
    url_domain, url_host, url_parse, url_path, url_path_segments, url_query, url_result,
    url_scheme, url_with_scheme, AbsoluteUrl, Host, HostView, UrlParseError,
};
use crate::error::{ErrorKind, UriError};
use crate::text::{
    append_chars, append_str, chars_eq_str, chars_of, ends_with, ends_with_chars, join,
    occurs_at_chars, slice_of, starts_with, str_eq, string_of, string_views, strings_of, trim_ascii_start, trim_ascii_start_str,
    views,
};

verus! {

/// Whether `s` is a valid e-mail address (`EmailAddress::is_valid`).
pub uninterp spec fn email_is_valid(s: Seq<char>) -> bool;

/// Checks whether `s` is a valid e-mail address, as the `email_address`
/// crate does; the result is the named [`email_is_valid`].
#[verifier::external_body]
fn email_address_is_valid(s: &str) -> (r: bool)
    ensures
        r == email_is_valid(s@),
{
    email_address::EmailAddress::is_valid(s)
}

/// Lychee's own representation of a URI, which encapsulates all supported
/// formats. If the scheme is `mailto`, it's a mail address; otherwise it's
/// treated as a website URL.
#[derive(Debug, PartialEq, Eq, Hash)]
pub struct Uri {
    /// Website URL or mail address
    pub url: AbsoluteUrl,
}

impl Clone for Uri {
    fn clone(&self) -> (r: Self)
        ensures
            r@ == self@,
    {
        Uri { url: self.url.clone() }
    }
}

impl View for Uri {
    type V = Seq<char>;

    open spec fn view(&self) -> Seq<char> {
        self.url@
    }
}

/// What parsing a text as a URI gives: the URL, or the error.
pub open spec fn uri_parse(s: Seq<char>) -> Result<Seq<char>, UriErrorView> {
    if s.len() == 0 {
        Err(UriErrorView::Empty)
    } else {
        match url_parse(s) {
            Ok(u) => Ok(u),
            Err(e) => if email_is_valid(s) && url_parse("mailto:"@ + s) is Ok {
                Ok(url_parse("mailto:"@ + s)->Ok_0)
            } else {
                Err(UriErrorView::Parse(e, s))
            },
        }
    }
}

/// The errors of [`uri_parse`].
pub enum UriErrorView {
    /// The text is empty.
    Empty,
    /// The text does not parse; the failure and the text.
    Parse(UrlParseError, Seq<char>),
}

/// The view of a URI parse result.
pub open spec fn uri_result(r: Result<Uri, ErrorKind>) -> Result<Seq<char>, UriErrorView> {
    match r {
        Ok(u) => Ok(u@),
        Err(ErrorKind::Uri(UriError::Empty)) => Err(UriErrorView::Empty),
        Err(ErrorKind::Uri(UriError::Parse(e, s))) => Err(UriErrorView::Parse(e, s@)),
        Err(_) => Err(UriErrorView::Empty),
    }
}

/// A text with every leading `mailto:` removed.
pub open spec fn without_mailto(s: Seq<char>) -> Seq<char>
    decreases s.len(),
{
    if starts_with(s, "mailto:"@) && "mailto:"@.len() > 0 {
        without_mailto(s.skip("mailto:"@.len() as int))
    } else {
        s
    }
}

impl Uri {
    /// Wraps a URL.
    pub fn from_url(url: AbsoluteUrl) -> (r: Uri)
        ensures
            r@ == url@,
    {
        Uri { url }
    }

    /// Returns the string representation of the `Uri`: for a mail address
    /// the text without the `mailto:` scheme (every leading `mailto:` is
    /// removed), otherwise the URL as it is.
    pub fn as_str(&self) -> (r: &str)
        ensures
            r@ == without_mailto(self@),
    {
        let s = self.url.as_str();
        let v = chars_of(s);
        let prefix = chars_of("mailto:");
        let mut from: usize = 0;
        proof {
            reveal_strlit("mailto:");
            assert(v@.skip(0) =~= v@);
        }
        while occurs_at_chars(v.as_slice(), prefix.as_slice(), from)
            invariant
                from <= v@.len(),
                v@ == s@,
                prefix@ == "mailto:"@,
                without_mailto(v@.skip(from as int)) == without_mailto(v@),
            decreases v@.len() - from,
        {
            proof {
                reveal_strlit("mailto:");
                assert(prefix@.len() == 7);
                assert(from + 7 <= v@.len());
                let t = v@.skip(from as int);
                assert(t.take(7) =~= v@.subrange(from as int, from + 7));
                assert(starts_with(t, "mailto:"@));
                assert(t.skip(7) =~= v@.skip(from + 7));
            }
            assert(from + 7 <= v.len());
            from = from + 7;
        }
        proof {
            reveal_strlit("mailto:");
            let t = v@.skip(from as int);
            if starts_with(t, "mailto:"@) {
                assert(v@.subrange(from as int, from + 7) =~= t.take(7));
            }
        }
        s.substring_char(from, v.len())
    }

    /// Returns the scheme of the URI (e.g. `http` or `mailto`).
    pub fn scheme(&self) -> (r: &str)
        ensures
            r@ == url_scheme(self@),
    {
        self.url.scheme()
    }

    /// Changes this URI's scheme.
    pub(crate) fn set_scheme(&mut self, scheme: &str) -> (r: Result<(), ()>)
        ensures
            match url_with_scheme(old(self)@, scheme@) {
                Some(u) => r is Ok && final(self)@ == u,
                None => r is Err && final(self)@ == old(self)@,
            },
    {
        self.url.set_scheme(scheme)
    }

    /// Returns the domain of the URI (e.g. `example.com`).
    pub fn domain(&self) -> (r: Option<String>)
        ensures
            opt_string(r) == url_domain(self@),
    {
        self.url.domain()
    }

    /// Returns the path of the URI (e.g. `/path/to/resource`).
    pub fn path(&self) -> (r: &str)
        ensures
            r@ == url_path(self@),
    {
        self.url.path()
    }

    /// The `/`-separated path segments, unless the URI cannot be a base.
    pub fn path_segments(&self) -> (r: Option<Vec<String>>)
        ensures
            match r {
                Some(v) => url_path_segments(self@) == Some(string_views(v@)),
                None => url_path_segments(self@) is None,
            },
    {
        match self.url.path_segments() {
            Some(v) => Some(strings_of(&v)),
            None => None,
        }
    }

    /// Returns the IP address (either IPv4 or IPv6) of the URI, or `None`
    /// if its host is a domain or it has none.
    pub fn host_ip(&self) -> (r: Option<Host>)
        ensures
            host_option(r) == match url_host(self@) {
                Some(HostView::Domain(_)) => None,
                h => h,
            },
    {
        match self.url.host() {
            Some(Host::Domain(_)) => None,
            h => h,
        }
    }

    /// Create a new URI with a `https` scheme.
    pub fn to_https(&self) -> (r: Result<Uri, ErrorKind>)
        ensures
            match url_with_scheme(self@, "https"@) {
                Some(u) => (r matches Ok(x) && x@ == u),
                None => (r matches Err(ErrorKind::Uri(UriError::Invalid(u))) && u@ == self@),
            },
    {
        let mut https_uri = self.clone();
        match https_uri.set_scheme("https") {
            Ok(()) => Ok(https_uri),
            Err(()) => Err(ErrorKind::Uri(UriError::Invalid(self.clone()))),
        }
    }

    /// Check if the URI is a valid mail address.
    pub fn is_mail(&self) -> (r: bool)
        ensures
            r == (url_scheme(self@) == "mailto"@),
    {
        str_eq(self.scheme(), "mailto")
    }

    /// Check if the URI is a tel.
    pub fn is_tel(&self) -> (r: bool)
        ensures
            r == (url_scheme(self@) == "tel"@),
    {
        str_eq(self.scheme(), "tel")
    }

    /// Check if the URI is a file.
    pub fn is_file(&self) -> (r: bool)
        ensures
            r == (url_scheme(self@) == "file"@),
    {
        str_eq(self.scheme(), "file")
    }

    /// Check if the URI is a `data` URI.
    pub fn is_data(&self) -> (r: bool)
        ensures
            r == (url_scheme(self@) == "data"@),
    {
        str_eq(self.scheme(), "data")
    }

    /// Returns `true` if the host is a loopback address: `127.0.0.0/8` for
    /// IPv4, `::1` for IPv6.
    pub fn is_loopback(&self) -> (r: bool)
        ensures
            r == match url_host(self@) {
                Some(HostView::Ipv4(a)) => ipv4_is_loopback(a),
                Some(HostView::Ipv6(a)) => ipv6_is_loopback(a),
                _ => false,
            },
    {
        match self.url.host() {
            Some(Host::Ipv4(a)) => ipv4_loopback(a),
            Some(Host::Ipv6(a)) => a == 1,
            _ => false,
        }
    }

    /// Returns `true` if the host is a private IPv4 address or a unique
    /// local IPv6 address (`fc00::/7`).
    pub fn is_private(&self) -> (r: bool)
        ensures
            r == match url_host(self@) {
                Some(HostView::Ipv4(a)) => ipv4_is_private(a),
                Some(HostView::Ipv6(a)) => ipv6_is_unique_local(a),
                _ => false,
            },
    {
        match self.url.host() {
            Some(Host::Ipv4(a)) => ipv4_private(a),
            Some(Host::Ipv6(a)) => ipv6_unique_local(a),
            _ => false,
        }
    }

    /// Returns `true` if the host is a link-local IPv4 address
    /// (`169.254.0.0/16`) or an IPv6 unicast link-local address (`fe80::/10`).
    pub fn is_link_local(&self) -> (r: bool)
        ensures
            r == match url_host(self@) {
                Some(HostView::Ipv4(a)) => ipv4_is_link_local(a),
                Some(HostView::Ipv6(a)) => ipv6_is_unicast_link_local(a),
                _ => false,
            },
    {
        match self.url.host() {
            Some(Host::Ipv4(a)) => ipv4_link_local(a),
            Some(Host::Ipv6(a)) => ipv6_unicast_link_local(a),
            _ => false,
        }
    }

    /// Create a new URI from a string. Relative links are not handled here,
    /// as the base is not known; an e-mail address is taken as a `mailto:`
    /// link.
    pub fn try_from(s: &str) -> (r: Result<Uri, ErrorKind>)
        ensures
            uri_result(r) == uri_parse(s@),
            r matches Err(e) ==> (e is Uri && (e->Uri_0 is Empty || e->Uri_0 is Parse)),
    {
        if s.is_empty() {
            return Err(ErrorKind::Uri(UriError::Empty));
        }
        assert(s@.len() > 0);
        match AbsoluteUrl::parse(s) {
            Ok(url) => Ok(Uri { url }),
            Err(err) => {
                if email_address_is_valid(s) {
                    let mut v: Vec<char> = Vec::new();
                    append_str(&mut v, "mailto:");
                    append_str(&mut v, s);
                    let mail = string_of(v.as_slice());
                    match AbsoluteUrl::parse(mail.as_str()) {
                        Ok(url) => return Ok(Uri { url }),
                        Err(_) => {},
                    }
                }
                let owned = string_of(chars_of(s).as_slice());
                Err(ErrorKind::Uri(UriError::Parse(err, owned)))
            },
        }
    }

    /// Create a new URI from the text of a raw link.
    pub fn from_raw(raw_uri: RawUri) -> (r: Result<Uri, ErrorKind>)
        ensures
            uri_result(r) == uri_parse(raw_uri.text@),
            r matches Err(e) ==> (e is Uri && (e->Uri_0 is Empty || e->Uri_0 is Parse)),
    {
        Uri::try_from(raw_uri.text.as_str())
    }
}

/// A classification of links, to offer fine control over the links that
/// will be checked.
#[derive(Debug, Clone, Copy, PartialEq, Eq, Hash, Structural)]
pub enum UriKind {
    /// Normal web-link that gets rendered as a hyperlink.
    Strict,
    /// Link occurring in non-human-clickable sections like comments,
    /// `<code>`, or `<pre>` tags.
    Fuzzy,
    /// The visibility of the link cannot be inferred during parsing.
    Unknown,
}

/// A span of a [`RawUri`] in the document. Lines and columns are 1-based.
#[derive(Debug, Clone, Copy, PartialEq, Eq, Hash, Structural)]
pub struct RawUriSpan {
    /// The line of the URI.
    pub line: usize,
    /// The column of the URI, if computable.
    pub column: Option<usize>,
}

/// A raw URI that got extracted from a document with a fuzzy parser. It
/// can still be invalid according to stricter URI standards.
#[derive(Debug, Clone, PartialEq, Eq, Hash)]
pub struct RawUri {
    /// Unparsed URI text.
    pub text: String,
    /// Name of the element that contained the URI (e.g. `a`).
    pub element: Option<String>,
    /// Name of the attribute that contained the URI (e.g. `href`).
    pub attribute: Option<String>,
    /// The position of the URI in the document.
    pub span: RawUriSpan,
}

/// The view of a [`RawUri`]: text, element, attribute and span.
pub type RawUriView = (Seq<char>, Option<Seq<char>>, Option<Seq<char>>, RawUriSpan);

impl View for RawUri {
    type V = RawUriView;

    open spec fn view(&self) -> RawUriView {
        (self.text@, opt_string(self.element), opt_string(self.attribute), self.span)
    }
}

/// How `{:?}` writes a text: quoted, with special characters escaped
/// (`<str as Debug>::fmt`).
pub uninterp spec fn debug_quoted(s: Seq<char>) -> Seq<char>;

/// Writes a text as `{:?}` does (`<str as Debug>::fmt`).
#[verifier::external_body]
fn debug_text(s: &str) -> (r: String)
    ensures
        r@ == debug_quoted(s@),
{
    format!("{s:?}")
}

/// How `{:?}` writes an optional text.
pub open spec fn debug_option(o: Option<Seq<char>>) -> Seq<char> {
    match o {
        Some(s) => "Some("@ + debug_quoted(s) + ")"@,
        None => "None"@,
    }
}

/// How a raw link is written: its text and its attribute, as `{:?}` writes
/// them.
pub open spec fn raw_uri_text(r: RawUriView) -> Seq<char> {
    debug_quoted(r.0) + " (Attribute: "@ + debug_option(r.2) + ")"@
}

impl RawUri {
    /// The text of this link and its attribute, as `{:?}` writes them.
    pub fn to_string(&self) -> (r: String)
        ensures
            r@ == raw_uri_text(self@),
    {
        let mut out: Vec<char> = Vec::new();
        let text = debug_text(self.text.as_str());
        append_str(&mut out, text.as_str());
        append_str(&mut out, " (Attribute: ");
        match &self.attribute {
            Some(a) => {
                let quoted = debug_text(a.as_str());
                append_str(&mut out, "Some(");
                append_str(&mut out, quoted.as_str());
                append_str(&mut out, ")");
            },
            None => append_str(&mut out, "None"),
        }
        append_str(&mut out, ")");
        string_of(out.as_slice())
    }

    /// Whether the link is an anchor within the current document.
    pub fn is_anchor(&self) -> (r: bool)
        ensures
            r == (self.text@.len() > 0 && self.text@[0] == '#'),
    {
        let v = chars_of(self.text.as_str());
        v.len() > 0 && v[0] == '#'
    }
}

/// A relative link. Leading whitespace is removed from the contained text.
#[derive(Debug, PartialEq, Eq, Clone)]
pub enum RelativeUri<'a> {
    /// A root-relative link, e.g. `"/help"`: it starts with `/` and not
    /// with `//`.
    Root(&'a str),
    /// A scheme-relative link, e.g. `"//example.com/help"`.
    Scheme(&'a str),
    /// A locally-relative link, such as `"help"`, `"../home"` or `""`.
    Local(&'a str),
}

/// The kind of a relative link: 0 for root-relative, 1 for
/// scheme-relative, 2 for locally-relative.
pub open spec fn relative_kind(text: Seq<char>) -> int {
    let t = trim_ascii_start(text);
    if t.len() >= 2 && t[0] == '/' && t[1] == '/' {
        1
    } else if t.len() >= 1 && t[0] == '/' {
        0
    } else {
        2
    }
}

/// The kind of a [`RelativeUri`], as in [`relative_kind`].
pub open spec fn relative_uri_kind(r: RelativeUri) -> int {
    match r {
        RelativeUri::Root(_) => 0,
        RelativeUri::Scheme(_) => 1,
        RelativeUri::Local(_) => 2,
    }
}

/// The text of a [`RelativeUri`].
pub open spec fn relative_uri_text(r: RelativeUri) -> Seq<char> {
    match r {
        RelativeUri::Root(x) => x@,
        RelativeUri::Scheme(x) => x@,
        RelativeUri::Local(x) => x@,
    }
}

impl<'a> RelativeUri<'a> {
    /// Parses the given text as a relative link: scheme-relative when it
    /// starts with `//`, root-relative when it starts with `/`, and
    /// locally-relative otherwise (after leading whitespace).
    pub fn parse(text: &'a str) -> (r: RelativeUri<'a>)
        ensures
            relative_uri_kind(r) == relative_kind(text@),
            relative_uri_text(r) == trim_ascii_start(text@),
    {
        let t = trim_ascii_start_str(text);
        let v = chars_of(t);
        if v.len() >= 2 && v[0] == '/' && v[1] == '/' {
            RelativeUri::Scheme(t)
        } else if v.len() >= 1 && v[0] == '/' {
            RelativeUri::Root(t)
        } else {
            RelativeUri::Local(t)
        }
    }

    /// Returns the text of the relative link, with leading whitespace
    /// trimmed.
    pub fn link_text(&self) -> (r: &'a str)
        ensures
            r@ == relative_uri_text(*self),
    {
        match self {
            RelativeUri::Root(x) => x,
            RelativeUri::Scheme(x) => x,
            RelativeUri::Local(x) => x,
        }
    }
}

/// Whether the text is a root-relative link.
pub fn is_root_relative_link(text: &str) -> (r: bool)
    ensures
        r == (relative_kind(text@) == 0),
{
    let r = RelativeUri::parse(text);
    match r {
        RelativeUri::Root(_) => true,
        _ => false,
    }
}

/// The result of parsing a string that could be either a full URL or a
/// relative path or fragment.
#[derive(Debug, PartialEq, Eq, Clone)]
pub enum ParsedUri<'a> {
    /// A fully-qualified, absolute URI.
    Absolute(Uri),
    /// A relative URI that requires a base for resolution.
    Relative(RelativeUri<'a>),
}

impl<'a> ParsedUri<'a> {
    /// Parses the given text (after leading whitespace) as either an
    /// absolute or relative link. Fails, with the error of parsing the text
    /// as a URI, when it cannot be parsed as a URL for another reason than
    /// being relative.
    pub fn parse(text: &'a str) -> (r: Result<ParsedUri<'a>, ErrorKind>)
        ensures
            match uri_parse(trim_ascii_start(text@)) {
                Ok(u) => (r matches Ok(ParsedUri::Absolute(x)) && x@ == u),
                Err(UriErrorView::Parse(e, _)) => if e == UrlParseError::RelativeUrlWithoutBase {
                    r matches Ok(ParsedUri::Relative(rel)) && relative_uri_text(rel)
                        == trim_ascii_start(text@) && relative_uri_kind(rel) == relative_kind(
                        trim_ascii_start(text@),
                    )
                } else {
                    r matches Err(ErrorKind::Uri(UriError::Parse(e2, s2))) && e2 == e && s2@
                        == trim_ascii_start(text@)
                },
                Err(UriErrorView::Empty) => r matches Err(ErrorKind::Uri(UriError::Empty)),
            },
    {
        let trimmed = trim_ascii_start_str(text);
        proof {
            lemma_trim_ascii_start_idempotent(text@);
        }
        match Uri::try_from(trimmed) {
            Ok(uri) => Ok(ParsedUri::Absolute(uri)),
            Err(ErrorKind::Uri(UriError::Parse(e, s))) => {
                if matches!(e, UrlParseError::RelativeUrlWithoutBase) {
                    Ok(ParsedUri::Relative(RelativeUri::parse(trimmed)))
                } else {
                    Err(ErrorKind::Uri(UriError::Parse(e, s)))
                }
            },
            Err(e) => Err(e),
        }
    }
}

proof fn lemma_trim_ascii_start_idempotent(s: Seq<char>)
    ensures
        trim_ascii_start(trim_ascii_start(s)) == trim_ascii_start(s),
    decreases s.len(),
{
    if s.len() > 0 && crate::text::is_ascii_ws(s[0]) {
        lemma_trim_ascii_start_idempotent(s.drop_first());
    }
}

// ---------------------------------------------------------------------------
// GitHub links

/// Uri path segments extracted from a GitHub URL.
#[derive(Debug, Clone, PartialEq, Eq, PartialOrd, Ord, Hash)]
pub struct GithubUri {
    /// Organization name
    pub owner: String,
    /// Repository name
    pub repo: String,
    /// e.g. `issues` in `/org/repo/issues`
    pub endpoint: Option<String>,
    /// Whether this URL was rewritten to api.github.com
    pub is_api: bool,
}

/// The view of a [`GithubUri`]: owner, repository, endpoint, API flag.
pub type GithubView = (Seq<char>, Seq<char>, Option<Seq<char>>, bool);

impl View for GithubUri {
    type V = GithubView;

    open spec fn view(&self) -> GithubView {
        (self.owner@, self.repo@, opt_string(self.endpoint), self.is_api)
    }
}

/// The first path segments of github.com that are not repository owners.
pub open spec fn github_excluded_endpoint(s: Seq<char>) -> bool {
    ||| s == "about"@
    ||| s == "collections"@
    ||| s == "events"@
    ||| s == "explore"@
    ||| s == "features"@
    ||| s == "issues"@
    ||| s == "marketplace"@
    ||| s == "new"@
    ||| s == "notifications"@
    ||| s == "pricing"@
    ||| s == "pulls"@
    ||| s == "sponsors"@
    ||| s == "topics"@
    ||| s == "watching"@
}

/// `s` without the suffix `suffix`, when it has it.
pub open spec fn remove_suffix(s: Seq<char>, suffix: Seq<char>) -> Seq<char> {
    if ends_with(s, suffix) {
        s.take(s.len() - suffix.len())
    } else {
        s
    }
}

/// The GitHub repository designated by a URL with the given domain, path
/// segments and query, if it designates one.
pub open spec fn github_of(
    domain: Option<Seq<char>>,
    segments: Option<Seq<Seq<char>>>,
    query: Option<Seq<char>>,
) -> Option<GithubView> {
    match (domain, segments) {
        (Some(d), Some(parts)) => if d == "api.github.com"@ {
            if parts.len() < 3 || parts[0] != "repos"@ {
                None
            } else {
                let endpoint = if parts.len() > 3 && parts[3].len() > 0 {
                    let path_part = join(parts.skip(3), "/"@);
                    match query {
                        Some(q) => Some(path_part + "?"@ + q),
                        None => Some(path_part),
                    }
                } else {
                    None
                };
                Some((parts[1], remove_suffix(parts[2], ".git"@), endpoint, true))
            }
        } else if d == "github.com"@ || d == "www.github.com"@ || d == "raw.githubusercontent.com"@ {
            if parts.len() < 2 || github_excluded_endpoint(parts[0]) {
                None
            } else {
                let endpoint = if parts.len() > 2 && parts[2].len() > 0 {
                    Some(join(parts.skip(2), "/"@))
                } else {
                    None
                };
                Some((parts[0], remove_suffix(parts[1], ".git"@), endpoint, false))
            }
        } else {
            None
        },
        _ => None,
    }
}

fn is_github_excluded_endpoint(s: &str) -> (r: bool)
    ensures
        r == github_excluded_endpoint(s@),
{
    str_eq(s, "about") || str_eq(s, "collections") || str_eq(s, "events") || str_eq(s, "explore")
        || str_eq(s, "features") || str_eq(s, "issues") || str_eq(s, "marketplace") || str_eq(
        s,
        "new",
    ) || str_eq(s, "notifications") || str_eq(s, "pricing") || str_eq(s, "pulls") || str_eq(
        s,
        "sponsors",
    ) || str_eq(s, "topics") || str_eq(s, "watching")
}

fn remove_git_suffix(s: &str) -> (r: String)
    ensures
        r@ == remove_suffix(s@, ".git"@),
{
    let v = chars_of(s);
    let suffix = chars_of(".git");
    if ends_with_chars(v.as_slice(), suffix.as_slice()) {
        string_of(slice_of(v.as_slice(), 0, v.len() - suffix.len()).as_slice())
    } else {
        string_of(v.as_slice())
    }
}

/// Joins strings with `/`.
fn join_slash(parts: &Vec<String>, from: usize) -> (r: String)
    requires
        from <= parts.len(),
    ensures
        r@ == join(string_views(parts@).skip(from as int), "/"@),
{
    let ghost all = string_views(parts@);
    let mut out: Vec<char> = Vec::new();
    let mut i = from;
    while i < parts.len()
        invariant
            from <= i <= parts.len(),
            all == string_views(parts@),
            out@ == join(all.subrange(from as int, i as int), "/"@),
        decreases parts.len() - i,
    {
        let ghost before = out@;
        if i > from {
            append_str(&mut out, "/");
        }
        append_str(&mut out, parts[i].as_str());
        proof {
            let s = all.subrange(from as int, i + 1);
            assert(s.drop_last() == all.subrange(from as int, i as int));
            assert(s.last() == parts@[i as int]@);
            if i == from {
                assert(s.len() == 1);
                assert(before =~= Seq::<char>::empty());
                assert(out@ =~= s[0]);
            } else {
                assert(out@ =~= join(s.drop_last(), "/"@) + "/"@ + s.last());
            }
        }
        i += 1;
    }
    assert(all.subrange(from as int, parts.len() as int) == all.skip(from as int));
    string_of(out.as_slice())
}

impl GithubUri {
    /// Create a new GitHub URI without an endpoint.
    pub fn new(owner: &str, repo: &str) -> (r: Self)
        ensures
            r@ == (owner@, repo@, None::<Seq<char>>, false),
    {
        GithubUri {
            owner: string_of(chars_of(owner).as_slice()),
            repo: string_of(chars_of(repo).as_slice()),
            endpoint: None,
            is_api: false,
        }
    }

    /// Create a new GitHub URI with an endpoint.
    pub fn with_endpoint(owner: &str, repo: &str, endpoint: &str) -> (r: Self)
        ensures
            r@ == (owner@, repo@, Some(endpoint@), false),
    {
        GithubUri {
            owner: string_of(chars_of(owner).as_slice()),
            repo: string_of(chars_of(repo).as_slice()),
            endpoint: Some(string_of(chars_of(endpoint).as_slice())),
            is_api: false,
        }
    }

    /// Extracts the GitHub repository from a URI, if it designates one.
    pub fn gh_org_and_repo(uri: &Uri) -> (r: Result<GithubUri, ErrorKind>)
        ensures
            match github_of(url_domain(uri@), url_path_segments(uri@), url_query(uri@)) {
                Some(g) => (r matches Ok(x) && x@ == g),
                None => (r matches Err(ErrorKind::InvalidGithubUrl(s)) && s@ == uri@),
            },
    {
        let invalid = ErrorKind::InvalidGithubUrl(string_of(chars_of(uri.url.as_str()).as_slice()));
        let domain = match uri.domain() {
            Some(d) => d,
            None => return Err(invalid),
        };
        let parts = match uri.path_segments() {
            Some(p) => p,
            None => return Err(invalid),
        };
        let ghost pv = string_views(parts@);
        if str_eq(domain.as_str(), "api.github.com") {
            if parts.len() < 3 || !str_eq(parts[0].as_str(), "repos") {
                return Err(invalid);
            }
            let owner = string_of(chars_of(parts[1].as_str()).as_slice());
            let repo = remove_git_suffix(parts[2].as_str());
            let endpoint = if parts.len() > 3 && parts[3].as_str().unicode_len() > 0 {
                assert(pv[3].len() > 0) by {
                    assert(pv[3] == parts@[3]@);
                }
                let path_part = join_slash(&parts, 3);
                match uri.url.query() {
                    Some(q) => {
                        let mut v = chars_of(path_part.as_str());
                        append_str(&mut v, "?");
                        append_str(&mut v, q);
                        Some(string_of(v.as_slice()))
                    },
                    None => Some(path_part),
                }
            } else {
                assert(parts.len() > 3 ==> pv[3].len() == 0) by {
                    if parts.len() > 3 {
                        assert(pv[3] == parts@[3]@);
                    }
                }
                None
            };
            return Ok(GithubUri { owner, repo, endpoint, is_api: true });
        }
        if !(str_eq(domain.as_str(), "github.com") || str_eq(domain.as_str(), "www.github.com")
            || str_eq(domain.as_str(), "raw.githubusercontent.com")) {
            return Err(invalid);
        }
        if parts.len() < 2 {
            return Err(invalid);
        }
        if is_github_excluded_endpoint(parts[0].as_str()) {
            return Err(invalid);
        }
        let owner = string_of(chars_of(parts[0].as_str()).as_slice());
        let repo = remove_git_suffix(parts[1].as_str());
        let endpoint = if parts.len() > 2 && parts[2].as_str().unicode_len() > 0 {
            assert(pv[2].len() > 0) by {
                assert(pv[2] == parts@[2]@);
            }
            Some(join_slash(&parts, 2))
        } else {
            assert(parts.len() > 2 ==> pv[2].len() == 0) by {
                if parts.len() > 2 {
                    assert(pv[2] == parts@[2]@);
                }
            }
            None
        };
        Ok(GithubUri { owner, repo, endpoint, is_api: false })
    }

    /// Extracts the GitHub repository from a URI; see
    /// [`GithubUri::gh_org_and_repo`].
    pub fn try_from(uri: &Uri) -> (r: Result<GithubUri, ErrorKind>)
        ensures
            match github_of(url_domain(uri@), url_path_segments(uri@), url_query(uri@)) {
                Some(g) => (r matches Ok(x) && x@ == g),
                None => (r matches Err(ErrorKind::InvalidGithubUrl(s)) && s@ == uri@),
            },
    {
        Self::gh_org_and_repo(uri)
    }

    /// Build a full github.com URL from the URI for pattern matching. For
    /// API URLs, query parameters are part of the endpoint path.
    pub fn build_full_url(&self) -> (r: String)
        ensures
            r@ == github_full_url(self@),
    {
        let mut out: Vec<char> = Vec::new();
        append_str(&mut out, "https://github.com/");
        append_str(&mut out, self.owner.as_str());
        append_str(&mut out, "/");
        append_str(&mut out, self.repo.as_str());
        let ghost base = out@;
        assert(base == "https://github.com/"@ + self.owner@ + "/"@ + self.repo@);
        let endpoint = match &self.endpoint {
            Some(e) => e,
            None => return string_of(out.as_slice()),
        };
        if self.is_api {
            append_str(&mut out, "/");
            append_str(&mut out, endpoint.as_str());
            return string_of(out.as_slice());
        }
        let e = chars_of(endpoint.as_str());
        assert(e@.skip(0) == e@);
        append_str(&mut out, "/");
        match crate::text::find_char_from(e.as_slice(), '?', 0) {
            None => {
                append_chars(&mut out, e.as_slice());
                assert(split_once_char(endpoint@, '?') is None);
            },
            Some(i) => {
                let path = slice_of(e.as_slice(), 0, i);
                let qf = slice_of(e.as_slice(), i + 1, e.len());
                assert(split_once_char(endpoint@, '?') == Some((path@, qf@)));
                append_chars(&mut out, path.as_slice());
                let ghost mid = out@;
                assert(qf@.skip(0) == qf@);
                let (query, fragment) = match crate::text::find_char_from(qf.as_slice(), '#', 0) {
                    Some(j) => {
                        assert(split_once_char(qf@, '#') == Some(
                            (qf@.take(j as int), qf@.skip(j + 1)),
                        ));
                        (slice_of(qf.as_slice(), 0, j), slice_of(qf.as_slice(), j + 1, qf.len()))
                    },
                    None => {
                        assert(split_once_char(qf@, '#') is None);
                        (qf.clone(), Vec::new())
                    },
                };
                proof {
                    reveal_strlit("?");
                    reveal_strlit("#");
                }
                let ghost expect_q: Seq<char> = if query@.len() > 0 {
                    "?"@ + query@
                } else {
                    Seq::<char>::empty()
                };
                let ghost expect_f: Seq<char> = if fragment@.len() > 0 {
                    "#"@ + fragment@
                } else {
                    Seq::<char>::empty()
                };
                if query.len() > 0 {
                    out.push('?');
                    append_chars(&mut out, query.as_slice());
                }
                assert(out@ == mid + expect_q);
                let ghost mid2 = out@;
                if fragment.len() > 0 {
                    out.push('#');
                    append_chars(&mut out, fragment.as_slice());
                }
                assert(out@ == mid2 + expect_f);
                assert(out@ == base + "/"@ + path@ + expect_q + expect_f);
            },
        }
        string_of(out.as_slice())
    }
}

/// The pieces of `s` around the first `c`.
pub open spec fn split_once_char(s: Seq<char>, c: char) -> Option<(Seq<char>, Seq<char>)> {
    match crate::text::find_char(s, c) {
        Some(i) => Some((s.take(i), s.skip(i + 1))),
        None => None,
    }
}

/// The github.com URL of a [`GithubUri`]: the endpoint of an API URL is
/// appended as it is; otherwise it is split into path, query and fragment,
/// and the query and fragment are kept only when they are not empty.
pub open spec fn github_full_url(g: GithubView) -> Seq<char> {
    let base = "https://github.com/"@ + g.0 + "/"@ + g.1;
    match g.2 {
        None => base,
        Some(endpoint) => if g.3 {
            base + "/"@ + endpoint
        } else {
            match split_once_char(endpoint, '?') {
                None => base + "/"@ + endpoint,
                Some((path, qf)) => {
                    let (query, fragment) = match split_once_char(qf, '#') {
                        Some((q, f)) => (q, f),
                        None => (qf, Seq::<char>::empty()),
                    };
                    base + "/"@ + path + (if query.len() > 0 {
                        "?"@ + query
                    } else {
                        Seq::<char>::empty()
                    }) + (if fragment.len() > 0 {
                        "#"@ + fragment
                    } else {
                        Seq::<char>::empty()
                    })
                },
            }
        },
    }
}

/// A URL on `github.com`, `www.github.com` or `raw.githubusercontent.com`
/// whose path has at least two segments, the first of them not a page of
/// GitHub itself (such as `about` or `issues`), names a repository: the
/// first segment is its owner, the second, without a trailing `.git`, its
/// name, the segments after them (when the third is not empty) its
/// endpoint, and it is not an API URL.
pub proof fn law_github_hosts_name_repositories(
    host: Seq<char>,
    parts: Seq<Seq<char>>,
    query: Option<Seq<char>>,
)
    requires
        host == "github.com"@ || host == "www.github.com"@ || host == "raw.githubusercontent.com"@,
        parts.len() >= 2,
        !github_excluded_endpoint(parts[0]),
    ensures
        github_of(Some(host), Some(parts), query) == Some::<GithubView>(
            (
                parts[0],
                remove_suffix(parts[1], ".git"@),
                if parts.len() > 2 && parts[2].len() > 0 {
                    Some(join(parts.skip(2), "/"@))
                } else {
                    None
                },
                false,
            ),
        ),
{
    reveal_strlit("api.github.com");
    reveal_strlit("github.com");
    reveal_strlit("www.github.com");
    reveal_strlit("raw.githubusercontent.com");
    assert(host != "api.github.com"@) by {
        assert(host[0] != "api.github.com"@[0] || host.len() != "api.github.com"@.len());
    }
}

/// A URL on `api.github.com` whose path is `repos/OWNER/REPO[/...]` names
/// the repository REPO (without a trailing `.git`) of OWNER, as an API URL.
pub proof fn law_github_api_names_repositories(parts: Seq<Seq<char>>, query: Option<Seq<char>>)
    requires
        parts.len() >= 3,
        parts[0] == "repos"@,
    ensures
        github_of(Some("api.github.com"@), Some(parts), query) matches Some(g) && g.0 == parts[1]
            && g.1 == remove_suffix(parts[2], ".git"@) && g.3,
{
}

} // verus!
