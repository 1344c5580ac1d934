//! Bases against which relative links are resolved.
use vstd::prelude::*;

use crate::address::{
    url_cannot_be_a_base, url_from_directory_path, url_from_file_path, url_join,
    url_make_relative, url_parse, url_scheme, url_to_file_path, url_with_fragment,
    url_with_path, url_with_query, AbsoluteUrl, UrlParseError,
};
use crate::error::{ErrorKind, UriError};
use crate::paths::{is_absolute, join_path, path_is_absolute, path_join};
use crate::source::{ResolvedInputSource, SourceView};
use crate::text::{append_str, chars_of, str_eq, string_of, trim_ascii_start, trim_ascii_start_str};
use crate::uri::{is_root_relative_link, relative_kind, uri_parse, Uri, UriErrorView};

verus! {

/// The view of an optional URL.
pub open spec fn opt_url(u: Option<AbsoluteUrl>) -> Option<Seq<char>> {
    match u {
        Some(x) => Some(x@),
        None => None,
    }
}

/// The URL of a parse or join result, if it succeeded.
pub open spec fn ok_url(r: Result<Seq<char>, UrlParseError>) -> Option<Seq<char>> {
    match r {
        Ok(u) => Some(u),
        Err(_) => None,
    }
}

/// When encountering links without a full domain in a document, the base
/// determines where this resource can be found. Both local and remote
/// targets are supported.
#[derive(Debug, PartialEq, Eq, Clone)]
pub enum Base {
    /// Local file path pointing to root directory
    Local(String),
    /// Remote URL pointing to a website homepage
    Remote(AbsoluteUrl),
}

/// The view of a [`Base`].
pub enum BaseView {
    /// A local directory.
    Local(Seq<char>),
    /// A remote URL.
    Remote(Seq<char>),
}

impl View for Base {
    type V = BaseView;

    open spec fn view(&self) -> BaseView {
        match self {
            Base::Local(p) => BaseView::Local(p@),
            Base::Remote(u) => BaseView::Remote(u@),
        }
    }
}

/// The URL of `link` relative to a base: joined with a remote base, or the
/// `file:` URL of the path joined with a local base.
pub open spec fn base_join(base: BaseView, link: Seq<char>) -> Option<Seq<char>> {
    match base {
        BaseView::Remote(u) => ok_url(url_join(u, link)),
        BaseView::Local(p) => url_from_file_path(path_join(p, link)),
    }
}

/// The base of a remote source: its URL with empty path and no query or
/// fragment.
pub open spec fn source_base(source: SourceView) -> Option<BaseView> {
    match source {
        SourceView::RemoteUrl(u) => Some(
            BaseView::Remote(url_with_fragment(url_with_query(url_with_path(u, ""@), None), None)),
        ),
        _ => None,
    }
}

/// What parsing a base gives: an absolute path is a local base; a URL that
/// can be a base is a remote base; anything else is an error with the text
/// and the reason.
pub open spec fn base_parse(value: Seq<char>) -> Result<BaseView, (Seq<char>, Seq<char>)> {
    if path_is_absolute(value) {
        Ok(BaseView::Local(value))
    } else {
        match url_parse(value) {
            Ok(u) => if url_cannot_be_a_base(u) {
                Err((value, "The given URL cannot be used as a base URL"@))
            } else {
                Ok(BaseView::Remote(u))
            },
            Err(_) => Err(
                (value, "Base must either be a URL (with scheme) or an absolute local path"@),
            ),
        }
    }
}

impl Base {
    /// Joins a link with this base.
    pub fn join(&self, link: &str) -> (r: Option<AbsoluteUrl>)
        ensures
            opt_url(r) == base_join(self@, link@),
    {
        match self {
            Base::Remote(url) => match url.join(link) {
                Ok(u) => Some(u),
                Err(_) => None,
            },
            Base::Local(path) => {
                let full_path = join_path(path.as_str(), link);
                match AbsoluteUrl::from_file_path(full_path.as_str()) {
                    Ok(u) => Some(u),
                    Err(_) => None,
                }
            },
        }
    }

    /// The base of an input source: for a remote URL, the URL with just the
    /// scheme, credentials, host and port; other sources have none.
    pub fn from_source(source: &ResolvedInputSource) -> (r: Option<Base>)
        ensures
            match source_base(source@) {
                Some(b) => (r matches Some(x) && x@ == b),
                None => r is None,
            },
    {
        match source {
            ResolvedInputSource::RemoteUrl(url) => {
                let mut base_url = url.clone();
                base_url.set_path("");
                base_url.set_query(None);
                base_url.set_fragment(None);
                Some(Base::Remote(base_url))
            },
            _ => None,
        }
    }

    /// Parses a base: an absolute local path, or a URL that can be a base.
    pub fn try_from(value: &str) -> (r: Result<Base, ErrorKind>)
        ensures
            match base_parse(value@) {
                Ok(b) => (r matches Ok(x) && x@ == b),
                Err((v, m)) => (r matches Err(ErrorKind::Uri(UriError::InvalidBase(x, y))) && x@
                    == v && y@ == m),
            },
    {
        if is_absolute(value) {
            return Ok(Base::Local(string_of(chars_of(value).as_slice())));
        }
        match AbsoluteUrl::parse(value) {
            Ok(url) => {
                if url.cannot_be_a_base() {
                    return Err(
                        ErrorKind::Uri(
                            UriError::InvalidBase(
                                string_of(chars_of(value).as_slice()),
                                string_of(
                                    chars_of("The given URL cannot be used as a base URL").as_slice(),
                                ),
                            ),
                        ),
                    );
                }
                Ok(Base::Remote(url))
            },
            Err(_) => Err(
                ErrorKind::Uri(
                    UriError::InvalidBase(
                        string_of(chars_of(value).as_slice()),
                        string_of(
                            chars_of(
                                "Base must either be a URL (with scheme) or an absolute local path",
                            ).as_slice(),
                        ),
                    ),
                ),
            ),
        }
    }
}

/// Information used for resolving relative URLs within a particular input
/// source. A `BaseInfo` may be built from input sources which cannot
/// resolve relative links (for instance, stdin), or which can resolve
/// locally-relative links but not root-relative ones.
#[derive(Debug, PartialEq, Eq, Clone)]
pub enum BaseInfo {
    /// No base information is available: only fully-qualified links can be
    /// parsed.
    NoBase,
    /// A base which cannot resolve root-relative links: a `file:` URL whose
    /// root directory is not known.
    NoRoot(AbsoluteUrl),
    /// A full base made up of an origin and a (possibly empty) locally- or
    /// root-relative path, which can resolve all kinds of relative links.
    Full(AbsoluteUrl, String),
}

/// The view of a [`BaseInfo`].
pub enum BaseInfoView {
    /// No base.
    NoBase,
    /// A base without root.
    NoRoot(Seq<char>),
    /// An origin and a path.
    Full(Seq<char>, Seq<char>),
}

impl View for BaseInfo {
    type V = BaseInfoView;

    open spec fn view(&self) -> BaseInfoView {
        match self {
            BaseInfo::NoBase => BaseInfoView::NoBase,
            BaseInfo::NoRoot(u) => BaseInfoView::NoRoot(u@),
            BaseInfo::Full(u, p) => BaseInfoView::Full(u@, p@),
        }
    }
}

/// The origin of a URL (the URL joined with `/`) and the path from it to
/// the URL, when both exist.
pub open spec fn split_origin(url: Seq<char>) -> Option<(Seq<char>, Seq<char>)> {
    match url_join(url, "/"@) {
        Ok(origin) => match url_make_relative(origin, url) {
            Some(sub) => Some((origin, sub)),
            None => None,
        },
        Err(_) => None,
    }
}

/// The base of a source URL: a `file:` URL has no root; another URL is
/// split into origin and path; a URL that cannot be split gives no base.
pub open spec fn base_of_source_url(url: Seq<char>) -> BaseInfoView {
    if url_scheme(url) == "file"@ {
        BaseInfoView::NoRoot(url)
    } else {
        match split_origin(url) {
            Some((o, p)) => BaseInfoView::Full(o, p),
            None => BaseInfoView::NoBase,
        }
    }
}

/// The base of a URL that must be usable as a base.
pub open spec fn base_of_base_url(url: Seq<char>) -> Result<BaseInfoView, (Seq<char>, Seq<char>)> {
    if url_cannot_be_a_base(url) {
        Err((url, "The given URL cannot be used as a base URL"@))
    } else {
        Ok(base_of_source_url(url))
    }
}

/// A base without root promoted to a full base whose origin is its own URL.
pub open spec fn with_path_as_origin(b: BaseInfoView) -> BaseInfoView {
    match b {
        BaseInfoView::NoRoot(u) => BaseInfoView::Full(u, Seq::<char>::empty()),
        _ => b,
    }
}

/// The base of a directory path, which must be absolute.
pub open spec fn base_of_path(path: Seq<char>) -> Result<BaseInfoView, (Seq<char>, Seq<char>)> {
    match url_from_directory_path(path) {
        None => Err(
            (path, "Base must either be a full URL (with scheme) or an absolute local path"@),
        ),
        Some(u) => match base_of_base_url(u) {
            Ok(b) => Ok(with_path_as_origin(b)),
            Err(e) => Err(e),
        },
    }
}

/// The URL of a base: its own URL, or its origin joined with its path.
pub open spec fn base_info_url(b: BaseInfoView) -> Option<Seq<char>> {
    match b {
        BaseInfoView::NoBase => None,
        BaseInfoView::NoRoot(u) => Some(u),
        BaseInfoView::Full(o, p) => ok_url(url_join(o, p)),
    }
}

/// The scheme of the URL of a base.
pub open spec fn base_info_scheme(b: BaseInfoView) -> Option<Seq<char>> {
    match b {
        BaseInfoView::NoBase => None,
        BaseInfoView::NoRoot(u) => Some(url_scheme(u)),
        BaseInfoView::Full(u, _) => Some(url_scheme(u)),
    }
}

/// How much a base can resolve: nothing, locally-relative links, or all
/// relative links.
pub open spec fn base_rank(b: BaseInfoView) -> int {
    match b {
        BaseInfoView::NoBase => 0,
        BaseInfoView::NoRoot(_) => 1,
        BaseInfoView::Full(_, _) => 2,
    }
}

/// The errors of resolving a link against a base.
pub enum ResolveErrorView {
    /// The text is empty.
    Empty,
    /// The text could not be parsed or joined: the failure and the text.
    Parse(UrlParseError, Seq<char>),
    /// A root-relative link with a base that has no root.
    RootRelativeWithoutRoot(Seq<char>),
}

/// How a relative link is resolved against a base.
pub open spec fn join_relative(b: BaseInfoView, text: Seq<char>) -> Result<Seq<char>, UrlParseError> {
    match b {
        BaseInfoView::NoBase => Err(UrlParseError::RelativeUrlWithoutBase),
        BaseInfoView::NoRoot(base) => url_join(base, text),
        BaseInfoView::Full(origin, subpath) => if relative_kind(text) == 0 && url_scheme(origin)
            == "file"@ {
            url_join(origin, "."@ + trim_ascii_start(text))
        } else {
            match url_join(origin, subpath) {
                Ok(x) => url_join(x, text),
                Err(e) => Err(e),
            }
        },
    }
}

/// What parsing a link against a base gives: the link itself when it is a
/// full URL; otherwise, for a link that is relative, its resolution against
/// the base, which fails for a root-relative link when the base has no
/// root.
pub open spec fn resolve_link(b: BaseInfoView, text: Seq<char>) -> Result<Seq<char>, ResolveErrorView> {
    match uri_parse(text) {
        Ok(u) => Ok(u),
        Err(UriErrorView::Empty) => Err(ResolveErrorView::Empty),
        Err(UriErrorView::Parse(e, s)) => if e == UrlParseError::RelativeUrlWithoutBase {
            if base_rank(b) != 2 && relative_kind(text) == 0 {
                Err(ResolveErrorView::RootRelativeWithoutRoot(text))
            } else {
                match join_relative(b, text) {
                    Ok(u) => Ok(u),
                    Err(e2) => Err(ResolveErrorView::Parse(e2, text)),
                }
            }
        } else {
            Err(ResolveErrorView::Parse(e, s))
        },
    }
}

/// The view of a resolution result.
pub open spec fn resolve_result(r: Result<AbsoluteUrl, ErrorKind>) -> Result<Seq<char>, ResolveErrorView> {
    match r {
        Ok(u) => Ok(u@),
        Err(ErrorKind::Uri(UriError::Parse(e, s))) => Err(ResolveErrorView::Parse(e, s@)),
        Err(ErrorKind::Uri(UriError::RootRelativeWithoutRoot(s))) => Err(
            ResolveErrorView::RootRelativeWithoutRoot(s@),
        ),
        Err(_) => Err(ResolveErrorView::Empty),
    }
}

/// The base that is used for a link when a root directory is given: the
/// root directory, when the base has no URL or a `file:` one and the link
/// is root-relative; otherwise the base itself.
pub open spec fn base_with_root_dir(
    b: BaseInfoView,
    text: Seq<char>,
    root_dir: Option<Seq<char>>,
) -> BaseInfoView {
    match root_dir {
        Some(root) => if (base_info_scheme(b) is None || base_info_scheme(b) == Some("file"@))
            && relative_kind(text) == 0 {
            BaseInfoView::Full(root, Seq::<char>::empty())
        } else {
            b
        },
        None => b,
    }
}

/// What parsing a base gives: nothing for the empty text; a URL that is
/// not a one-letter scheme (such as a Windows drive) as a base URL;
/// anything else as a directory path.
pub open spec fn base_info_parse(value: Seq<char>) -> Result<BaseInfoView, (Seq<char>, Seq<char>)> {
    if value.len() == 0 {
        Ok(BaseInfoView::NoBase)
    } else {
        match url_or_path(value) {
            Ok(u) => base_of_base_url(u),
            Err(p) => base_of_path(p),
        }
    }
}

/// Whether a text is taken as a URL rather than a path: it parses as a URL
/// whose scheme is longer than one letter.
pub open spec fn url_or_path(input: Seq<char>) -> Result<Seq<char>, Seq<char>> {
    match url_parse(input) {
        Ok(u) => if url_scheme(u).len() == 1 {
            Err(input)
        } else {
            Ok(u)
        },
        Err(_) => Err(input),
    }
}

/// Parses a text which might be a URL or a filesystem path: `Ok` with the
/// URL when it is unambiguously a URL, `Err` with the text otherwise. A
/// one-letter scheme is taken as a Windows drive, hence as a path.
pub fn parse_url_or_path(input: &str) -> (r: Result<AbsoluteUrl, &str>)
    ensures
        match url_or_path(input@) {
            Ok(u) => (r matches Ok(x) && x@ == u),
            Err(p) => (r matches Err(x) && x@ == p),
        },
{
    match AbsoluteUrl::parse(input) {
        Ok(url) => {
            if url.scheme().unicode_len() == 1 {
                Err(input)
            } else {
                Ok(url)
            }
        },
        Err(_) => Err(input),
    }
}

fn invalid_base(value: &str, message: &str) -> (r: ErrorKind)
    ensures
        r matches ErrorKind::Uri(UriError::InvalidBase(x, y)) && x@ == value@ && y@ == message@,
{
    ErrorKind::Uri(
        UriError::InvalidBase(
            string_of(chars_of(value).as_slice()),
            string_of(chars_of(message).as_slice()),
        ),
    )
}

impl BaseInfo {
    /// Constructs [`BaseInfo::NoBase`].
    pub fn none() -> (r: Self)
        ensures
            r@ == BaseInfoView::NoBase,
    {
        BaseInfo::NoBase
    }

    /// Constructs [`BaseInfo::Full`] with the given fields.
    pub fn full(origin: AbsoluteUrl, path: String) -> (r: Self)
        ensures
            r@ == BaseInfoView::Full(origin@, path@),
    {
        BaseInfo::Full(origin, path)
    }

    /// Splits a URL into its origin and the path from the origin to it;
    /// fails for URLs which cannot be a base.
    fn split_url_origin_and_path(url: &AbsoluteUrl) -> (r: Option<(AbsoluteUrl, String)>)
        ensures
            match split_origin(url@) {
                Some((o, p)) => (r matches Some((x, y)) && x@ == o && y@ == p),
                None => r is None,
            },
    {
        let origin = match url.join("/") {
            Ok(o) => o,
            Err(_) => return None,
        };
        match origin.make_relative(url) {
            Some(subpath) => Some((origin, subpath)),
            None => None,
        }
    }

    /// The base of a source URL: [`BaseInfo::NoRoot`] for a `file:` URL,
    /// [`BaseInfo::Full`] from the origin and path of another URL, and
    /// [`BaseInfo::NoBase`] for a URL which cannot be a base.
    pub fn from_source_url(url: &AbsoluteUrl) -> (r: Self)
        ensures
            r@ == base_of_source_url(url@),
    {
        if str_eq(url.scheme(), "file") {
            BaseInfo::NoRoot(url.clone())
        } else {
            match Self::split_url_origin_and_path(url) {
                Some((origin, path)) => Self::full(origin, path),
                None => Self::none(),
            }
        }
    }

    /// The base of a URL, which must be usable as a base (not, say, a
    /// `data:` URL).
    pub fn from_base_url(url: &AbsoluteUrl) -> (r: Result<BaseInfo, ErrorKind>)
        ensures
            match base_of_base_url(url@) {
                Ok(b) => (r matches Ok(x) && x@ == b),
                Err((v, m)) => (r matches Err(ErrorKind::Uri(UriError::InvalidBase(x, y))) && x@
                    == v && y@ == m),
            },
    {
        if url.cannot_be_a_base() {
            return Err(invalid_base(url.as_str(), "The given URL cannot be used as a base URL"));
        }
        Ok(Self::from_source_url(url))
    }

    /// The base of an absolute directory path: root-relative links go to
    /// the directory.
    pub fn from_path(path: &str) -> (r: Result<BaseInfo, ErrorKind>)
        ensures
            match base_of_path(path@) {
                Ok(b) => (r matches Ok(x) && x@ == b),
                Err((v, m)) => (r matches Err(ErrorKind::Uri(UriError::InvalidBase(x, y))) && x@
                    == v && y@ == m),
            },
    {
        let url = match AbsoluteUrl::from_directory_path(path) {
            Ok(u) => u,
            Err(_) => {
                return Err(
                    invalid_base(
                        path,
                        "Base must either be a full URL (with scheme) or an absolute local path",
                    ),
                );
            },
        };
        match Self::from_base_url(&url) {
            Ok(x) => Ok(x.use_fs_path_as_origin()),
            Err(e) => Err(e),
        }
    }

    /// Promotes a [`BaseInfo::NoRoot`] to a [`BaseInfo::Full`] whose origin
    /// is the filesystem root, so that root-relative links go there. Other
    /// variants are unchanged.
    pub fn use_fs_root_as_origin(&self) -> (r: Self)
        requires
            self@ matches BaseInfoView::NoRoot(u) ==> split_origin(u) is Some,
        ensures
            r@ == match self@ {
                BaseInfoView::NoRoot(u) => match split_origin(u) {
                    Some((o, p)) => BaseInfoView::Full(o, p),
                    None => BaseInfoView::NoRoot(u),
                },
                b => b,
            },
    {
        match self {
            BaseInfo::NoRoot(url) => {
                match Self::split_url_origin_and_path(url) {
                    Some((fs_root, subpath)) => Self::full(fs_root, subpath),
                    None => self.clone_base(),
                }
            },
            _ => self.clone_base(),
        }
    }

    /// [`BaseInfo::use_fs_root_as_origin`] where the URL of a base without
    /// root can be split into origin and path; `None` where it cannot.
    pub fn try_use_fs_root_as_origin(&self) -> (r: Option<Self>)
        ensures
            match self@ {
                BaseInfoView::NoRoot(u) => match split_origin(u) {
                    Some((o, p)) => (r matches Some(x) && x@ == BaseInfoView::Full(o, p)),
                    None => r is None,
                },
                b => (r matches Some(x) && x@ == b),
            },
    {
        if let BaseInfo::NoRoot(url) = self {
            if Self::split_url_origin_and_path(url).is_none() {
                return None;
            }
        }
        Some(self.use_fs_root_as_origin())
    }

    fn clone_base(&self) -> (r: Self)
        ensures
            r@ == self@,
    {
        match self {
            BaseInfo::NoBase => BaseInfo::NoBase,
            BaseInfo::NoRoot(u) => BaseInfo::NoRoot(u.clone()),
            BaseInfo::Full(u, p) => BaseInfo::Full(u.clone(), string_of(chars_of(p.as_str()).as_slice())),
        }
    }

    /// Promotes a [`BaseInfo::NoRoot`] to a [`BaseInfo::Full`] whose origin
    /// is the URL itself, so that root-relative links go to that URL. Other
    /// variants are unchanged.
    pub fn use_fs_path_as_origin(&self) -> (r: Self)
        ensures
            r@ == with_path_as_origin(self@),
    {
        match self {
            BaseInfo::NoRoot(url) => Self::full(url.clone(), String::new()),
            _ => self.clone_base(),
        }
    }

    /// The URL of this base, joining the origin and path if needed.
    pub fn url(&self) -> (r: Option<AbsoluteUrl>)
        ensures
            opt_url(r) == base_info_url(self@),
    {
        match self {
            BaseInfo::NoBase => None,
            BaseInfo::NoRoot(url) => Some(url.clone()),
            BaseInfo::Full(url, path) => match url.join(path.as_str()) {
                Ok(u) => Some(u),
                Err(_) => None,
            },
        }
    }

    /// The filesystem path of this base, when its URL is a `file:` URL.
    pub fn to_file_path(&self) -> (r: Option<String>)
        ensures
            match r {
                Some(p) => base_info_url(self@) matches Some(u) && url_scheme(u) == "file"@
                    && url_to_file_path(u) == Some(p@),
                None => base_info_url(self@) matches Some(u) ==> (url_scheme(u) != "file"@
                    || url_to_file_path(u) is None),
            },
    {
        match self.url() {
            Some(url) => {
                if str_eq(url.scheme(), "file") {
                    match url.to_file_path() {
                        Ok(p) => Some(p),
                        Err(_) => None,
                    }
                } else {
                    None
                }
            },
            None => None,
        }
    }

    /// The scheme of the underlying URL.
    pub fn scheme(&self) -> (r: Option<&str>)
        ensures
            match r {
                Some(s) => base_info_scheme(self@) == Some(s@),
                None => base_info_scheme(self@) is None,
            },
    {
        match self {
            BaseInfo::NoBase => None,
            BaseInfo::NoRoot(url) => Some(url.scheme()),
            BaseInfo::Full(url, _) => Some(url.scheme()),
        }
    }

    /// Whether this is [`BaseInfo::NoBase`].
    pub fn is_none(&self) -> (r: bool)
        ensures
            r == (base_rank(self@) == 0),
    {
        matches!(self, BaseInfo::NoBase)
    }

    /// Whether this base can resolve root-relative links; if so, it can
    /// also resolve locally-relative ones.
    pub fn supports_root_relative(&self) -> (r: bool)
        ensures
            r == (base_rank(self@) == 2),
    {
        matches!(self, BaseInfo::Full(_, _))
    }

    /// Whether this base can resolve locally-relative links.
    pub fn supports_locally_relative(&self) -> (r: bool)
        ensures
            r == (base_rank(self@) >= 1),
    {
        !self.is_none()
    }

    /// The base with more information between this one and `fallback`:
    /// [`BaseInfo::Full`] over [`BaseInfo::NoRoot`] over
    /// [`BaseInfo::NoBase`]; this one when both are of the same variant.
    pub fn or_fallback<'a>(&'a self, fallback: &'a Self) -> (r: &'a Self)
        ensures
            (*r == *self) || (*r == *fallback),
            *r == *self <== base_rank(self@) >= base_rank(fallback@),
            *r == *fallback <== base_rank(self@) < base_rank(fallback@),
    {
        match (self, fallback) {
            (BaseInfo::Full(_, _), _) => self,
            (_, BaseInfo::Full(_, _)) => fallback,
            (BaseInfo::NoRoot(_), _) => self,
            (_, BaseInfo::NoRoot(_)) => fallback,
            (BaseInfo::NoBase, BaseInfo::NoBase) => self,
        }
    }

    /// Parses a link into a fully-qualified URL, resolving it against this
    /// base when it is relative and this base can resolve it.
    pub fn parse_url_text(&self, text: &str) -> (r: Result<AbsoluteUrl, ErrorKind>)
        ensures
            resolve_result(r) == resolve_link(self@, text@),
            r matches Err(e) ==> e is Uri && (e->Uri_0 is Empty || e->Uri_0 is Parse || e->Uri_0
                is RootRelativeWithoutRoot),
    {
        match Uri::try_from(text) {
            Ok(uri) => Ok(uri.url),
            Err(ErrorKind::Uri(UriError::Parse(UrlParseError::RelativeUrlWithoutBase, s))) => {
                if !self.supports_root_relative() && is_root_relative_link(text) {
                    return Err(
                        ErrorKind::Uri(
                            UriError::RootRelativeWithoutRoot(string_of(chars_of(text).as_slice())),
                        ),
                    );
                }
                let joined = match self {
                    BaseInfo::NoBase => Err(UrlParseError::RelativeUrlWithoutBase),
                    BaseInfo::NoRoot(base) => base.join(text),
                    BaseInfo::Full(origin, subpath) => {
                        if is_root_relative_link(text) && str_eq(origin.scheme(), "file") {
                            let mut v: Vec<char> = Vec::new();
                            append_str(&mut v, ".");
                            append_str(&mut v, trim_ascii_start_str(text));
                            let locally_relative = string_of(v.as_slice());
                            origin.join(locally_relative.as_str())
                        } else {
                            match origin.join(subpath.as_str()) {
                                Ok(x) => x.join(text),
                                Err(e) => Err(e),
                            }
                        }
                    },
                };
                match joined {
                    Ok(u) => Ok(u),
                    Err(e) => Err(
                        ErrorKind::Uri(UriError::Parse(e, string_of(chars_of(text).as_slice()))),
                    ),
                }
            },
            Err(e) => Err(e),
        }
    }

    /// Parses a link as [`BaseInfo::parse_url_text`] does, except that a
    /// root-relative link is resolved against `root_dir` when this base has
    /// no URL or a `file:` one.
    pub fn parse_url_text_with_root_dir(&self, text: &str, root_dir: Option<&AbsoluteUrl>) -> (r:
        Result<AbsoluteUrl, ErrorKind>)
        ensures
            resolve_result(r) == resolve_link(
                base_with_root_dir(
                    self@,
                    text@,
                    match root_dir {
                        Some(u) => Some(u@),
                        None => None,
                    },
                ),
                text@,
            ),
    {
        match root_dir {
            Some(root) => {
                let file_or_none = match self.scheme() {
                    None => true,
                    Some(s) => str_eq(s, "file"),
                };
                if file_or_none && is_root_relative_link(text) {
                    let fake = Self::full(root.clone(), String::new());
                    return fake.parse_url_text(text);
                }
                self.parse_url_text(text)
            },
            None => self.parse_url_text(text),
        }
    }

    /// Parses a base from a text which may be a URL or a filesystem path;
    /// the empty text gives [`BaseInfo::NoBase`]. A path becomes a
    /// [`BaseInfo::Full`], while a `file:` URL becomes a
    /// [`BaseInfo::NoRoot`].
    pub fn try_from(value: &str) -> (r: Result<BaseInfo, ErrorKind>)
        ensures
            match base_info_parse(value@) {
                Ok(b) => (r matches Ok(x) && x@ == b),
                Err((v, m)) => (r matches Err(ErrorKind::Uri(UriError::InvalidBase(x, y))) && x@
                    == v && y@ == m),
            },
    {
        if value.is_empty() {
            return Ok(BaseInfo::none());
        }
        match parse_url_or_path(value) {
            Ok(url) => BaseInfo::from_base_url(&url),
            Err(path) => BaseInfo::from_path(path),
        }
    }
}

/// A base that can resolve root-relative links can also resolve
/// locally-relative ones.
pub proof fn law_root_relative_implies_locally_relative(b: BaseInfoView)
    ensures
        base_rank(b) == 2 ==> base_rank(b) >= 1,
{
}

/// A base made from a directory path resolves root-relative links: it is a
/// full base whose origin is the directory's `file:` URL, with an empty
/// path.
pub proof fn law_path_base_is_full(path: Seq<char>, url: Seq<char>)
    requires
        url_from_directory_path(path) == Some(url),
        url_scheme(url) == "file"@,
    ensures
        base_of_path(path) matches Ok(b) ==> b == BaseInfoView::Full(url, Seq::<char>::empty()),
{
}

} // verus!
