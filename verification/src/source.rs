//! Input sources, after glob patterns have been resolved.
use vstd::prelude::*;

use crate::address::{opt_string, url_from_file_path, url_scheme, AbsoluteUrl};
use crate::error::ErrorKind;
use crate::paths::path_is_absolute;
use crate::text::{chars_of, string_of};

verus! {

/// Resolved input sources that can be processed for content: input sources
/// after glob pattern expansion.
#[derive(Debug, Clone, PartialEq, Eq, Hash)]
pub enum ResolvedInputSource {
    /// URL (of HTTP/HTTPS scheme).
    RemoteUrl(AbsoluteUrl),
    /// File path.
    FsPath(String),
    /// Standard Input.
    Stdin,
    /// Raw string input.
    String(String),
}

/// The view of a [`ResolvedInputSource`].
pub enum SourceView {
    /// A remote URL.
    RemoteUrl(Seq<char>),
    /// A file path.
    FsPath(Seq<char>),
    /// Standard input.
    Stdin,
    /// A raw string.
    String(Seq<char>),
}

impl View for ResolvedInputSource {
    type V = SourceView;

    open spec fn view(&self) -> SourceView {
        match self {
            ResolvedInputSource::RemoteUrl(u) => SourceView::RemoteUrl(u@),
            ResolvedInputSource::FsPath(p) => SourceView::FsPath(p@),
            ResolvedInputSource::Stdin => SourceView::Stdin,
            ResolvedInputSource::String(s) => SourceView::String(s@),
        }
    }
}

/// The text of a source: its URL, its path, `stdin`, or the raw string.
pub open spec fn source_text(s: SourceView) -> Seq<char> {
    match s {
        SourceView::RemoteUrl(u) => u,
        SourceView::FsPath(p) => p,
        SourceView::Stdin => "stdin"@,
        SourceView::String(t) => t,
    }
}

/// Whether a path is absolute and holds neither `.` components nor
/// repeated separators: a path that is already in the form that
/// `std::path::absolute` gives.
pub open spec fn plain_absolute_path(p: Seq<char>) -> bool {
    &&& path_is_absolute(p)
    &&& forall|i: int| 0 <= i < p.len() - 1 && #[trigger] p[i] == '/' ==> p[i + 1] != '/'
    &&& forall|i: int|
        0 < i < p.len() && #[trigger] p[i] == '.' && p[i - 1] == '/' ==> (i + 1 < p.len() && p[i
            + 1] != '/')
}

/// The absolute form of a path (`std::path::absolute`), made against the
/// current directory without touching the filesystem; it fails for the
/// empty path or when the current directory cannot be read. On POSIX
/// systems, as here, an absolute path is resolved by POSIX rules alone
/// (keeping `..` components and a trailing separator), so a path that is
/// already plain comes back unchanged; which path comes back for a relative
/// one depends on the current directory and is not stated.
#[verifier::external_body]
fn absolute_of(path: &str) -> (r: Option<String>)
    ensures
        r matches Some(a) ==> path_is_absolute(a@),
        path@.len() == 0 ==> r is None,
        plain_absolute_path(path@) ==> opt_string(r) == Some(path@),
{
    std::path::absolute(path).ok().map(|p| p.to_string_lossy().into_owned())
}

/// What [`ResolvedInputSource::to_url`] gives for the file path `path`
/// once its absolute form `absolute` is known.
pub open spec fn file_source_url(path: Seq<char>, absolute: Option<Seq<char>>) -> Result<
    Option<Seq<char>>,
    Seq<char>,
> {
    match absolute {
        Some(a) => match url_from_file_path(a) {
            Some(u) => Ok(Some(u)),
            None => Err(path),
        },
        None => Err(path),
    }
}

/// The view of a result of [`ResolvedInputSource::to_url`]: the URL, or
/// the path named by an [`ErrorKind::InvalidUrlFromPath`].
pub open spec fn source_url_view(r: Result<Option<AbsoluteUrl>, ErrorKind>) -> Option<
    Result<Option<Seq<char>>, Seq<char>>,
> {
    match r {
        Ok(Some(u)) => Some(Ok(Some(u@))),
        Ok(None) => Some(Ok(None)),
        Err(ErrorKind::InvalidUrlFromPath(p)) => Some(Err(p@)),
        Err(_) => None,
    }
}

/// The `file:` URL of the file path `path`, given its absolute form
/// `absolute` (`None` when that could not be made); when either is missing
/// the path is not a valid URL.
pub fn file_source_url_of(path: &str, absolute: Option<String>) -> (r: Result<
    Option<AbsoluteUrl>,
    ErrorKind,
>)
    ensures
        source_url_view(r) == Some(file_source_url(path@, opt_string(absolute))),
        r matches Ok(Some(x)) ==> url_scheme(x@) == "file"@,
        match opt_string(absolute) {
            Some(a) => path_is_absolute(a) ==> r is Ok,
            None => true,
        },
{
    let err = ErrorKind::InvalidUrlFromPath(string_of(chars_of(path).as_slice()));
    match absolute {
        Some(a) => match AbsoluteUrl::from_file_path(a.as_str()) {
            Ok(u) => Ok(Some(u)),
            Err(_) => Err(err),
        },
        None => Err(err),
    }
}

impl ResolvedInputSource {
    /// The URL pointing to a remote or file source. Other sources have none.
    /// For a file, the path is made absolute against the current directory,
    /// which is why the URL of a file is known only as the `file:` URL of
    /// some absolute path.
    pub fn to_url(&self) -> (r: Result<Option<AbsoluteUrl>, ErrorKind>)
        ensures
            match self@ {
                SourceView::RemoteUrl(u) => (r matches Ok(Some(x)) && x@ == u),
                SourceView::FsPath(p) => (r matches Ok(Some(x)) && exists|a: Seq<char>|
                    path_is_absolute(a) && url_from_file_path(a) == Some(x@)) || (r matches Err(
                    ErrorKind::InvalidUrlFromPath(x),
                ) && x@ == p),
                _ => r matches Ok(None),
            },
            self@ matches SourceView::FsPath(p) && p.len() == 0 ==> r is Err,
            match self@ {
                SourceView::FsPath(p) => plain_absolute_path(p) ==> (r matches Ok(Some(x)) && Some(
                    x@,
                ) == url_from_file_path(p)),
                _ => true,
            },
            match (self@, r) {
                (SourceView::FsPath(_), Ok(Some(x))) => url_scheme(x@) == "file"@,
                _ => true,
            },
    {
        match self {
            ResolvedInputSource::RemoteUrl(url) => Ok(Some(url.clone())),
            ResolvedInputSource::FsPath(path) => {
                let absolute = absolute_of(path.as_str());
                file_source_url_of(path.as_str(), absolute)
            },
            _ => Ok(None),
        }
    }

    /// The text of this source.
    pub fn to_string(&self) -> (r: String)
        ensures
            r@ == source_text(self@),
    {
        match self {
            ResolvedInputSource::RemoteUrl(url) => string_of(chars_of(url.as_str()).as_slice()),
            ResolvedInputSource::FsPath(path) => string_of(chars_of(path.as_str()).as_slice()),
            ResolvedInputSource::Stdin => string_of(chars_of("stdin").as_slice()),
            ResolvedInputSource::String(s) => string_of(chars_of(s.as_str()).as_slice()),
        }
    }
}

} // verus!
