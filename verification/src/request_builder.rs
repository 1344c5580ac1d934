//! Turning the raw links found in an input source into requests.
//!
//! A link is taken as it is when it is a full URL. Otherwise it is joined
//! with the base, when there is one, or resolved as a path relative to the
//! file it was found in. Links starting with `/` are taken relative to the
//! root directory, when one is given.
use vstd::prelude::*;

use crate::address::{opt_string, url_from_file_path, url_with_fragment, AbsoluteUrl};
use crate::base::{base_join, source_base, Base, BaseView};
use crate::input::{input_source_text, InputSource, InputSourceView};
use crate::error::{error_kind_message, ErrorKind, ErrorKindView, UriError, UriErrorSpec};
use crate::paths::{file_name_of, path_file_name, resolve, resolve_spec};
use crate::request::{Request, RequestView};
use crate::source::{source_text, ResolvedInputSource, SourceView};
use crate::text::{append_str, chars_of, find_char, find_char_from, slice_of, string_of};
use crate::uri::{raw_uri_text, uri_parse, RawUri, RawUriSpan, RawUriView, Uri};

verus! {

/// Whether a link is an anchor within the current document: it starts
/// with `#`.
pub open spec fn anchor(text: Seq<char>) -> bool {
    text.len() > 0 && text[0] == '#'
}

/// Whether the text is an anchor.
pub fn is_anchor(text: &str) -> (r: bool)
    ensures
        r == anchor(text@),
{
    let v = chars_of(text);
    v.len() > 0 && v[0] == '#'
}

/// A link starting with `/` prefixed with the root directory, when there
/// is one.
pub open spec fn with_root_dir(text: Seq<char>, root_dir: Option<Seq<char>>) -> Seq<char> {
    match root_dir {
        Some(root) => if text.len() > 0 && text[0] == '/' {
            root + text
        } else {
            text
        },
        None => text,
    }
}

/// Prefixes a link starting with `/` with the root directory, if given.
pub fn prepend_root_dir_if_absolute_local_link(text: &str, root_dir: Option<&str>) -> (r: String)
    ensures
        r@ == with_root_dir(text@, match root_dir {
            Some(d) => Some(d@),
            None => None,
        }),
{
    let v = chars_of(text);
    if v.len() > 0 && v[0] == '/' {
        if let Some(path) = root_dir {
            let mut out = chars_of(path);
            append_str(&mut out, text);
            return string_of(out.as_slice());
        }
    }
    string_of(v.as_slice())
}

/// A link without its query, and its fragment apart: the text before the
/// first `#`, cut at its first `?`, and the text after the first `#`.
pub open spec fn split_link(text: Seq<char>) -> (Seq<char>, Option<Seq<char>>) {
    let (path, fragment) = match find_char(text, '#') {
        Some(i) => (text.take(i), Some(text.skip(i + 1))),
        None => (text, None),
    };
    match find_char(path, '?') {
        Some(j) => (path.take(j), fragment),
        None => (path, fragment),
    }
}

/// Removes the query of a link and separates its fragment.
pub fn remove_get_params_and_separate_fragment(url: &str) -> (r: (String, Option<String>))
    ensures
        (r.0@, opt_string(r.1)) == split_link(url@),
{
    let v = chars_of(url);
    assert(v@.skip(0) == v@);
    let (path, fragment) = match find_char_from(v.as_slice(), '#', 0) {
        Some(i) => (slice_of(v.as_slice(), 0, i), Some(string_of(slice_of(v.as_slice(), i + 1, v.len()).as_slice()))),
        None => (slice_of(v.as_slice(), 0, v.len()), None),
    };
    assert(path@.skip(0) == path@);
    let path = match find_char_from(path.as_slice(), '?', 0) {
        Some(j) => slice_of(path.as_slice(), 0, j),
        None => path,
    };
    (string_of(path.as_slice()), fragment)
}

/// The percent-decoding of a text, when the decoded bytes are UTF-8
/// (`percent_encoding::percent_decode_str` and `decode_utf8`).
pub uninterp spec fn percent_decoded(s: Seq<char>) -> Option<Seq<char>>;

/// Percent-decodes a text; `None` when the decoded bytes are not UTF-8.
#[verifier::external_body]
pub(crate) fn percent_decode_utf8(s: &str) -> (r: Option<String>)
    ensures
        opt_string(r) == percent_decoded(s@),
{
    percent_encoding::percent_decode_str(s).decode_utf8().ok().map(|c| c.into_owned())
}

/// The `file:` URL of a link to a path from the file `src`: the link
/// without query is percent-decoded, resolved as a path, and turned into a
/// URL that keeps the link's fragment.
pub open spec fn path_link_url(
    src: Seq<char>,
    dest: Seq<char>,
    ignore_absolute_local_links: bool,
    current_dir: Seq<char>,
) -> Result<Seq<char>, ErrorKindView> {
    let (path, fragment) = split_link(dest);
    match percent_decoded(path) {
        None => Err(ErrorKindView::Utf8(path)),
        Some(decoded) => match resolve_spec(src, decoded, ignore_absolute_local_links, current_dir) {
            Ok(Some(p)) => match url_from_file_path(p) {
                Some(u) => Ok(url_with_fragment(u, fragment)),
                None => Err(ErrorKindView::InvalidUrlFromPath(p)),
            },
            _ => Err(ErrorKindView::InvalidPathToUri(decoded)),
        },
    }
}

/// The view of a URL result.
pub open spec fn url_outcome(r: Result<AbsoluteUrl, ErrorKind>) -> Result<Seq<char>, ErrorKindView> {
    match r {
        Ok(u) => Ok(u@),
        Err(e) => Err(e@),
    }
}

/// The view of a URI result.
pub open spec fn uri_outcome(r: Result<Uri, ErrorKind>) -> Result<Seq<char>, ErrorKindView> {
    match r {
        Ok(u) => Ok(u@),
        Err(e) => Err(e@),
    }
}

fn owned(s: &str) -> (r: String)
    ensures
        r@ == s@,
{
    string_of(chars_of(s).as_slice())
}

/// Creates the `file:` URL of a link to a path from the file `src_path`.
pub fn resolve_and_create_url(
    src_path: &str,
    dest_path: &str,
    ignore_absolute_local_links: bool,
    current_dir: &str,
) -> (r: Result<AbsoluteUrl, ErrorKind>)
    ensures
        url_outcome(r) == path_link_url(src_path@, dest_path@, ignore_absolute_local_links, current_dir@),
{
    let (dest, fragment) = remove_get_params_and_separate_fragment(dest_path);
    let decoded = match percent_decode_utf8(dest.as_str()) {
        Some(d) => d,
        None => return Err(ErrorKind::Utf8(dest)),
    };
    let resolved = match resolve(src_path, decoded.as_str(), ignore_absolute_local_links, current_dir) {
        Ok(Some(p)) => p,
        _ => return Err(ErrorKind::InvalidPathToUri(decoded)),
    };
    let mut url = match AbsoluteUrl::from_file_path(resolved.as_str()) {
        Ok(u) => u,
        Err(_) => return Err(ErrorKind::InvalidUrlFromPath(resolved)),
    };
    match &fragment {
        Some(f) => url.set_fragment(Some(f.as_str())),
        None => url.set_fragment(None),
    }
    Ok(url)
}

/// The URI of a link found in the file `file_path`: an anchor is taken
/// within the file itself.
pub open spec fn file_link_uri(
    file_path: Seq<char>,
    link_text: Seq<char>,
    ignore_absolute_local_links: bool,
    current_dir: Seq<char>,
) -> Result<Seq<char>, ErrorKindView> {
    let target = if anchor(link_text) {
        match path_file_name(file_path) {
            Some(name) => Ok(name + link_text),
            None => Err(ErrorKindView::InvalidFile(file_path)),
        }
    } else {
        Ok(link_text)
    };
    match target {
        Err(e) => Err(e),
        Ok(t) => match path_link_url(file_path, t, ignore_absolute_local_links, current_dir) {
            Ok(u) => Ok(u),
            Err(_) => Err(ErrorKindView::InvalidPathToUri(t)),
        },
    }
}

/// Creates the URI of a link found in the file `file_path`.
pub fn create_uri_from_file_path(
    file_path: &str,
    link_text: &str,
    ignore_absolute_local_links: bool,
    current_dir: &str,
) -> (r: Result<Uri, ErrorKind>)
    ensures
        uri_outcome(r) == file_link_uri(file_path@, link_text@, ignore_absolute_local_links, current_dir@),
{
    let target_path = if is_anchor(link_text) {
        let file_name = match file_name_of(file_path) {
            Some(n) => n,
            None => return Err(ErrorKind::InvalidFile(owned(file_path))),
        };
        let mut v = chars_of(file_name.as_str());
        append_str(&mut v, link_text);
        string_of(v.as_slice())
    } else {
        owned(link_text)
    };
    match resolve_and_create_url(file_path, target_path.as_str(), ignore_absolute_local_links, current_dir) {
        Ok(url) => Ok(Uri::from_url(url)),
        Err(_) => Err(ErrorKind::InvalidPathToUri(target_path)),
    }
}

/// The URI of a raw link found in `source`: the link itself when it is a
/// full URI; otherwise the link (with the root directory put before a link
/// starting with `/`) joined with the base, or, without base, resolved as
/// a path from the source file.
pub open spec fn link_uri(
    raw_text: Seq<char>,
    source: SourceView,
    root_dir: Option<Seq<char>>,
    base: Option<BaseView>,
    current_dir: Seq<char>,
) -> Result<Seq<char>, ErrorKindView> {
    let text = with_root_dir(raw_text, root_dir);
    match uri_parse(raw_text) {
        Ok(u) => Ok(u),
        Err(_) => match base {
            Some(b) => match base_join(b, text) {
                Some(u) => Ok(u),
                None => Err(ErrorKindView::InvalidBaseJoin(text)),
            },
            None => match source {
                SourceView::FsPath(root) => file_link_uri(root, text, root_dir is None, current_dir),
                _ => Err(ErrorKindView::Uri(UriErrorSpec::UnsupportedType(text))),
            },
        },
    }
}

/// The view of an optional owned base.
pub open spec fn opt_base_owned(b: Option<Base>) -> Option<BaseView> {
    match b {
        Some(x) => Some(x@),
        None => None,
    }
}

/// The view of an optional path.
pub open spec fn opt_path(p: Option<&str>) -> Option<Seq<char>> {
    match p {
        Some(x) => Some(x@),
        None => None,
    }
}

/// The view of an optional base.
pub open spec fn opt_base(b: Option<&Base>) -> Option<BaseView> {
    match b {
        Some(x) => Some(x@),
        None => None,
    }
}

/// Parses a raw link into a URI; see [`link_uri`].
pub fn try_parse_into_uri(
    raw_uri: &RawUri,
    source: &ResolvedInputSource,
    root_dir: Option<&str>,
    base: Option<&Base>,
    current_dir: &str,
) -> (r: Result<Uri, ErrorKind>)
    ensures
        uri_outcome(r) == link_uri(raw_uri.text@, source@, opt_path(root_dir), opt_base(base), current_dir@),
{
    let text = prepend_root_dir_if_absolute_local_link(raw_uri.text.as_str(), root_dir);
    match Uri::try_from(raw_uri.text.as_str()) {
        Ok(uri) => Ok(uri),
        Err(_) => match base {
            Some(base_url) => match base_url.join(text.as_str()) {
                Some(url) => Ok(Uri::from_url(url)),
                None => Err(ErrorKind::InvalidBaseJoin(text)),
            },
            None => match source {
                ResolvedInputSource::FsPath(root) => {
                    let ignore_absolute_local_links = root_dir.is_none();
                    create_uri_from_file_path(root.as_str(), text.as_str(), ignore_absolute_local_links, current_dir)
                },
                _ => Err(ErrorKind::Uri(UriError::UnsupportedType(text))),
            },
        },
    }
}

/// The request made of a URI found as a raw link in a source.
pub open spec fn request_of(u: Seq<char>, raw: RawUriView, source: SourceView) -> RequestView {
    (u, source, raw.1, raw.2, None, None)
}

fn copy_opt_string(o: &Option<String>) -> (r: Option<String>)
    ensures
        opt_string(r) == opt_string(*o),
{
    match o {
        Some(s) => Some(owned(s.as_str())),
        None => None,
    }
}

fn copy_source(s: &ResolvedInputSource) -> (r: ResolvedInputSource)
    ensures
        r@ == s@,
{
    match s {
        ResolvedInputSource::RemoteUrl(u) => ResolvedInputSource::RemoteUrl(u.clone()),
        ResolvedInputSource::FsPath(p) => ResolvedInputSource::FsPath(owned(p.as_str())),
        ResolvedInputSource::Stdin => ResolvedInputSource::Stdin,
        ResolvedInputSource::String(t) => ResolvedInputSource::String(owned(t.as_str())),
    }
}

/// Creates the request for a raw link found in `source`.
pub fn create_request(
    raw_uri: &RawUri,
    source: &ResolvedInputSource,
    root_dir: Option<&str>,
    base: Option<&Base>,
    current_dir: &str,
) -> (r: Result<Request, ErrorKind>)
    ensures
        match link_uri(raw_uri.text@, source@, opt_path(root_dir), opt_base(base), current_dir@) {
            Ok(u) => (r matches Ok(x) && x@ == request_of(u, raw_uri@, source@)),
            Err(e) => (r matches Err(x) && x@ == e),
        },
{
    let uri = match try_parse_into_uri(raw_uri, source, root_dir, base, current_dir) {
        Ok(u) => u,
        Err(e) => return Err(e),
    };
    Ok(
        Request::new(
            uri,
            copy_source(source),
            copy_opt_string(&raw_uri.element),
            copy_opt_string(&raw_uri.attribute),
            None,
        ),
    )
}

/// An error which occurs while making a request out of a link, or while
/// reading an input source.
#[derive(Debug, PartialEq, Eq, Hash)]
pub enum RequestError {
    /// Unable to construct a URL for a link appearing within the given
    /// source.
    CreateRequestItem(RawUri, ResolvedInputSource, ErrorKind),
    /// Unable to load the content of an input source.
    GetInputContent(InputSource, ErrorKind),
    /// Unable to load an input source directly specified by the user.
    UserInputContent(InputSource, ErrorKind),
}

/// The message of a [`RequestError`].
pub open spec fn request_error_text(e: RequestError) -> Seq<char> {
    match e {
        RequestError::CreateRequestItem(raw, _, k) => "Error building URL for "@ + raw_uri_text(raw@)
            + ": "@ + error_kind_message(k),
        RequestError::GetInputContent(src, k) => "Error reading input '"@ + input_source_text(src@)
            + "': "@ + error_kind_message(k),
        RequestError::UserInputContent(src, k) => "Error reading user input '"@
            + input_source_text(src@) + "': "@ + error_kind_message(k),
    }
}

impl RequestError {
    /// The message describing this error.
    pub fn to_string(&self) -> (r: String)
        ensures
            r@ == request_error_text(*self),
    {
        let mut out: Vec<char> = Vec::new();
        match self {
            RequestError::CreateRequestItem(raw, _, k) => {
                let t = raw.to_string();
                let m = k.message();
                append_str(&mut out, "Error building URL for ");
                append_str(&mut out, t.as_str());
                append_str(&mut out, ": ");
                append_str(&mut out, m.as_str());
            },
            RequestError::GetInputContent(src, k) => {
                let t = src.to_string();
                let m = k.message();
                append_str(&mut out, "Error reading input '");
                append_str(&mut out, t.as_str());
                append_str(&mut out, "': ");
                append_str(&mut out, m.as_str());
            },
            RequestError::UserInputContent(src, k) => {
                let t = src.to_string();
                let m = k.message();
                append_str(&mut out, "Error reading user input '");
                append_str(&mut out, t.as_str());
                append_str(&mut out, "': ");
                append_str(&mut out, m.as_str());
            },
        }
        string_of(out.as_slice())
    }

    /// The underlying cause of this error.
    pub fn error(&self) -> (r: &ErrorKind)
        ensures
            match self {
                RequestError::CreateRequestItem(_, _, e) => *r == *e,
                RequestError::GetInputContent(_, e) => *r == *e,
                RequestError::UserInputContent(_, e) => *r == *e,
            },
    {
        match self {
            RequestError::CreateRequestItem(_, _, e) => e,
            RequestError::GetInputContent(_, e) => e,
            RequestError::UserInputContent(_, e) => e,
        }
    }

    /// This error turned into its cause.
    pub fn into_error(self) -> (r: ErrorKind)
        ensures
            match self {
                RequestError::CreateRequestItem(_, _, e) => r == e,
                RequestError::GetInputContent(_, e) => r == e,
                RequestError::UserInputContent(_, e) => r == e,
            },
    {
        match self {
            RequestError::CreateRequestItem(_, _, e) => e,
            RequestError::GetInputContent(_, e) => e,
            RequestError::UserInputContent(_, e) => e,
        }
    }

    /// The input source within which the error happened.
    pub fn input_source(&self) -> (r: InputSource)
        ensures
            match self {
                RequestError::CreateRequestItem(_, s, _) => r@ == match s@ {
                    SourceView::RemoteUrl(u) => InputSourceView::RemoteUrl(u),
                    SourceView::FsPath(p) => InputSourceView::FsPath(p),
                    SourceView::Stdin => InputSourceView::Stdin,
                    SourceView::String(t) => InputSourceView::String(t),
                },
                RequestError::GetInputContent(s, _) => r@ == s@,
                RequestError::UserInputContent(s, _) => r@ == s@,
            },
    {
        match self {
            RequestError::CreateRequestItem(_, s, _) => InputSource::from_resolved(copy_source(s)),
            RequestError::GetInputContent(s, _) => crate::input::copy_source(s),
            RequestError::UserInputContent(s, _) => crate::input::copy_source(s),
        }
    }
}

/// The URI that stands for a failed request (`error:`).
pub fn error_uri() -> (r: Result<Uri, ErrorKind>)
    ensures
        uri_outcome(r) == match uri_parse("error:"@) {
            Ok(u) => Ok(u),
            Err(_) => uri_outcome(r),
        },
        uri_parse("error:"@) is Ok <==> r is Ok,
{
    let r = Uri::try_from("error:");
    proof {
        match uri_parse("error:"@) {
            Ok(u) => {},
            Err(_) => {},
        }
    }
    r
}

/// The base used for the links of a source: the given one, or else the
/// base of the source itself.
pub open spec fn effective_base(base: Option<BaseView>, source: SourceView) -> Option<BaseView> {
    match base {
        Some(b) => Some(b),
        None => source_base(source),
    }
}

/// The requests made of the links that resolve, in order.
pub open spec fn ok_requests(
    raws: Seq<RawUri>,
    source: SourceView,
    root_dir: Option<Seq<char>>,
    base: Option<BaseView>,
    current_dir: Seq<char>,
) -> Seq<RequestView>
    decreases raws.len(),
{
    if raws.len() == 0 {
        Seq::empty()
    } else {
        let prev = ok_requests(raws.drop_last(), source, root_dir, base, current_dir);
        match link_uri(raws.last().text@, source, root_dir, base, current_dir) {
            Ok(u) => prev.push(request_of(u, raws.last()@, source)),
            Err(_) => prev,
        }
    }
}

/// The links that do not resolve, with their errors, in order.
pub open spec fn failed_links(
    raws: Seq<RawUri>,
    source: SourceView,
    root_dir: Option<Seq<char>>,
    base: Option<BaseView>,
    current_dir: Seq<char>,
) -> Seq<(RawUriView, ErrorKindView)>
    decreases raws.len(),
{
    if raws.len() == 0 {
        Seq::empty()
    } else {
        let prev = failed_links(raws.drop_last(), source, root_dir, base, current_dir);
        match link_uri(raws.last().text@, source, root_dir, base, current_dir) {
            Ok(_) => prev,
            Err(e) => prev.push((raws.last()@, e)),
        }
    }
}

/// The elements of a sequence without repetitions, each at its first
/// occurrence.
pub open spec fn distinct_in_order(s: Seq<RequestView>) -> Seq<RequestView>
    decreases s.len(),
{
    if s.len() == 0 {
        Seq::empty()
    } else {
        let d = distinct_in_order(s.drop_last());
        if d.contains(s.last()) {
            d
        } else {
            d.push(s.last())
        }
    }
}

fn copy_raw_uri(raw: &RawUri) -> (r: RawUri)
    ensures
        r@ == raw@,
{
    RawUri {
        text: owned(raw.text.as_str()),
        element: copy_opt_string(&raw.element),
        attribute: copy_opt_string(&raw.attribute),
        span: raw.span,
    }
}

fn copy_base(b: &Base) -> (r: Base)
    ensures
        r@ == b@,
{
    match b {
        Base::Local(p) => Base::Local(owned(p.as_str())),
        Base::Remote(u) => Base::Remote(u.clone()),
    }
}

fn already_made(made: &Vec<Result<Request, RequestError>>, r: &Request, Ghost(d): Ghost<Seq<RequestView>>) -> (found: bool)
    requires
        made.len() == d.len(),
        forall|k: int| 0 <= k < d.len() ==> (#[trigger] made@[k] matches Ok(x) && x@ == d[k]),
    ensures
        found == d.contains(r@),
{
    let mut k: usize = 0;
    while k < made.len()
        invariant
            k <= made.len(),
            made.len() == d.len(),
            forall|j: int| 0 <= j < d.len() ==> (#[trigger] made@[j] matches Ok(x) && x@ == d[j]),
            forall|j: int| 0 <= j < k ==> d[j] != r@,
        decreases made.len() - k,
    {
        match &made[k] {
            Ok(x) => {
                assert(made@[k as int] matches Ok(y) && y@ == d[k as int]);
                if x.same_as(r) {
                    assert(d[k as int] == r@);
                    return true;
                }
            },
            Err(_) => {
                assert(made@[k as int] matches Ok(_));
            },
        }
        k += 1;
    }
    assert(!d.contains(r@)) by {
        if d.contains(r@) {
            let j = choose|j: int| 0 <= j < d.len() && d[j] == r@;
            assert(d[j] != r@);
        }
    }
    false
}

/// Creates the requests for the links found in a source: first the
/// requests, each made once, in the order of their links, then the errors
/// of the links that do not resolve, in order. Without a base, the base of
/// the source itself is used.
pub fn create(
    uris: Vec<RawUri>,
    source: &ResolvedInputSource,
    root_dir: Option<&str>,
    base: Option<&Base>,
    current_dir: &str,
) -> (r: Vec<Result<Request, RequestError>>)
    ensures
        ({
            let b = effective_base(opt_base(base), source@);
            let oks = distinct_in_order(ok_requests(uris@, source@, opt_path(root_dir), b, current_dir@));
            let errs = failed_links(uris@, source@, opt_path(root_dir), b, current_dir@);
            &&& r.len() == oks.len() + errs.len()
            &&& forall|i: int| 0 <= i < oks.len() ==> (#[trigger] r@[i] matches Ok(x) && x@ == oks[i])
            &&& forall|j: int|
                0 <= j < errs.len() ==> (#[trigger] r@[oks.len() + j] matches Err(
                    RequestError::CreateRequestItem(raw, src, e),
                ) && raw@ == errs[j].0 && e@ == errs[j].1 && src@ == source@)
        }),
{
    let own_base: Option<Base> = match base {
        Some(b) => Some(copy_base(b)),
        None => Base::from_source(source),
    };
    let ghost b = effective_base(opt_base(base), source@);
    assert(opt_base_owned(own_base) == b);
    let ghost root = opt_path(root_dir);
    let mut made: Vec<Result<Request, RequestError>> = Vec::new();
    let mut errors: Vec<Result<Request, RequestError>> = Vec::new();
    let mut i: usize = 0;
    while i < uris.len()
        invariant
            i <= uris.len(),
            b == opt_base_owned(own_base),
            root == opt_path(root_dir),
            ({
                let d = distinct_in_order(ok_requests(uris@.take(i as int), source@, root, b, current_dir@));
                &&& made.len() == d.len()
                &&& forall|k: int| 0 <= k < d.len() ==> (#[trigger] made@[k] matches Ok(x) && x@ == d[k])
            }),
            ({
                let e = failed_links(uris@.take(i as int), source@, root, b, current_dir@);
                &&& errors.len() == e.len()
                &&& forall|k: int|
                    0 <= k < e.len() ==> (#[trigger] errors@[k] matches Err(
                        RequestError::CreateRequestItem(raw, src, x),
                    ) && raw@ == e[k].0 && x@ == e[k].1 && src@ == source@)
            }),
        decreases uris.len() - i,
    {
        let ghost prefix = uris@.take(i + 1);
        assert(prefix.drop_last() =~= uris@.take(i as int));
        assert(prefix.last() == uris@[i as int]);
        let ghost d0 = distinct_in_order(ok_requests(uris@.take(i as int), source@, root, b, current_dir@));
        let ghost e0 = failed_links(uris@.take(i as int), source@, root, b, current_dir@);
        let raw = &uris[i];
        let ghost oks0 = ok_requests(uris@.take(i as int), source@, root, b, current_dir@);
        match create_request(raw, source, root_dir, own_base.as_ref(), current_dir) {
            Ok(request) => {
                proof {
                    assert(ok_requests(prefix, source@, root, b, current_dir@) == oks0.push(request@));
                    assert(failed_links(prefix, source@, root, b, current_dir@) == e0);
                    assert(oks0.push(request@).drop_last() =~= oks0);
                    assert(oks0.push(request@).last() == request@);
                }
                if !already_made(&made, &request, Ghost(d0)) {
                    let ghost made0 = made@;
                    made.push(Ok(request));
                    proof {
                        let d1 = distinct_in_order(ok_requests(prefix, source@, root, b, current_dir@));
                        assert(d1 == d0.push(request@));
                        assert forall|k: int| 0 <= k < d1.len() implies (#[trigger] made@[k] matches Ok(
                            x,
                        ) && x@ == d1[k]) by {
                            if k < d0.len() {
                                assert(made@[k] == made0[k]);
                            }
                        }
                    }
                }
            },
            Err(e) => {
                proof {
                    assert(ok_requests(prefix, source@, root, b, current_dir@) == oks0);
                }
                let ghost errors0 = errors@;
                errors.push(Err(RequestError::CreateRequestItem(copy_raw_uri(raw), copy_source(source), e)));
                proof {
                    let e1 = failed_links(prefix, source@, root, b, current_dir@);
                    assert(e1 == e0.push((raw@, e@)));
                    assert forall|k: int| 0 <= k < e1.len() implies (#[trigger] errors@[k] matches Err(
                        RequestError::CreateRequestItem(rw, src, x),
                    ) && rw@ == e1[k].0 && x@ == e1[k].1 && src@ == source@) by {
                        if k < e0.len() {
                            assert(errors@[k] == errors0[k]);
                        }
                    }
                }
            },
        }
        i += 1;
    }
    assert(uris@.take(uris.len() as int) =~= uris@);
    let ghost made_before = made@;
    let ghost errors_before = errors@;
    made.append(&mut errors);
    proof {
        let d = distinct_in_order(ok_requests(uris@, source@, root, b, current_dir@));
        let e = failed_links(uris@, source@, root, b, current_dir@);
        assert forall|j: int| 0 <= j < e.len() implies (#[trigger] made@[d.len() + j] matches Err(
            RequestError::CreateRequestItem(raw, src, x),
        ) && raw@ == e[j].0 && x@ == e[j].1 && src@ == source@) by {
            assert(made@[d.len() + j] == errors_before[j]);
        }
        assert forall|k: int| 0 <= k < d.len() implies (#[trigger] made@[k] matches Ok(x) && x@ == d[k]) by {
            assert(made@[k] == made_before[k]);
        }
    }
    made
}

/// The requests made of a source are each made once: no request occurs
/// twice, and every request of a link that resolves is among them.
pub proof fn law_requests_deduplicated(s: Seq<RequestView>)
    ensures
        distinct_in_order(s).no_duplicates(),
        forall|x: RequestView| distinct_in_order(s).contains(x) <==> s.contains(x),
    decreases s.len(),
{
    if s.len() > 0 {
        law_requests_deduplicated(s.drop_last());
        let d = distinct_in_order(s.drop_last());
        assert forall|x: RequestView| distinct_in_order(s).contains(x) <==> s.contains(x) by {
            if s.contains(x) {
                let i = choose|i: int| 0 <= i < s.len() && s[i] == x;
                if i < s.len() - 1 {
                    assert(s.drop_last()[i] == x);
                }
            }
            if s.drop_last().contains(x) {
                let i = choose|i: int| 0 <= i < s.drop_last().len() && s.drop_last()[i] == x;
                assert(s[i] == x);
            }
            if !d.contains(s.last()) && d.push(s.last()).contains(x) && x != s.last() {
                let i = choose|i: int| 0 <= i < d.push(s.last()).len() && d.push(s.last())[i] == x;
                assert(d[i] == x);
            }
            if x == s.last() {
                assert(s[s.len() - 1] == x);
                if !d.contains(x) {
                    assert(d.push(x)[d.len() as int] == x);
                }
            } else if d.contains(x) && !d.contains(s.last()) {
                let i = choose|i: int| 0 <= i < d.len() && d[i] == x;
                assert(d.push(s.last())[i] == x);
            }
        }
        if !d.contains(s.last()) {
            assert forall|i: int, j: int|
                0 <= i < d.push(s.last()).len() && 0 <= j < d.push(s.last()).len() && i != j implies d.push(s.last())[i]
                != d.push(s.last())[j] by {
                if i == d.len() as int {
                    assert(d[j] != s.last());
                } else if j == d.len() as int {
                    assert(d[i] != s.last());
                }
            }
        }
    }
}

} // verus!
