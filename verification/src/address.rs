//! URLs, as parsed and manipulated by the `url` crate.
//!
//! A [`AbsoluteUrl`] carries the `url` crate's value together with its
//! serialization, which is the URL's view. Every operation that the `url`
//! crate computes is reached through one trusted function below; its result
//! is given a name over the serializations involved.
use vstd::prelude::*;

use crate::paths::path_is_absolute;
use crate::text::{split, split_chars, starts_with, views};

verus! {

#[verifier::external_type_specification]
#[verifier::external_body]
pub struct ExRawUrl(url::Url);

#[verifier::external_type_specification]
#[verifier::external_body]
pub struct ExRawUrlParseError(url::ParseError);

/// Why a text could not be parsed (or joined) into a URL: the variants of
/// `url::ParseError`.
#[derive(Debug, Clone, Copy, PartialEq, Eq, Hash, Structural)]
pub enum UrlParseError {
    /// The host is empty.
    EmptyHost,
    /// The international domain name is invalid.
    IdnaError,
    /// The port number is invalid.
    InvalidPort,
    /// The IPv4 address is invalid.
    InvalidIpv4Address,
    /// The IPv6 address is invalid.
    InvalidIpv6Address,
    /// The domain contains an invalid character.
    InvalidDomainCharacter,
    /// A relative URL was given without a base.
    RelativeUrlWithoutBase,
    /// A relative URL was given with a cannot-be-a-base base.
    RelativeUrlWithCannotBeABaseBase,
    /// A host was set on a cannot-be-a-base URL.
    SetHostOnCannotBeABaseUrl,
    /// The URL is larger than 4 GB.
    Overflow,
    /// A failure that this version of the library does not know by name.
    Unknown,
}

/// The description of each [`UrlParseError`], as `url::ParseError`
/// displays it.
pub open spec fn url_parse_error_text(e: UrlParseError) -> Seq<char> {
    match e {
        UrlParseError::EmptyHost => "empty host"@,
        UrlParseError::IdnaError => "invalid international domain name"@,
        UrlParseError::InvalidPort => "invalid port number"@,
        UrlParseError::InvalidIpv4Address => "invalid IPv4 address"@,
        UrlParseError::InvalidIpv6Address => "invalid IPv6 address"@,
        UrlParseError::InvalidDomainCharacter => "invalid domain character"@,
        UrlParseError::RelativeUrlWithoutBase => "relative URL without a base"@,
        UrlParseError::RelativeUrlWithCannotBeABaseBase => "relative URL with a cannot-be-a-base base"@,
        UrlParseError::SetHostOnCannotBeABaseUrl => "a cannot-be-a-base URL doesn\u{2019}t have a host to set"@,
        UrlParseError::Overflow => "URLs more than 4 GB are not supported"@,
        UrlParseError::Unknown => "unknown URL parse error"@,
    }
}

impl UrlParseError {
    /// The description of this failure.
    pub fn message(&self) -> (r: &'static str)
        ensures
            r@ == url_parse_error_text(*self),
    {
        match self {
            UrlParseError::EmptyHost => "empty host",
            UrlParseError::IdnaError => "invalid international domain name",
            UrlParseError::InvalidPort => "invalid port number",
            UrlParseError::InvalidIpv4Address => "invalid IPv4 address",
            UrlParseError::InvalidIpv6Address => "invalid IPv6 address",
            UrlParseError::InvalidDomainCharacter => "invalid domain character",
            UrlParseError::RelativeUrlWithoutBase => "relative URL without a base",
            UrlParseError::RelativeUrlWithCannotBeABaseBase => "relative URL with a cannot-be-a-base base",
            UrlParseError::SetHostOnCannotBeABaseUrl => "a cannot-be-a-base URL doesn\u{2019}t have a host to set",
            UrlParseError::Overflow => "URLs more than 4 GB are not supported",
            UrlParseError::Unknown => "unknown URL parse error",
        }
    }
}

/// The variant of a `url::ParseError`, one for one.
#[verifier::external_body]
fn url_error_of(e: url::ParseError) -> UrlParseError {
    match e {
        url::ParseError::EmptyHost => UrlParseError::EmptyHost,
        url::ParseError::IdnaError => UrlParseError::IdnaError,
        url::ParseError::InvalidPort => UrlParseError::InvalidPort,
        url::ParseError::InvalidIpv4Address => UrlParseError::InvalidIpv4Address,
        url::ParseError::InvalidIpv6Address => UrlParseError::InvalidIpv6Address,
        url::ParseError::InvalidDomainCharacter => UrlParseError::InvalidDomainCharacter,
        url::ParseError::RelativeUrlWithoutBase => UrlParseError::RelativeUrlWithoutBase,
        url::ParseError::RelativeUrlWithCannotBeABaseBase => UrlParseError::RelativeUrlWithCannotBeABaseBase,
        url::ParseError::SetHostOnCannotBeABaseUrl => UrlParseError::SetHostOnCannotBeABaseUrl,
        url::ParseError::Overflow => UrlParseError::Overflow,
        _ => UrlParseError::Unknown,
    }
}

/// A parsed, absolute URL. Its view is its serialization.
#[derive(Debug, Hash)]
pub struct AbsoluteUrl {
    inner: url::Url,
    text: String,
}

impl View for AbsoluteUrl {
    type V = Seq<char>;

    closed spec fn view(&self) -> Seq<char> {
        self.text@
    }
}

/// The host of a URL: a domain name or an IP address (as its number, in
/// network byte order).
#[derive(Debug, Clone, PartialEq, Eq, Hash)]
pub enum Host {
    /// A domain name.
    Domain(String),
    /// An IPv4 address.
    Ipv4(u32),
    /// An IPv6 address.
    Ipv6(u128),
}

/// The view of a [`Host`].
pub enum HostView {
    /// A domain name.
    Domain(Seq<char>),
    /// An IPv4 address.
    Ipv4(u32),
    /// An IPv6 address.
    Ipv6(u128),
}

impl View for Host {
    type V = HostView;

    open spec fn view(&self) -> HostView {
        match self {
            Host::Domain(d) => HostView::Domain(d@),
            Host::Ipv4(a) => HostView::Ipv4(*a),
            Host::Ipv6(a) => HostView::Ipv6(*a),
        }
    }
}

/// The serialization of the URL that `url::Url::parse` makes of `input`,
/// or its failure.
pub uninterp spec fn url_parse(input: Seq<char>) -> Result<Seq<char>, UrlParseError>;

/// The serialization of the URL that `url::Url::join` makes of `input`
/// relative to the URL `base`, or its failure.
pub uninterp spec fn url_join(base: Seq<char>, input: Seq<char>) -> Result<Seq<char>, UrlParseError>;

/// The scheme of a URL (`url::Url::scheme`).
pub uninterp spec fn url_scheme(url: Seq<char>) -> Seq<char>;

/// Whether a URL cannot be a base (`url::Url::cannot_be_a_base`).
pub uninterp spec fn url_cannot_be_a_base(url: Seq<char>) -> bool;

/// The host of a URL (`url::Url::host`).
pub uninterp spec fn url_host(url: Seq<char>) -> Option<HostView>;

/// The host of a URL as text (`url::Url::host_str`).
pub uninterp spec fn url_host_str(url: Seq<char>) -> Option<Seq<char>>;

/// The path of a URL (`url::Url::path`).
pub uninterp spec fn url_path(url: Seq<char>) -> Seq<char>;

/// The query of a URL (`url::Url::query`).
pub uninterp spec fn url_query(url: Seq<char>) -> Option<Seq<char>>;

/// The fragment of a URL (`url::Url::fragment`).
pub uninterp spec fn url_fragment(url: Seq<char>) -> Option<Seq<char>>;

/// The URL after `url::Url::set_fragment`.
pub uninterp spec fn url_with_fragment(url: Seq<char>, fragment: Option<Seq<char>>) -> Seq<char>;

/// The URL after `url::Url::set_query`.
pub uninterp spec fn url_with_query(url: Seq<char>, query: Option<Seq<char>>) -> Seq<char>;

/// The URL after `url::Url::set_path`.
pub uninterp spec fn url_with_path(url: Seq<char>, path: Seq<char>) -> Seq<char>;

/// The URL after a successful `url::Url::set_scheme`, or `None` when the
/// scheme cannot be set.
pub uninterp spec fn url_with_scheme(url: Seq<char>, scheme: Seq<char>) -> Option<Seq<char>>;

/// The relative link from `base` to `url` (`url::Url::make_relative`).
pub uninterp spec fn url_make_relative(base: Seq<char>, url: Seq<char>) -> Option<Seq<char>>;

/// The `file:` URL of a path (`url::Url::from_file_path`), for the path
/// conventions of the target the crate is built for.
pub uninterp spec fn url_from_file_path(path: Seq<char>) -> Option<Seq<char>>;

/// The `file:` URL of a directory path (`url::Url::from_directory_path`),
/// for the path conventions of the target the crate is built for.
pub uninterp spec fn url_from_directory_path(path: Seq<char>) -> Option<Seq<char>>;

/// The path of a `file:` URL (`url::Url::to_file_path`), when it is valid
/// UTF-8, for the path conventions of the target the crate is built for.
pub uninterp spec fn url_to_file_path(url: Seq<char>) -> Option<Seq<char>>;

/// The special schemes of the URL standard.
pub open spec fn is_special_scheme(scheme: Seq<char>) -> bool {
    scheme == "http"@ || scheme == "https"@ || scheme == "ws"@ || scheme == "wss"@ || scheme
        == "ftp"@ || scheme == "file"@
}

/// The view of a parse or join result.
pub open spec fn url_result(r: Result<AbsoluteUrl, UrlParseError>) -> Result<Seq<char>, UrlParseError> {
    match r {
        Ok(u) => Ok(u@),
        Err(e) => Err(e),
    }
}

/// The view of an optional host.
pub open spec fn host_option(h: Option<Host>) -> Option<HostView> {
    match h {
        Some(x) => Some(x@),
        None => None,
    }
}

/// The view of an optional string.
pub open spec fn opt_view(s: Option<&str>) -> Option<Seq<char>> {
    match s {
        Some(x) => Some(x@),
        None => None,
    }
}

/// The domain of a URL: its host, when that is a domain name.
pub open spec fn url_domain(url: Seq<char>) -> Option<Seq<char>> {
    match url_host(url) {
        Some(HostView::Domain(d)) => Some(d),
        _ => None,
    }
}

/// The `/`-separated segments of the path, when the path starts with `/`.
pub open spec fn url_path_segments(url: Seq<char>) -> Option<Seq<Seq<char>>> {
    let p = url_path(url);
    if p.len() > 0 && p[0] == '/' {
        Some(split(p.drop_first(), '/'))
    } else {
        None
    }
}

#[verifier::external_body]
fn clone_raw_url(u: &url::Url) -> url::Url {
    u.clone()
}

impl Clone for AbsoluteUrl {
    fn clone(&self) -> (r: Self)
        ensures
            r@ == self@,
    {
        AbsoluteUrl { inner: clone_raw_url(&self.inner), text: self.text.clone() }
    }
}

impl PartialEq for AbsoluteUrl {
    fn eq(&self, other: &Self) -> (r: bool) {
        self.text == other.text
    }
}

impl vstd::std_specs::cmp::PartialEqSpecImpl for AbsoluteUrl {
    open spec fn obeys_eq_spec() -> bool {
        true
    }

    open spec fn eq_spec(&self, other: &Self) -> bool {
        self@ == other@
    }
}

impl Eq for AbsoluteUrl {
}

impl AbsoluteUrl {
    /// Parses an absolute URL (`url::Url::parse`); the result is the named
    /// [`url_parse`] of the input.
    #[verifier::external_body]
    pub(crate) fn parse(input: &str) -> (r: Result<AbsoluteUrl, UrlParseError>)
        ensures
            url_result(r) == url_parse(input@),
    {
        match url::Url::parse(input) {
            Ok(u) => Ok(AbsoluteUrl { text: u.to_string(), inner: u }),
            Err(e) => Err(url_error_of(e)),
        }
    }

    /// Parses `input` relative to this URL (`url::Url::join`); the result is
    /// the named [`url_join`].
    #[verifier::external_body]
    pub(crate) fn join(&self, input: &str) -> (r: Result<AbsoluteUrl, UrlParseError>)
        ensures
            url_result(r) == url_join(self@, input@),
    {
        match self.inner.join(input) {
            Ok(u) => Ok(AbsoluteUrl { text: u.to_string(), inner: u }),
            Err(e) => Err(url_error_of(e)),
        }
    }

    /// The serialization of this URL.
    pub fn as_str(&self) -> (r: &str)
        ensures
            r@ == self@,
    {
        self.text.as_str()
    }

    /// The scheme of this URL (`url::Url::scheme`).
    #[verifier::external_body]
    pub(crate) fn scheme(&self) -> (r: &str)
        ensures
            r@ == url_scheme(self@),
    {
        self.inner.scheme()
    }

    /// Whether this URL cannot be a base (`url::Url::cannot_be_a_base`).
    #[verifier::external_body]
    pub(crate) fn cannot_be_a_base(&self) -> (r: bool)
        ensures
            r == url_cannot_be_a_base(self@),
    {
        self.inner.cannot_be_a_base()
    }

    /// The host of this URL (`url::Url::host`), with IP addresses given as
    /// numbers.
    #[verifier::external_body]
    pub(crate) fn host(&self) -> (r: Option<Host>)
        ensures
            host_option(r) == url_host(self@),
    {
        match self.inner.host() {
            Some(url::Host::Domain(d)) => Some(Host::Domain(d.to_string())),
            Some(url::Host::Ipv4(a)) => Some(Host::Ipv4(u32::from(a))),
            Some(url::Host::Ipv6(a)) => Some(Host::Ipv6(u128::from(a))),
            None => None,
        }
    }

    /// The host of this URL as text (`url::Url::host_str`): a domain, an
    /// IPv4 address, or an IPv6 address in brackets.
    #[verifier::external_body]
    pub(crate) fn host_str(&self) -> (r: Option<&str>)
        ensures
            opt_view(r) == url_host_str(self@),
    {
        self.inner.host_str()
    }

    /// The domain of this URL: its host when that is a domain name
    /// (as `url::Url::domain`).
    pub fn domain(&self) -> (r: Option<String>)
        ensures
            opt_string(r) == url_domain(self@),
    {
        match self.host() {
            Some(Host::Domain(d)) => Some(d),
            _ => None,
        }
    }

    /// The path of this URL (`url::Url::path`). A path that starts with `/`
    /// means that the URL can be a base, and the path of a URL of a special
    /// scheme (`http`, `https`, `ws`, `wss`, `ftp`, `file`) starts with `/`.
    /// A URL of another scheme can be a base and have an empty path
    /// (`postgres://host`), which is not ruled out.
    #[verifier::external_body]
    pub(crate) fn path(&self) -> (r: &str)
        ensures
            r@ == url_path(self@),
            (r@.len() > 0 && r@[0] == '/') ==> !url_cannot_be_a_base(self@),
            is_special_scheme(url_scheme(self@)) ==> (r@.len() > 0 && r@[0] == '/'),
    {
        self.inner.path()
    }

    /// The `/`-separated segments of the path (as `url::Url::path_segments`).
    pub fn path_segments(&self) -> (r: Option<Vec<Vec<char>>>)
        ensures
            match r {
                Some(v) => url_path_segments(self@) == Some(views(v@)),
                None => url_path_segments(self@) is None,
            },
    {
        let p = crate::text::chars_of(self.path());
        if p.len() > 0 && p[0] == '/' {
            let rest = crate::text::slice_of(p.as_slice(), 1, p.len());
            assert(rest@ == p@.drop_first());
            Some(split_chars(rest.as_slice(), '/'))
        } else {
            None
        }
    }

    /// The query of this URL (`url::Url::query`).
    #[verifier::external_body]
    pub(crate) fn query(&self) -> (r: Option<&str>)
        ensures
            opt_view(r) == url_query(self@),
    {
        self.inner.query()
    }

    /// The fragment of this URL (`url::Url::fragment`).
    #[verifier::external_body]
    pub(crate) fn fragment(&self) -> (r: Option<&str>)
        ensures
            opt_view(r) == url_fragment(self@),
    {
        self.inner.fragment()
    }

    /// Sets the fragment (`url::Url::set_fragment`).
    #[verifier::external_body]
    pub(crate) fn set_fragment(&mut self, fragment: Option<&str>)
        ensures
            final(self)@ == url_with_fragment(old(self)@, opt_view(fragment)),
    {
        self.inner.set_fragment(fragment);
        self.text = self.inner.to_string();
    }

    /// Sets the query (`url::Url::set_query`).
    #[verifier::external_body]
    pub(crate) fn set_query(&mut self, query: Option<&str>)
        ensures
            final(self)@ == url_with_query(old(self)@, opt_view(query)),
    {
        self.inner.set_query(query);
        self.text = self.inner.to_string();
    }

    /// Sets the path (`url::Url::set_path`).
    #[verifier::external_body]
    pub(crate) fn set_path(&mut self, path: &str)
        ensures
            final(self)@ == url_with_path(old(self)@, path@),
    {
        self.inner.set_path(path);
        self.text = self.inner.to_string();
    }

    /// Changes the scheme (`url::Url::set_scheme`); the URL is unchanged when
    /// the scheme cannot be set.
    #[verifier::external_body]
    pub(crate) fn set_scheme(&mut self, scheme: &str) -> (r: Result<(), ()>)
        ensures
            match url_with_scheme(old(self)@, scheme@) {
                Some(u) => r is Ok && final(self)@ == u,
                None => r is Err && final(self)@ == old(self)@,
            },
    {
        let r = self.inner.set_scheme(scheme);
        self.text = self.inner.to_string();
        r
    }

    /// The relative link from this URL to `url` (`url::Url::make_relative`).
    /// Joining the link to this URL does not always give `url` back (a path
    /// with an empty segment, or a link that reads as a scheme), so nothing
    /// more is stated of it.
    #[verifier::external_body]
    pub(crate) fn make_relative(&self, url: &AbsoluteUrl) -> (r: Option<String>)
        ensures
            opt_string(r) == url_make_relative(self@, url@),
    {
        self.inner.make_relative(&url.inner)
    }

    /// The `file:` URL of an absolute path (`url::Url::from_file_path`); its
    /// scheme is `file`. On Unix-like systems, as here, it fails only for a
    /// path that is not absolute, that is one not starting with `/`.
    #[verifier::external_body]
    pub(crate) fn from_file_path(path: &str) -> (r: Result<AbsoluteUrl, ()>)
        ensures
            match r {
                Ok(u) => url_from_file_path(path@) == Some(u@),
                Err(_) => url_from_file_path(path@) is None,
            },
            r matches Ok(u) ==> url_scheme(u@) == "file"@,
            path_is_absolute(path@) ==> r is Ok,
    {
        url::Url::from_file_path(path).map(|u| AbsoluteUrl { text: u.to_string(), inner: u })
    }

    /// The `file:` URL of an absolute directory path, ending in `/`
    /// (`url::Url::from_directory_path`); its scheme is `file`.
    #[verifier::external_body]
    pub(crate) fn from_directory_path(path: &str) -> (r: Result<AbsoluteUrl, ()>)
        ensures
            match r {
                Ok(u) => url_from_directory_path(path@) == Some(u@),
                Err(_) => url_from_directory_path(path@) is None,
            },
            r matches Ok(u) ==> url_scheme(u@) == "file"@,
    {
        url::Url::from_directory_path(path).map(|u| AbsoluteUrl { text: u.to_string(), inner: u })
    }

    /// The path of a `file:` URL (`url::Url::to_file_path`), when it is
    /// valid UTF-8.
    #[verifier::external_body]
    pub(crate) fn to_file_path(&self) -> (r: Result<String, ()>)
        ensures
            match r {
                Ok(p) => url_to_file_path(self@) == Some(p@),
                Err(_) => url_to_file_path(self@) is None,
            },
    {
        self.inner.to_file_path().ok().and_then(|p| p.into_os_string().into_string().ok()).ok_or(())
    }
}

/// The view of an optional owned string.
pub open spec fn opt_string(s: Option<String>) -> Option<Seq<char>> {
    match s {
        Some(x) => Some(x@),
        None => None,
    }
}

/// Whether an IPv4 address (as a number) is a loopback address (`127.0.0.0/8`).
pub open spec fn ipv4_is_loopback(a: u32) -> bool {
    a / 0x100_0000 == 127
}

/// Whether an IPv4 address is private (`10.0.0.0/8`, `172.16.0.0/12`,
/// `192.168.0.0/16`).
pub open spec fn ipv4_is_private(a: u32) -> bool {
    a / 0x100_0000 == 10 || a / 0x10_0000 == 0xac1 || a / 0x1_0000 == 0xc0a8
}

/// Whether an IPv4 address is link-local (`169.254.0.0/16`).
pub open spec fn ipv4_is_link_local(a: u32) -> bool {
    a / 0x1_0000 == 0xa9fe
}

/// Whether an IPv6 address is the loopback address (`::1`).
pub open spec fn ipv6_is_loopback(a: u128) -> bool {
    a == 1
}

/// Whether an IPv6 address is a unique local address (`fc00::/7`).
pub open spec fn ipv6_is_unique_local(a: u128) -> bool {
    a / 0x200_0000_0000_0000_0000_0000_0000_0000 == 0x7e
}

/// Whether an IPv6 address is a unicast link-local address (`fe80::/10`).
pub open spec fn ipv6_is_unicast_link_local(a: u128) -> bool {
    a / 0x40_0000_0000_0000_0000_0000_0000_0000 == 0x3fa
}

/// Whether `a` is a loopback IPv4 address.
pub fn ipv4_loopback(a: u32) -> (r: bool)
    ensures
        r == ipv4_is_loopback(a),
{
    assert(a >> 24u32 == a / 0x100_0000) by (bit_vector);
    (a >> 24u32) == 127
}

/// Whether `a` is a private IPv4 address.
pub fn ipv4_private(a: u32) -> (r: bool)
    ensures
        r == ipv4_is_private(a),
{
    assert(a >> 24u32 == a / 0x100_0000) by (bit_vector);
    assert(a >> 20u32 == a / 0x10_0000) by (bit_vector);
    assert(a >> 16u32 == a / 0x1_0000) by (bit_vector);
    (a >> 24u32) == 10 || (a >> 20u32) == 0xac1 || (a >> 16u32) == 0xc0a8
}

/// Whether `a` is a link-local IPv4 address.
pub fn ipv4_link_local(a: u32) -> (r: bool)
    ensures
        r == ipv4_is_link_local(a),
{
    assert(a >> 16u32 == a / 0x1_0000) by (bit_vector);
    (a >> 16u32) == 0xa9fe
}

/// Whether `a` is a unique local IPv6 address.
pub fn ipv6_unique_local(a: u128) -> (r: bool)
    ensures
        r == ipv6_is_unique_local(a),
{
    assert(a >> 121u32 == a / 0x200_0000_0000_0000_0000_0000_0000_0000) by (bit_vector);
    (a >> 121u32) == 0x7e
}

/// Whether `a` is a unicast link-local IPv6 address.
pub fn ipv6_unicast_link_local(a: u128) -> (r: bool)
    ensures
        r == ipv6_is_unicast_link_local(a),
{
    assert(a >> 118u32 == a / 0x40_0000_0000_0000_0000_0000_0000_0000) by (bit_vector);
    (a >> 118u32) == 0x3fa
}

} // verus!
