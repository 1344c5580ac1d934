//! Detecting the anti-bot protection of websites, to tell users why their
//! links may fail.
use vstd::prelude::*;

use crate::address::{opt_view, url_host_str};
use crate::hints::Hint;
use crate::text::{append_str, contains, str_contains, str_eq, string_of};
use crate::uri::Uri;

verus! {

/// Common anti-bot software.
#[derive(Debug, Clone, Copy, PartialEq, Eq, Structural)]
pub enum AntiBotSoftware {
    /// Datadome
    Datadome,
    /// Cloudflare
    Cloudflare,
    /// go-away
    GoAway,
    /// Anubis
    Anubis,
}

/// The name of each [`AntiBotSoftware`].
pub open spec fn software_name(s: AntiBotSoftware) -> Seq<char> {
    match s {
        AntiBotSoftware::Datadome => "Datadome"@,
        AntiBotSoftware::Cloudflare => "Cloudflare"@,
        AntiBotSoftware::GoAway => "go-away"@,
        AntiBotSoftware::Anubis => "Anubis"@,
    }
}

impl AntiBotSoftware {
    /// The name of the software.
    pub fn to_string(&self) -> (r: &'static str)
        ensures
            r@ == software_name(*self),
    {
        match self {
            AntiBotSoftware::Datadome => "Datadome",
            AntiBotSoftware::Cloudflare => "Cloudflare",
            AntiBotSoftware::GoAway => "go-away",
            AntiBotSoftware::Anubis => "Anubis",
        }
    }
}

/// The headers of a response, by lowercase name, each with its value when
/// that is visible ASCII text.
pub type HeaderViews = Seq<(Seq<char>, Option<Seq<char>>)>;

/// The views of headers.
pub open spec fn header_views(h: Seq<(String, Option<String>)>) -> HeaderViews {
    h.map_values(
        |p: (String, Option<String>)|
            (
                p.0@,
                match p.1 {
                    Some(v) => Some(v@),
                    None => None,
                },
            ),
    )
}

/// The first header with the given name: whether there is one, and its
/// value as text.
pub open spec fn header(h: HeaderViews, name: Seq<char>) -> Option<Option<Seq<char>>>
    decreases h.len(),
{
    if h.len() == 0 {
        None
    } else if h[0].0 == name {
        Some(h[0].1)
    } else {
        header(h.drop_first(), name)
    }
}

/// Whether a header has a text value that satisfies the test.
pub open spec fn header_text_contains(h: HeaderViews, name: Seq<char>, part: Seq<char>) -> bool {
    header(h, name) matches Some(Some(v)) && contains(v, part)
}

/// The anti-bot software detected from the status code and headers of a
/// response.
pub open spec fn detected(status: u16, h: HeaderViews) -> Option<AntiBotSoftware> {
    let client_error = 400 <= status && status <= 499;
    if client_error && header(h, "x-datadome"@) is Some {
        Some(AntiBotSoftware::Datadome)
    } else if client_error && header(h, "server"@) == Some(Some("cloudflare"@)) {
        Some(AntiBotSoftware::Cloudflare)
    } else if client_error && header_text_contains(h, "set-cookie"@, "go-away"@) {
        Some(AntiBotSoftware::GoAway)
    } else if header_text_contains(h, "refresh"@, "anubis/api/pass-challenge"@) {
        Some(AntiBotSoftware::Anubis)
    } else {
        None
    }
}

fn find_header<'a>(headers: &'a Vec<(String, Option<String>)>, name: &str) -> (r: Option<
    &'a Option<String>,
>)
    ensures
        match r {
            Some(v) => header(header_views(headers@), name@) == Some(
                match *v {
                    Some(x) => Some(x@),
                    None => None,
                },
            ),
            None => header(header_views(headers@), name@) is None,
        },
{
    let ghost hv = header_views(headers@);
    let mut i: usize = 0;
    assert(hv.skip(0) =~= hv);
    while i < headers.len()
        invariant
            i <= headers.len(),
            hv == header_views(headers@),
            header(hv, name@) == header(hv.skip(i as int), name@),
        decreases headers.len() - i,
    {
        assert(hv.skip(i as int)[0] == hv[i as int]);
        assert(hv.skip(i as int).drop_first() =~= hv.skip(i + 1));
        if str_eq(headers[i].0.as_str(), name) {
            return Some(&headers[i].1);
        }
        i += 1;
    }
    None
}

fn header_contains(headers: &Vec<(String, Option<String>)>, name: &str, part: &str) -> (r: bool)
    ensures
        r == header_text_contains(header_views(headers@), name@, part@),
{
    match find_header(headers, name) {
        Some(Some(v)) => str_contains(v.as_str(), part),
        _ => false,
    }
}

/// Detects common anti-bot software from the status code and headers of a
/// response (headers by lowercase name, with their values when these are
/// visible ASCII text).
pub fn detect_software(status: u16, headers: &Vec<(String, Option<String>)>) -> (r: Option<
    AntiBotSoftware,
>)
    ensures
        r == detected(status, header_views(headers@)),
{
    let client_error = 400 <= status && status <= 499;
    if client_error && find_header(headers, "x-datadome").is_some() {
        return Some(AntiBotSoftware::Datadome);
    }
    if client_error {
        let cloudflare = match find_header(headers, "server") {
            Some(Some(v)) => str_eq(v.as_str(), "cloudflare"),
            _ => false,
        };
        if cloudflare {
            return Some(AntiBotSoftware::Cloudflare);
        }
    }
    if client_error && header_contains(headers, "set-cookie", "go-away") {
        return Some(AntiBotSoftware::GoAway);
    }
    if header_contains(headers, "refresh", "anubis/api/pass-challenge") {
        return Some(AntiBotSoftware::Anubis);
    }
    None
}

/// The hint to give for a response: the software detected and the host of
/// the link, when both are known.
pub open spec fn bot_hint(uri: Seq<char>, status: u16, h: HeaderViews) -> Option<Seq<char>> {
    match (url_host_str(uri), detected(status, h)) {
        (Some(host), Some(s)) => Some(
            "Detected "@ + software_name(s) + " anti-bot protection on website "@ + host,
        ),
        _ => None,
    }
}

/// The hint warning about the anti-bot protection detected on the website
/// of a link, if any.
pub fn hint_bot_detection(uri: &Uri, status: u16, headers: &Vec<(String, Option<String>)>) -> (r:
    Option<Hint>)
    ensures
        match r {
            Some(h) => bot_hint(uri@, status, header_views(headers@)) == Some(h@),
            None => bot_hint(uri@, status, header_views(headers@)) is None,
        },
{
    let host = match uri.url.host_str() {
        Some(h) => h,
        None => return None,
    };
    let software = match detect_software(status, headers) {
        Some(s) => s,
        None => return None,
    };
    let mut out: Vec<char> = Vec::new();
    append_str(&mut out, "Detected ");
    append_str(&mut out, software.to_string());
    append_str(&mut out, " anti-bot protection on website ");
    append_str(&mut out, host);
    Some(Hint::from_string(string_of(out.as_slice())))
}

} // verus!
