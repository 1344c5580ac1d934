//! Why a link was excluded from checking, and the flavor of Markdown.
use vstd::prelude::*;

use crate::text::{append_str, chars_of, string_of};

verus! {

/// Why a link was excluded from checking.
#[derive(Debug, Clone, PartialEq, Eq, Hash)]
pub enum ExcludeReason {
    /// A user-provided exclude pattern matched the resource.
    Pattern(String),
    /// Mail checking is disabled.
    Mail,
    /// The URI scheme is not among the accepted schemes.
    Scheme(String),
    /// The host is excluded.
    Host(String),
    /// The IP address is in the loopback range.
    LoopbackIp(String),
    /// The IP address is in a private range.
    PrivateIp(String),
    /// The IP address is in the link-local range.
    LinkLocalIp(String),
    /// Telephone links are not checked.
    Telephone,
    /// Reserved example domains are not checked.
    ExampleDomain,
    /// The domain is not supported.
    UnsupportedDomain,
    /// The resource is a known false positive.
    FalsePositive,
    /// No user-provided include pattern matched the resource.
    NotIncluded,
    /// Mail checking support is not enabled in this build.
    MailFeatureDisabled,
    /// A request chain excluded the resource.
    RequestChain,
}

/// The message of each [`ExcludeReason`].
pub open spec fn exclude_message(r: ExcludeReason) -> Seq<char> {
    match r {
        ExcludeReason::Pattern(p) => "Excluded by pattern: `"@ + p@ + "`"@,
        ExcludeReason::Mail => "Excluded: mail checking is disabled (use --include-mail to enable)"@,
        ExcludeReason::Scheme(s) => "Excluded: scheme `"@ + s@ + "` is not among the accepted schemes"@,
        ExcludeReason::Host(h) => "Excluded: host `"@ + h@
            + "` resolves to a loopback address (use --exclude-loopback=false to check it)"@,
        ExcludeReason::LoopbackIp(a) => "Excluded: `"@ + a@
            + "` is a loopback IP address (use --exclude-loopback=false to check it)"@,
        ExcludeReason::PrivateIp(a) => "Excluded: `"@ + a@
            + "` is a private IP address (use --exclude-private=false to check it)"@,
        ExcludeReason::LinkLocalIp(a) => "Excluded: `"@ + a@
            + "` is a link-local IP address (use --exclude-link-local=false to check it)"@,
        ExcludeReason::Telephone => "Excluded: telephone links are not checked"@,
        ExcludeReason::ExampleDomain => "Excluded: example domains are not checked"@,
        ExcludeReason::UnsupportedDomain => "Excluded: domain is not supported"@,
        ExcludeReason::FalsePositive => "Excluded: known false positive"@,
        ExcludeReason::NotIncluded => "Excluded: no include pattern matched"@,
        ExcludeReason::MailFeatureDisabled => "Excluded: mail checking support is not enabled in this build"@,
        ExcludeReason::RequestChain => "Excluded by request chain"@,
    }
}

fn framed(before: &str, middle: &str, after: &str) -> (r: String)
    ensures
        r@ == before@ + middle@ + after@,
{
    let mut out: Vec<char> = Vec::new();
    append_str(&mut out, before);
    append_str(&mut out, middle);
    append_str(&mut out, after);
    string_of(out.as_slice())
}

fn owned(s: &str) -> (r: String)
    ensures
        r@ == s@,
{
    string_of(chars_of(s).as_slice())
}

impl ExcludeReason {
    /// The message describing why the link was excluded.
    pub fn to_string(&self) -> (r: String)
        ensures
            r@ == exclude_message(*self),
    {
        match self {
            ExcludeReason::Pattern(p) => framed("Excluded by pattern: `", p.as_str(), "`"),
            ExcludeReason::Mail => owned("Excluded: mail checking is disabled (use --include-mail to enable)"),
            ExcludeReason::Scheme(s) => framed(
                "Excluded: scheme `",
                s.as_str(),
                "` is not among the accepted schemes",
            ),
            ExcludeReason::Host(h) => framed(
                "Excluded: host `",
                h.as_str(),
                "` resolves to a loopback address (use --exclude-loopback=false to check it)",
            ),
            ExcludeReason::LoopbackIp(a) => framed(
                "Excluded: `",
                a.as_str(),
                "` is a loopback IP address (use --exclude-loopback=false to check it)",
            ),
            ExcludeReason::PrivateIp(a) => framed(
                "Excluded: `",
                a.as_str(),
                "` is a private IP address (use --exclude-private=false to check it)",
            ),
            ExcludeReason::LinkLocalIp(a) => framed(
                "Excluded: `",
                a.as_str(),
                "` is a link-local IP address (use --exclude-link-local=false to check it)",
            ),
            ExcludeReason::Telephone => owned("Excluded: telephone links are not checked"),
            ExcludeReason::ExampleDomain => owned("Excluded: example domains are not checked"),
            ExcludeReason::UnsupportedDomain => owned("Excluded: domain is not supported"),
            ExcludeReason::FalsePositive => owned("Excluded: known false positive"),
            ExcludeReason::NotIncluded => owned("Excluded: no include pattern matched"),
            ExcludeReason::MailFeatureDisabled => owned(
                "Excluded: mail checking support is not enabled in this build",
            ),
            ExcludeReason::RequestChain => owned("Excluded by request chain"),
        }
    }
}

/// The flavor of Markdown.
#[derive(Clone, Debug, Copy, PartialEq, Eq, Structural)]
pub enum MarkdownFlavor {
    /// The default style, "classic markdown"
    CommonMark,
    /// Media Wiki style
    MediaWiki,
}

/// The code of a character in ASCII lowercase.
pub open spec fn ascii_lower(c: char) -> u32 {
    if 'A' <= c && c <= 'Z' {
        ((c as u32) + 32) as u32
    } else {
        c as u32
    }
}

/// Whether two texts are equal, ignoring ASCII case.
pub open spec fn eq_ignore_ascii_case(a: Seq<char>, b: Seq<char>) -> bool {
    a.len() == b.len() && forall|i: int| 0 <= i < a.len() ==> ascii_lower(#[trigger] a[i]) == ascii_lower(b[i])
}

fn lower_char(c: char) -> (r: u32)
    ensures
        r == ascii_lower(c),
{
    if 'A' <= c && c <= 'Z' {
        (c as u32) + 32
    } else {
        c as u32
    }
}

/// Whether two texts are equal, ignoring ASCII case.
pub fn str_eq_ignore_ascii_case(a: &str, b: &str) -> (r: bool)
    ensures
        r == eq_ignore_ascii_case(a@, b@),
{
    let x = chars_of(a);
    let y = chars_of(b);
    if x.len() != y.len() {
        return false;
    }
    let mut i: usize = 0;
    while i < x.len()
        invariant
            i <= x.len(),
            x.len() == y.len(),
            x@ == a@,
            y@ == b@,
            forall|j: int| 0 <= j < i ==> ascii_lower(#[trigger] x@[j]) == ascii_lower(y@[j]),
        decreases x.len() - i,
    {
        if lower_char(x[i]) != lower_char(y[i]) {
            return false;
        }
        i += 1;
    }
    true
}

/// The flavor named by a text, ignoring ASCII case.
pub open spec fn flavor_named(s: Seq<char>) -> Option<MarkdownFlavor> {
    if eq_ignore_ascii_case(s, "commonmark"@) {
        Some(MarkdownFlavor::CommonMark)
    } else if eq_ignore_ascii_case(s, "mediawiki"@) {
        Some(MarkdownFlavor::MediaWiki)
    } else {
        None
    }
}

impl MarkdownFlavor {
    /// The default flavor: CommonMark.
    pub fn default() -> (r: Self)
        ensures
            r == MarkdownFlavor::CommonMark,
    {
        MarkdownFlavor::CommonMark
    }

    /// The flavor named `commonmark` or `mediawiki`, in any ASCII case.
    pub fn from_str(s: &str) -> (r: Option<Self>)
        ensures
            r == flavor_named(s@),
    {
        if str_eq_ignore_ascii_case(s, "commonmark") {
            Some(MarkdownFlavor::CommonMark)
        } else if str_eq_ignore_ascii_case(s, "mediawiki") {
            Some(MarkdownFlavor::MediaWiki)
        } else {
            None
        }
    }

    /// The name of the flavor.
    pub fn to_string(&self) -> (r: &'static str)
        ensures
            r@ == match *self {
                MarkdownFlavor::CommonMark => "commonmark"@,
                MarkdownFlavor::MediaWiki => "mediawiki"@,
            },
    {
        match self {
            MarkdownFlavor::CommonMark => "commonmark",
            MarkdownFlavor::MediaWiki => "mediawiki",
        }
    }
}

} // verus!
