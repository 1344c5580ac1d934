//! Checking the fragment of a link: the element it points to, and the text
//! directive it may carry.
use vstd::prelude::*;

use crate::address::{opt_view, url_domain, url_fragment, url_with_fragment, AbsoluteUrl};
use crate::error::{ErrorKind, ErrorKindView};
use crate::files::{lowercase, to_lowercase, FileType};
use crate::parsed_fragment::directive_views;
use crate::request_builder::{percent_decode_utf8, percent_decoded};
use crate::text::{
    append_str, chars_of, ends_with, lemma_find, split, split_chars, split_once, split_once_str,
    str_eq, string_of, string_views, views,
};
use crate::text_fragments::{check_text_fragments, text_fragments_found};

verus! {

/// The first text directive among the components of a fragment directive,
/// still percent-encoded.
pub open spec fn first_text_value(components: Seq<Seq<char>>) -> Option<Seq<char>>
    decreases components.len(),
{
    if components.len() == 0 {
        None
    } else {
        match split_once(components[0], "="@) {
            Some((key, value)) => if key == "text"@ {
                Some(value)
            } else {
                first_text_value(components.drop_first())
            },
            None => first_text_value(components.drop_first()),
        }
    }
}

fn first_text_directive(components: &Vec<Vec<char>>) -> (r: Option<String>)
    ensures
        crate::address::opt_string(r) == first_text_value(views(components@)),
{
    let ghost cs = views(components@);
    let mut k: usize = 0;
    assert(cs.skip(0) =~= cs);
    while k < components.len()
        invariant
            k <= components.len(),
            cs == views(components@),
            first_text_value(cs) == first_text_value(cs.skip(k as int)),
        decreases components.len() - k,
    {
        let ghost rest = cs.skip(k as int);
        assert(rest[0] == components@[k as int]@);
        assert(rest.drop_first() =~= cs.skip(k + 1));
        let component = string_of(components[k].as_slice());
        match split_once_str(component.as_str(), "=") {
            Some((key, value)) => {
                if str_eq(key.as_str(), "text") {
                    return Some(value);
                }
            },
            None => {},
        }
        k += 1;
    }
    None
}

/// A URL fragment split into the element id and the first text directive.
/// The directive is kept percent-encoded, because commas and dashes have a
/// special meaning in it.
#[derive(Debug, PartialEq, Eq)]
pub struct ParsedFragment<'a> {
    /// The element id part of the fragment, e.g. `section` in
    /// `https://example.com/#section:~:text=example`.
    pub element_id: Option<&'a str>,
    /// The raw value of the first text directive, e.g. `example`.
    pub encoded_text_directive_value: Option<String>,
}

/// What a fragment holds: the element id as for
/// [`crate::parsed_fragment::fragment_parse`], and the first text
/// directive.
pub open spec fn fragment_parse_first(fragment: Option<Seq<char>>) -> (Option<Seq<char>>, Option<Seq<char>>) {
    match fragment {
        None => (None, None),
        Some(f) => match split_once(f, ":~:"@) {
            None => (Some(f), None),
            Some((id, directive)) => (
                if id.len() == 0 {
                    None
                } else {
                    Some(id)
                },
                first_text_value(split(directive, '&')),
            ),
        },
    }
}

impl<'a> ParsedFragment<'a> {
    /// The element id and the first text directive of the fragment of a
    /// URL.
    pub fn parse(url: &'a AbsoluteUrl) -> (r: Self)
        ensures
            (opt_view(r.element_id), crate::address::opt_string(r.encoded_text_directive_value))
                == fragment_parse_first(url_fragment(url@)),
    {
        let fragment = match url.fragment() {
            Some(f) => f,
            None => return ParsedFragment { element_id: None, encoded_text_directive_value: None },
        };
        let v = chars_of(fragment);
        let d = chars_of(":~:");
        proof {
            lemma_find(v@, d@);
        }
        let i = match crate::text::find_chars(v.as_slice(), d.as_slice()) {
            Some(i) => i,
            None => return ParsedFragment { element_id: Some(fragment), encoded_text_directive_value: None },
        };
        assert(i + d.len() <= v.len());
        let element_id = if i == 0 {
            None
        } else {
            Some(fragment.substring_char(0, i))
        };
        let rest = crate::text::slice_of(v.as_slice(), i + d.len(), v.len());
        let components = split_chars(rest.as_slice(), '&');
        let ghost cs = views(components@);
        proof {
            assert(split_once(v@, d@) == Some((v@.take(i as int), rest@)));
            assert(fragment_parse_first(url_fragment(url@)) == (opt_view(element_id), first_text_value(cs)));
        }
        let value = first_text_directive(&components);
        ParsedFragment { element_id, encoded_text_directive_value: value }
    }
}


/// The candidates for a fragment: the fragment itself, with the
/// `user-content-` prefix for GitHub, and their percent-decoded forms (in
/// lowercase for Markdown) where these differ.
pub struct FragmentBuilder {
    variants: Vec<String>,
    decoded: Vec<String>,
}

/// The variants of a fragment: itself, and with the `user-content-` prefix
/// for a URL on a host ending in `github.com`.
pub open spec fn fragment_variants(fragment: Seq<char>, url: Seq<char>) -> Seq<Seq<char>> {
    if url_domain(url) matches Some(h) && ends_with(h, "github.com"@) {
        seq![fragment, "user-content-"@ + fragment]
    } else {
        seq![fragment]
    }
}

/// The decoded form of a variant, when it differs from the variant.
pub open spec fn decoded_variant(v: Seq<char>, file_type: FileType) -> Result<Option<Seq<char>>, Seq<char>> {
    match percent_decoded(v) {
        None => Err(v),
        Some(d) => {
            let changed = d != v;
            if file_type == FileType::Markdown && lowercase(d) != d {
                Ok(Some(lowercase(d)))
            } else if changed {
                Ok(Some(d))
            } else {
                Ok(None)
            }
        },
    }
}

/// The decoded forms of the variants that differ from them, in order; the
/// first variant that is not UTF-8 once decoded is an error.
pub open spec fn decoded_variants(vs: Seq<Seq<char>>, file_type: FileType) -> Result<Seq<Seq<char>>, Seq<char>>
    decreases vs.len(),
{
    if vs.len() == 0 {
        Ok(Seq::empty())
    } else {
        match decoded_variants(vs.drop_last(), file_type) {
            Err(e) => Err(e),
            Ok(prev) => match decoded_variant(vs.last(), file_type) {
                Err(e) => Err(e),
                Ok(Some(d)) => Ok(prev.push(d)),
                Ok(None) => Ok(prev),
            },
        }
    }
}

impl View for FragmentBuilder {
    type V = (Seq<Seq<char>>, Seq<Seq<char>>);

    closed spec fn view(&self) -> (Seq<Seq<char>>, Seq<Seq<char>>) {
        (string_views(self.variants@), string_views(self.decoded@))
    }
}

impl FragmentBuilder {
    /// The candidates for the fragment of a URL of the given file type.
    pub fn new(fragment: &str, url: &AbsoluteUrl, file_type: FileType) -> (r: Result<Self, ErrorKind>)
        ensures
            match decoded_variants(fragment_variants(fragment@, url@), file_type) {
                Ok(d) => (r matches Ok(b) && b@ == (fragment_variants(fragment@, url@), d)),
                Err(v) => (r matches Err(e) && e@ == ErrorKindView::Utf8(v)),
            },
    {
        let mut variants: Vec<String> = Vec::new();
        variants.push(string_of(chars_of(fragment).as_slice()));
        let github = match url.domain() {
            Some(h) => crate::text::ends_with_chars(chars_of(h.as_str()).as_slice(), chars_of("github.com").as_slice()),
            None => false,
        };
        if github {
            let mut v: Vec<char> = Vec::new();
            append_str(&mut v, "user-content-");
            append_str(&mut v, fragment);
            variants.push(string_of(v.as_slice()));
        }
        let ghost vs = fragment_variants(fragment@, url@);
        assert(string_views(variants@) =~= vs);
        let mut decoded: Vec<String> = Vec::new();
        let mut i: usize = 0;
        assert(vs.take(0) =~= Seq::<Seq<char>>::empty());
        assert(string_views(decoded@) =~= Seq::<Seq<char>>::empty());
        while i < variants.len()
            invariant
                i <= variants.len(),
                vs == string_views(variants@),
                vs == fragment_variants(fragment@, url@),
                decoded_variants(vs.take(i as int), file_type) == Ok::<Seq<Seq<char>>, Seq<char>>(
                    string_views(decoded@),
                ),
            decreases variants.len() - i,
        {
            assert(vs.take(i + 1).drop_last() =~= vs.take(i as int));
            assert(vs.take(i + 1).last() == variants@[i as int]@);
            let frag = variants[i].as_str();
            let d = match percent_decode_utf8(frag) {
                Some(d) => d,
                None => {
                    proof {
                        assert(vs[i as int] == frag@);
                        assert(decoded_variant(vs[i as int], file_type) is Err);
                        assert(vs.take(i + 1 - 1) =~= vs.take(i as int));
                        lemma_decoded_error_stays(vs, i + 1, file_type);
                        assert(decoded_variants(vs, file_type) == Err::<Seq<Seq<char>>, Seq<char>>(frag@));
                    }
                    let e = ErrorKind::Utf8(string_of(chars_of(frag).as_slice()));
                    assert(e@ == ErrorKindView::Utf8(frag@));
                    return Err(e);
                },
            };
            let changed = !str_eq(d.as_str(), frag);
            let ghost before = string_views(decoded@);
            if file_type == FileType::Markdown {
                let lower = to_lowercase(d.as_str());
                if !str_eq(lower.as_str(), d.as_str()) {
                    decoded.push(lower);
                    assert(string_views(decoded@) =~= before.push(lowercase(d@)));
                } else if changed {
                    let ghost dv = d@;
                    decoded.push(d);
                    assert(string_views(decoded@) =~= before.push(dv));
                }
            } else if changed {
                let ghost dv = d@;
                decoded.push(d);
                assert(string_views(decoded@) =~= before.push(dv));
            }
            i += 1;
        }
        assert(vs.take(variants.len() as int) =~= vs);
        Ok(FragmentBuilder { variants, decoded })
    }
}

/// Every percent-encoded variant of a fragment is also a candidate in its
/// decoded form, for every file type: when decoding a variant changes it,
/// the decoded text is among the decoded candidates (in lowercase for
/// Markdown, whose headings are matched in lowercase, where a Markdown
/// decoded form that lowercasing changes is kept in lowercase too).
pub proof fn law_decoded_forms_are_candidates(
    vs: Seq<Seq<char>>,
    file_type: FileType,
    ds: Seq<Seq<char>>,
    i: int,
    d: Seq<char>,
)
    requires
        decoded_variants(vs, file_type) == Ok::<Seq<Seq<char>>, Seq<char>>(ds),
        0 <= i < vs.len(),
        percent_decoded(vs[i]) == Some(d),
    ensures
        d != vs[i] && file_type != FileType::Markdown ==> ds.contains(d),
        d != vs[i] && file_type == FileType::Markdown ==> ds.contains(lowercase(d)),
        file_type == FileType::Markdown && lowercase(d) != d ==> ds.contains(lowercase(d)),
    decreases vs.len(),
{
    let prev = vs.drop_last();
    let n = vs.len() - 1;
    match decoded_variants(prev, file_type) {
        Ok(p) => {
            if i < n {
                assert(prev[i] == vs[i]);
                law_decoded_forms_are_candidates(prev, file_type, p, i, d);
                match decoded_variant(vs.last(), file_type) {
                    Ok(Some(x)) => {
                        assert(ds == p.push(x));
                        if p.contains(d) {
                            let k = choose|k: int| 0 <= k < p.len() && p[k] == d;
                            assert(ds[k] == d);
                        }
                        if p.contains(lowercase(d)) {
                            let k = choose|k: int| 0 <= k < p.len() && p[k] == lowercase(d);
                            assert(ds[k] == lowercase(d));
                        }
                    },
                    _ => {},
                }
            } else {
                assert(vs.last() == vs[i]);
                match decoded_variant(vs.last(), file_type) {
                    Ok(Some(x)) => {
                        assert(ds == p.push(x));
                        assert(ds[p.len() as int] == x);
                    },
                    _ => {},
                }
            }
        },
        Err(_) => {},
    }
}

proof fn lemma_decoded_error_stays(vs: Seq<Seq<char>>, n: int, file_type: FileType)
    requires
        0 < n <= vs.len(),
        decoded_variant(vs[n - 1], file_type) is Err,
        decoded_variants(vs.take(n - 1), file_type) is Ok,
    ensures
        decoded_variants(vs, file_type) == Err::<Seq<Seq<char>>, Seq<char>>(vs[n - 1]),
    decreases vs.len() - n,
{
    assert(vs.take(n).drop_last() =~= vs.take(n - 1));
    assert(vs.take(n).last() == vs[n - 1]);
    if n == vs.len() {
        assert(vs.take(n) =~= vs);
    } else {
        lemma_decoded_error_prefix(vs, n, file_type);
    }
}

proof fn lemma_decoded_error_prefix(vs: Seq<Seq<char>>, n: int, file_type: FileType)
    requires
        0 < n <= vs.len(),
        decoded_variants(vs.take(n), file_type) is Err,
    ensures
        decoded_variants(vs, file_type) == decoded_variants(vs.take(n), file_type),
    decreases vs.len() - n,
{
    if n < vs.len() {
        assert(vs.take(n + 1).drop_last() =~= vs.take(n));
        lemma_decoded_error_prefix(vs, n + 1, file_type);
    } else {
        assert(vs.take(n) =~= vs);
    }
}

/// Whether any candidate is among the fragments of a file.
pub open spec fn any_candidate(candidates: (Seq<Seq<char>>, Seq<Seq<char>>), fragments: Seq<Seq<char>>) -> bool {
    exists|x: Seq<char>|
        (candidates.0.contains(x) || candidates.1.contains(x)) && #[trigger] fragments.contains(x)
}

fn contains_string(list: &Vec<String>, s: &str) -> (r: bool)
    ensures
        r == string_views(list@).contains(s@),
{
    let ghost lv = string_views(list@);
    let mut i: usize = 0;
    while i < list.len()
        invariant
            i <= list.len(),
            lv == string_views(list@),
            forall|j: int| 0 <= j < i ==> lv[j] != s@,
        decreases list.len() - i,
    {
        if str_eq(list[i].as_str(), s) {
            assert(lv[i as int] == s@);
            return true;
        }
        i += 1;
    }
    assert(!lv.contains(s@)) by {
        if lv.contains(s@) {
            let j = choose|j: int| 0 <= j < lv.len() && lv[j] == s@;
            assert(lv[j] != s@);
        }
    }
    false
}

fn any_in(candidates: &Vec<String>, fragments: &Vec<String>) -> (r: bool)
    ensures
        r == exists|x: Seq<char>|
            string_views(candidates@).contains(x) && #[trigger] string_views(fragments@).contains(x),
{
    let ghost cv = string_views(candidates@);
    let ghost fv = string_views(fragments@);
    let mut i: usize = 0;
    while i < candidates.len()
        invariant
            i <= candidates.len(),
            cv == string_views(candidates@),
            fv == string_views(fragments@),
            forall|j: int| 0 <= j < i ==> !fv.contains(#[trigger] cv[j]),
        decreases candidates.len() - i,
    {
        if contains_string(fragments, candidates[i].as_str()) {
            assert(cv[i as int] == candidates@[i as int]@);
            assert(cv.contains(cv[i as int]));
            return true;
        }
        assert(cv[i as int] == candidates@[i as int]@);
        i += 1;
    }
    assert forall|x: Seq<char>| cv.contains(x) implies !#[trigger] fv.contains(x) by {
        let j = choose|j: int| 0 <= j < cv.len() && cv[j] == x;
        assert(!fv.contains(cv[j]));
    }
    false
}

impl FragmentBuilder {
    /// Whether any candidate is among the fragments of a file.
    pub fn any_matches(&self, fragments: &Vec<String>) -> (r: bool)
        ensures
            r == any_candidate(self@, string_views(fragments@)),
    {
        let a = any_in(&self.variants, fragments);
        let b = any_in(&self.decoded, fragments);
        proof {
            if a {
                let x = choose|x: Seq<char>|
                    string_views(self.variants@).contains(x) && #[trigger] string_views(fragments@).contains(x);
                assert(any_candidate(self@, string_views(fragments@)));
            }
            if b {
                let x = choose|x: Seq<char>|
                    string_views(self.decoded@).contains(x) && #[trigger] string_views(fragments@).contains(x);
                assert(any_candidate(self@, string_views(fragments@)));
            }
        }
        a || b
    }
}

/// The text of a URL without its fragment.
pub fn remove_fragment(url: AbsoluteUrl) -> (r: String)
    ensures
        r@ == url_with_fragment(url@, None),
{
    let mut url = url;
    url.set_fragment(None);
    string_of(chars_of(url.as_str()).as_slice())
}

/// The URL with the given fragment in place of its own.
pub fn with_element_fragment(url: &AbsoluteUrl, fragment: Option<&str>) -> (r: AbsoluteUrl)
    ensures
        r@ == url_with_fragment(url@, opt_view(fragment)),
{
    let mut updated = url.clone();
    updated.set_fragment(fragment);
    updated
}

/// Whether a text equals `top`, ignoring ASCII case.
pub open spec fn is_top(s: Seq<char>) -> bool {
    s.len() == 3 && (s[0] == 't' || s[0] == 'T') && (s[1] == 'o' || s[1] == 'O') && (s[2] == 'p'
        || s[2] == 'P')
}

/// What checking an element fragment against the fragments of a file
/// gives: found for no fragment, an empty one, `top`, or a file that is
/// neither Markdown nor HTML; otherwise whether a candidate is among the
/// fragments.
pub open spec fn anchor_found(
    file_type: FileType,
    url: Seq<char>,
    fragment: Option<Seq<char>>,
    file_fragments: Seq<Seq<char>>,
) -> Result<bool, Seq<char>> {
    match fragment {
        None => Ok(true),
        Some(f) => if f.len() == 0 || is_top(f) || file_type == FileType::Plaintext {
            Ok(true)
        } else {
            let anchor_url = url_with_fragment(url, Some(f));
            match decoded_variants(fragment_variants(f, anchor_url), file_type) {
                Ok(d) => Ok(any_candidate((fragment_variants(f, anchor_url), d), file_fragments)),
                Err(e) => Err(e),
            }
        },
    }
}

/// An empty fragment and `top` (in any case) are always found: they make
/// the browser scroll to the top.
pub proof fn law_top_fragments_are_found(
    file_type: FileType,
    url: Seq<char>,
    fragment: Seq<char>,
    file_fragments: Seq<Seq<char>>,
)
    requires
        fragment.len() == 0 || is_top(fragment),
    ensures
        anchor_found(file_type, url, Some(fragment), file_fragments) == Ok::<bool, Seq<char>>(true),
{
}

/// Checks an element fragment against the fragments found in the file.
pub fn check_anchor_fragment(
    file_type: FileType,
    url: &AbsoluteUrl,
    anchor_fragment: Option<&str>,
    file_fragments: &Vec<String>,
) -> (r: Result<bool, ErrorKind>)
    ensures
        match anchor_found(file_type, url@, opt_view(anchor_fragment), string_views(file_fragments@)) {
            Ok(b) => r == Ok::<bool, ErrorKind>(b),
            Err(v) => (r matches Err(e) && e@ == ErrorKindView::Utf8(v)),
        },
{
    let fragment = match anchor_fragment {
        Some(f) => f,
        None => return Ok(true),
    };
    let v = chars_of(fragment);
    if v.len() == 0 {
        return Ok(true);
    }
    if v.len() == 3 && (v[0] == 't' || v[0] == 'T') && (v[1] == 'o' || v[1] == 'O') && (v[2] == 'p'
        || v[2] == 'P') {
        return Ok(true);
    }
    if file_type == FileType::Plaintext {
        return Ok(true);
    }
    let anchor_url = with_element_fragment(url, anchor_fragment);
    let candidates = match FragmentBuilder::new(fragment, &anchor_url, file_type) {
        Ok(c) => c,
        Err(e) => return Err(e),
    };
    Ok(candidates.any_matches(file_fragments))
}

/// Which kinds of fragments to check.
#[derive(Debug, Clone, Copy, PartialEq, Eq, Structural)]
pub struct FragmentCheckerOptions {
    /// Check element fragments (anchors).
    pub check_anchor_fragments: bool,
    /// Check text fragments (`:~:text=` directives).
    pub check_text_fragments: bool,
}

/// Whether the fragments of a URL are valid for a document: its element
/// fragment must be among the fragments of the file, and its text
/// directives must be found in it, as far as the options ask.
pub open spec fn fragments_valid(
    content: Seq<char>,
    file_type: FileType,
    url: Seq<char>,
    options: FragmentCheckerOptions,
    file_fragments: Seq<Seq<char>>,
) -> Result<bool, Seq<char>> {
    let (element_id, text) = fragment_parse_first(url_fragment(url));
    let anchor = if options.check_anchor_fragments && element_id is Some {
        anchor_found(file_type, url, element_id, file_fragments)
    } else {
        Ok(true)
    };
    match anchor {
        Err(e) => Err(e),
        Ok(false) => Ok(false),
        Ok(true) => Ok(
            !(options.check_text_fragments && text is Some && !text_fragments_found(
                crate::parsed_fragment::fragment_parse(url_fragment(url)).1,
                content,
                file_type,
            )),
        ),
    }
}

/// Checks whether the fragments of a URL are valid for a document whose
/// element fragments are `file_fragments`.
pub fn check(
    content: &str,
    file_type: FileType,
    url: &AbsoluteUrl,
    options: FragmentCheckerOptions,
    file_fragments: &Vec<String>,
) -> (r: Result<bool, ErrorKind>)
    ensures
        match fragments_valid(content@, file_type, url@, options, string_views(file_fragments@)) {
            Ok(b) => r == Ok::<bool, ErrorKind>(b),
            Err(v) => (r matches Err(e) && e@ == ErrorKindView::Utf8(v)),
        },
{
    let parsed = ParsedFragment::parse(url);
    if options.check_anchor_fragments && parsed.element_id.is_some() {
        match check_anchor_fragment(file_type, url, parsed.element_id, file_fragments) {
            Ok(true) => {},
            Ok(false) => return Ok(false),
            Err(e) => return Err(e),
        }
    }
    if options.check_text_fragments && parsed.encoded_text_directive_value.is_some() {
        let directives = crate::parsed_fragment::ParsedFragment::parse(url);
        if !check_text_fragments(&directives.text_directives, content, file_type) {
            return Ok(false);
        }
    }
    Ok(true)
}

} // verus!
