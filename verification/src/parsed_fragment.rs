//! The fragment of a URL, split into the element id and the text
//! directives that follow the fragment directive delimiter `:~:`.
use vstd::prelude::*;

use crate::address::{opt_string, url_fragment, AbsoluteUrl};
use crate::text::{
    chars_eq_str, chars_of, ends_with, find, lemma_find, split, split_chars, split_once,
    split_once_str, starts_with, str_eq, string_of, string_views, views,
};

verus! {

/// A text directive `[prefix-,]start[,end][,-suffix]`: the text to look
/// for, possibly a range, with optional context before and after.
#[derive(Debug, Clone, PartialEq, Eq)]
pub struct TextDirective {
    /// The context before the text.
    pub prefix: Option<String>,
    /// The text, or the start of the range.
    pub start: String,
    /// The end of the range.
    pub end: Option<String>,
    /// The context after the text.
    pub suffix: Option<String>,
}

/// The view of a [`TextDirective`]: prefix, start, end, suffix.
pub type DirectiveView = (Option<Seq<char>>, Seq<char>, Option<Seq<char>>, Option<Seq<char>>);

impl View for TextDirective {
    type V = DirectiveView;

    open spec fn view(&self) -> DirectiveView {
        (opt_string(self.prefix), self.start@, opt_string(self.end), opt_string(self.suffix))
    }
}

/// The views of a sequence of text directives.
pub open spec fn directive_views(v: Seq<TextDirective>) -> Seq<DirectiveView> {
    v.map_values(|d: TextDirective| d@)
}

/// The percent-decoding of a text, with invalid UTF-8 replaced
/// (`percent_decode_str(..).decode_utf8_lossy()`).
pub uninterp spec fn percent_decoded_lossy(s: Seq<char>) -> Seq<char>;

/// Percent-decodes a text, replacing invalid UTF-8 sequences.
#[verifier::external_body]
fn percentage_decode(input: &str) -> (r: String)
    ensures
        r@ == percent_decoded_lossy(input@),
{
    percent_encoding::percent_decode_str(input).decode_utf8_lossy().into_owned()
}

/// The parts of a directive after taking the prefix off: the decoded
/// prefix when the first of at least two parts ends with `-`.
pub open spec fn take_prefix(parts: Seq<Seq<char>>) -> (Option<Seq<char>>, Seq<Seq<char>>) {
    if parts.len() >= 2 && ends_with(parts[0], "-"@) {
        (Some(percent_decoded_lossy(parts[0].drop_last())), parts.drop_first())
    } else {
        (None, parts)
    }
}

/// The parts of a directive after taking the suffix off: the decoded
/// suffix when the last of at least two parts starts with `-`.
pub open spec fn take_suffix(parts: Seq<Seq<char>>) -> (Option<Seq<char>>, Seq<Seq<char>>) {
    if parts.len() >= 2 && starts_with(parts.last(), "-"@) {
        (Some(percent_decoded_lossy(parts.last().drop_first())), parts.drop_last())
    } else {
        (None, parts)
    }
}

/// What parsing a text directive gives: nothing for an empty input or an
/// empty first part, or when one or two parts are not left between the
/// prefix and the suffix.
pub open spec fn directive_parse(input: Seq<char>) -> Option<DirectiveView> {
    let parts = split(input, ',');
    if input.len() == 0 || parts.len() == 0 || parts[0].len() == 0 {
        None
    } else {
        let (prefix, p1) = take_prefix(parts);
        let (suffix, p2) = take_suffix(p1);
        if p2.len() == 1 {
            Some((prefix, percent_decoded_lossy(p2[0]), None, suffix))
        } else if p2.len() == 2 {
            Some((prefix, percent_decoded_lossy(p2[0]), Some(percent_decoded_lossy(p2[1])), suffix))
        } else {
            None
        }
    }
}

impl TextDirective {
    /// Takes the prefix off the parts of a directive, if present and
    /// correctly formatted.
    pub fn strip_prefix(parts: &mut Vec<String>) -> (r: Option<String>)
        ensures
            (opt_string(r), string_views(final(parts)@)) == take_prefix(string_views(old(parts)@)),
    {
        proof {
            reveal_strlit("-");
        }
        if parts.len() >= 2 {
            let first = chars_of(parts[0].as_str());
            if first.len() > 0 && first[first.len() - 1] == '-' {
                assert(string_views(parts@)[0] == first@);
                assert(ends_with(first@, "-"@)) by {
                    reveal_strlit("-");
                    assert("-"@ =~= seq!['-']);
                    assert(first@.skip(first@.len() - 1) =~= seq!['-']);
                }
                let ghost before = string_views(parts@);
                let part = parts.remove(0);
                assert(string_views(parts@) =~= before.drop_first());
                let cut = crate::text::slice_of(first.as_slice(), 0, first.len() - 1);
                assert(cut@ =~= first@.drop_last());
                return Some(percentage_decode(string_of(cut.as_slice()).as_str()));
            }
            assert(!ends_with(string_views(parts@)[0], "-"@)) by {
                let f = string_views(parts@)[0];
                assert(f == first@);
                if ends_with(f, "-"@) {
                    assert(f.skip(f.len() - 1)[0] == f[f.len() - 1]);
                }
            }
        }
        None
    }

    /// Takes the suffix off the parts of a directive, if present and
    /// correctly formatted.
    pub fn strip_suffix(parts: &mut Vec<String>) -> (r: Option<String>)
        ensures
            (opt_string(r), string_views(final(parts)@)) == take_suffix(string_views(old(parts)@)),
    {
        proof {
            reveal_strlit("-");
        }
        if parts.len() >= 2 {
            let last = chars_of(parts[parts.len() - 1].as_str());
            if last.len() > 0 && last[0] == '-' {
                assert(string_views(parts@).last() == last@);
                assert(starts_with(last@, "-"@)) by {
                    reveal_strlit("-");
                    assert("-"@ =~= seq!['-']);
                    assert(last@.take(1) =~= seq!['-']);
                }
                let ghost before = string_views(parts@);
                let part = parts.pop();
                assert(string_views(parts@) =~= before.drop_last());
                let cut = crate::text::slice_of(last.as_slice(), 1, last.len());
                assert(cut@ =~= last@.drop_first());
                return Some(percentage_decode(string_of(cut.as_slice()).as_str()));
            }
            assert(!starts_with(string_views(parts@).last(), "-"@)) by {
                let l = string_views(parts@).last();
                assert(l == last@);
                if starts_with(l, "-"@) {
                    assert(l.take(1)[0] == l[0]);
                }
            }
        }
        None
    }

    /// Parses a text directive `[prefix-,]start[,end][,-suffix]`; see
    /// [`directive_parse`].
    pub fn parse(input: &str) -> (r: Option<Self>)
        ensures
            match directive_parse(input@) {
                Some(d) => (r matches Some(x) && x@ == d),
                None => r is None,
            },
    {
        if input.is_empty() {
            return None;
        }
        let pieces = split_chars(chars_of(input).as_slice(), ',');
        let mut parts = crate::text::strings_of(&pieces);
        assert(string_views(parts@) == split(input@, ','));
        if parts.len() == 0 || parts[0].as_str().is_empty() {
            assert(parts.len() > 0 ==> string_views(parts@)[0] == parts@[0]@);
            return None;
        }
        assert(string_views(parts@)[0] == parts@[0]@);
        let prefix = Self::strip_prefix(&mut parts);
        let suffix = Self::strip_suffix(&mut parts);
        if parts.len() == 1 {
            assert(string_views(parts@)[0] == parts@[0]@);
            let start = percentage_decode(parts[0].as_str());
            Some(TextDirective { prefix, start, end: None, suffix })
        } else if parts.len() == 2 {
            assert(string_views(parts@)[0] == parts@[0]@);
            assert(string_views(parts@)[1] == parts@[1]@);
            let start = percentage_decode(parts[0].as_str());
            let end = percentage_decode(parts[1].as_str());
            Some(TextDirective { prefix, start, end: Some(end), suffix })
        } else {
            None
        }
    }
}

/// The text directives among the components of a fragment directive:
/// the parsed values of its `text=` components, in order.
pub open spec fn directives_of(components: Seq<Seq<char>>) -> Seq<DirectiveView>
    decreases components.len(),
{
    if components.len() == 0 {
        Seq::empty()
    } else {
        let prev = directives_of(components.drop_last());
        match split_once(components.last(), "="@) {
            Some((key, value)) => if key == "text"@ {
                match directive_parse(value) {
                    Some(d) => prev.push(d),
                    None => prev,
                }
            } else {
                prev
            },
            None => prev,
        }
    }
}

/// A URL fragment split into the element id and the text directives.
#[derive(Debug, PartialEq, Eq)]
pub struct ParsedFragment<'a> {
    /// The element id part of the fragment, e.g. `section` in
    /// `https://example.com/#section:~:text=example`.
    pub element_id: Option<&'a str>,
    /// The text directives of the fragment, e.g. `text=example` in
    /// `https://example.com/#section:~:text=example`.
    pub text_directives: Vec<TextDirective>,
}

/// The view of a [`ParsedFragment`]: element id and directives.
pub type FragmentView = (Option<Seq<char>>, Seq<DirectiveView>);

impl<'a> View for ParsedFragment<'a> {
    type V = FragmentView;

    open spec fn view(&self) -> FragmentView {
        (
            match self.element_id {
                Some(e) => Some(e@),
                None => None,
            },
            directive_views(self.text_directives@),
        )
    }
}

/// What a fragment holds: without the delimiter `:~:`, all of it is the
/// element id; otherwise the text before it (when not empty) is the element
/// id, and the text after it holds the directives, separated by `&`.
pub open spec fn fragment_parse(fragment: Option<Seq<char>>) -> FragmentView {
    match fragment {
        None => (None, Seq::empty()),
        Some(f) => match split_once(f, ":~:"@) {
            None => (Some(f), Seq::empty()),
            Some((id, directive)) => (
                if id.len() == 0 {
                    None
                } else {
                    Some(id)
                },
                directives_of(split(directive, '&')),
            ),
        },
    }
}

impl<'a> ParsedFragment<'a> {
    /// No fragment.
    pub fn default() -> (r: Self)
        ensures
            r@ == (None::<Seq<char>>, Seq::<DirectiveView>::empty()),
    {
        let r = ParsedFragment { element_id: None, text_directives: Vec::new() };
        assert(directive_views(r.text_directives@) =~= Seq::<DirectiveView>::empty());
        r
    }

    /// Parses the fragment of a URL, separating the element id from the
    /// text directives.
    pub fn parse(url: &'a AbsoluteUrl) -> (r: Self)
        ensures
            r@ == fragment_parse(url_fragment(url@)),
    {
        let fragment = match url.fragment() {
            Some(f) => f,
            None => return Self::default(),
        };
        let v = chars_of(fragment);
        let d = chars_of(":~:");
        proof {
            lemma_find(v@, d@);
        }
        let i = match crate::text::find_chars(v.as_slice(), d.as_slice()) {
            Some(i) => i,
            None => {
                let r = ParsedFragment { element_id: Some(fragment), text_directives: Vec::new() };
                assert(directive_views(r.text_directives@) =~= Seq::<DirectiveView>::empty());
                return r;
            },
        };
        assert(i + d.len() <= v.len());
        let id = fragment.substring_char(0, i);
        let element_id = if i == 0 {
            None
        } else {
            Some(id)
        };
        let rest = crate::text::slice_of(v.as_slice(), i + d.len(), v.len());
        let components = split_chars(rest.as_slice(), '&');
        let ghost cs = views(components@);
        let mut text_directives: Vec<TextDirective> = Vec::new();
        let mut k: usize = 0;
        while k < components.len()
            invariant
                k <= components.len(),
                cs == views(components@),
                directive_views(text_directives@) == directives_of(cs.take(k as int)),
            decreases components.len() - k,
        {
            let ghost before = directive_views(text_directives@);
            assert(cs.take(k + 1).drop_last() =~= cs.take(k as int));
            assert(cs.take(k + 1).last() == components@[k as int]@);
            let component = string_of(components[k].as_slice());
            match split_once_str(component.as_str(), "=") {
                Some((key, value)) => {
                    if str_eq(key.as_str(), "text") {
                        match TextDirective::parse(value.as_str()) {
                            Some(td) => {
                                text_directives.push(td);
                                assert(directive_views(text_directives@) =~= before.push(td@));
                            },
                            None => {},
                        }
                    }
                },
                None => {},
            }
            k += 1;
        }
        assert(cs.take(components.len() as int) =~= cs);
        ParsedFragment { element_id, text_directives }
    }
}

} // verus!
