//! Checking text fragments (`#:~:text=...`) against the visible text of an
//! HTML document.
use vstd::prelude::*;

use crate::files::FileType;
use crate::parsed_fragment::{directive_views, DirectiveView, TextDirective};
use crate::text::{
    append_chars, append_str, chars_of, is_ws, is_ws_char, normalize_whitespace_chars,
    contains, ends_with, normalize_ws, occurs_at, starts_with, str_eq, string_of, trim, trim_chars,
};

verus! {

/// A token of an HTML document, as far as visible text is concerned.
#[derive(Debug, Clone, PartialEq, Eq)]
pub enum HtmlToken {
    /// A start tag, by name.
    StartTag(String),
    /// An end tag, by name.
    EndTag(String),
    /// Literal text.
    Text(String),
    /// A comment, a doctype or a parse error.
    Other,
}

/// The tokens of an HTML document (`html5gum::Tokenizer`).
pub uninterp spec fn html_tokens(input: Seq<char>) -> Seq<HtmlToken>;

/// Tokenizes an HTML document with `html5gum`, keeping the names of tags and
/// the text of literal strings.
#[verifier::external_body]
fn tokenize(input: &str) -> (r: Vec<HtmlToken>)
    ensures
        r@ == html_tokens(input@),
{
    html5gum::Tokenizer::new(input).map(|t| match t {
        Ok(html5gum::Token::StartTag(tag)) => HtmlToken::StartTag(String::from_utf8_lossy(&tag.name).into_owned()),
        Ok(html5gum::Token::EndTag(tag)) => HtmlToken::EndTag(String::from_utf8_lossy(&tag.name).into_owned()),
        Ok(html5gum::Token::String(value)) => HtmlToken::Text(String::from_utf8_lossy(&value).into_owned()),
        _ => HtmlToken::Other,
    }).collect()
}

/// Whether text within the given HTML tag is hidden from text fragment
/// searching.
pub open spec fn hidden_tag(name: Seq<char>) -> bool {
    ||| name == "head"@
    ||| name == "script"@
    ||| name == "style"@
    ||| name == "template"@
    ||| name == "iframe"@
    ||| name == "img"@
    ||| name == "meter"@
    ||| name == "object"@
    ||| name == "progress"@
    ||| name == "video"@
    ||| name == "audio"@
    ||| name == "select"@
}

/// Whether text within the given HTML tag is hidden from text fragment
/// searching.
pub fn is_hidden_tag(name: &str) -> (r: bool)
    ensures
        r == hidden_tag(name@),
{
    str_eq(name, "head") || str_eq(name, "script") || str_eq(name, "style") || str_eq(name, "template")
        || str_eq(name, "iframe") || str_eq(name, "img") || str_eq(name, "meter") || str_eq(
        name,
        "object",
    ) || str_eq(name, "progress") || str_eq(name, "video") || str_eq(name, "audio") || str_eq(
        name,
        "select",
    )
}

/// The text with a space at the end, unless it already ends in whitespace.
pub open spec fn push_space(t: Seq<char>) -> Seq<char> {
    if t.len() > 0 && is_ws(t.last()) {
        t
    } else {
        t.push(' ')
    }
}

/// The text and the stack of open hidden tags after one more token.
pub open spec fn text_step(state: (Seq<char>, Seq<Seq<char>>), token: HtmlToken) -> (
    Seq<char>,
    Seq<Seq<char>>,
) {
    let (text, hidden) = state;
    match token {
        HtmlToken::StartTag(n) => if hidden_tag(n@) {
            (text, hidden.push(n@))
        } else {
            state
        },
        HtmlToken::EndTag(n) => if hidden.len() > 0 && hidden.last() == n@ {
            (text, hidden.drop_last())
        } else {
            state
        },
        HtmlToken::Text(s) => if hidden.len() == 0 {
            let t1 = if s@.len() > 0 && is_ws(s@[0]) {
                push_space(text)
            } else {
                text
            };
            let t2 = t1 + normalize_ws(s@);
            let t3 = if s@.len() > 0 && is_ws(s@.last()) {
                push_space(t2)
            } else {
                t2
            };
            (t3, hidden)
        } else {
            state
        },
        HtmlToken::Other => state,
    }
}

/// The text and the stack of open hidden tags after the given tokens.
pub open spec fn text_fold(tokens: Seq<HtmlToken>) -> (Seq<char>, Seq<Seq<char>>)
    decreases tokens.len(),
{
    if tokens.len() == 0 {
        (Seq::empty(), Seq::empty())
    } else {
        text_step(text_fold(tokens.drop_last()), tokens.last())
    }
}

fn push_space_exec(text: &mut Vec<char>)
    ensures
        final(text)@ == push_space(old(text)@),
{
    if text.len() > 0 && is_ws_char(text[text.len() - 1]) {
    } else {
        text.push(' ');
    }
}

/// The visible text of a sequence of tokens: the text outside hidden
/// tags, with whitespace normalized.
pub fn visible_text(tokens: &Vec<HtmlToken>) -> (r: String)
    ensures
        r@ == text_fold(tokens@).0,
{
    let mut text: Vec<char> = Vec::new();
    let mut hidden: Vec<String> = Vec::new();
    let mut i: usize = 0;
    while i < tokens.len()
        invariant
            i <= tokens.len(),
            (text@, crate::text::string_views(hidden@)) == text_fold(tokens@.take(i as int)),
        decreases tokens.len() - i,
    {
        assert(tokens@.take(i + 1).drop_last() =~= tokens@.take(i as int));
        assert(tokens@.take(i + 1).last() == tokens@[i as int]);
        let ghost hv = crate::text::string_views(hidden@);
        match &tokens[i] {
            HtmlToken::StartTag(name) => {
                if is_hidden_tag(name.as_str()) {
                    hidden.push(string_of(chars_of(name.as_str()).as_slice()));
                    assert(crate::text::string_views(hidden@) =~= hv.push(name@));
                }
            },
            HtmlToken::EndTag(name) => {
                if hidden.len() > 0 && str_eq(hidden[hidden.len() - 1].as_str(), name.as_str()) {
                    assert(hv.last() == hidden@[hidden.len() - 1]@);
                    hidden.pop();
                    assert(crate::text::string_views(hidden@) =~= hv.drop_last());
                }
            },
            HtmlToken::Text(value) => {
                if hidden.len() == 0 {
                    let v = chars_of(value.as_str());
                    if v.len() > 0 && is_ws_char(v[0]) {
                        push_space_exec(&mut text);
                    }
                    let words = normalize_whitespace_chars(v.as_slice());
                    append_chars(&mut text, words.as_slice());
                    if v.len() > 0 && is_ws_char(v[v.len() - 1]) {
                        push_space_exec(&mut text);
                    }
                }
            },
            HtmlToken::Other => {},
        }
        i += 1;
    }
    assert(tokens@.take(tokens.len() as int) =~= tokens@);
    string_of(text.as_slice())
}

/// The visible text of an HTML document: all literal text outside hidden
/// tags, with runs of whitespace collapsed into one ASCII space.
pub fn extract_visible_text(input: &str) -> (r: String)
    ensures
        r@ == text_fold(html_tokens(input@)).0,
{
    let tokens = tokenize(input);
    visible_text(&tokens)
}

/// The words of a text, with exactly one ASCII space between each; leading
/// and trailing whitespace is dropped.
pub fn intersperse_whitespace(text: &str) -> (r: String)
    ensures
        r@ == normalize_ws(text@),
{
    let v = chars_of(text);
    string_of(normalize_whitespace_chars(v.as_slice()).as_slice())
}

/// Normalizes whitespace: adjacent whitespace characters become a single
/// ASCII space, and leading and trailing whitespace is removed.
pub fn normalize_whitespace(text: &str) -> (r: String)
    ensures
        r@ == normalize_ws(text@),
{
    intersperse_whitespace(text)
}

/// The text with regular-expression syntax escaped (`regex::escape`).
pub uninterp spec fn regex_escaped(s: Seq<char>) -> Seq<char>;

/// Whether the regular expression `pattern` matches somewhere in
/// `haystack` (`regex::Regex::is_match`); `None` when the pattern does not
/// compile.
pub uninterp spec fn regex_matches(pattern: Seq<char>, haystack: Seq<char>) -> Option<bool>;

/// Escapes the syntax of regular expressions in a text (`regex::escape`).
#[verifier::external_body]
fn escape(s: &str) -> (r: String)
    ensures
        r@ == regex_escaped(s@),
{
    regex::escape(s)
}

/// Compiles `pattern` and tells whether it matches in `haystack`
/// (`regex::Regex::new` and `is_match`).
#[verifier::external_body]
fn regex_is_match(pattern: &str, haystack: &str) -> (r: Option<bool>)
    ensures
        r == regex_matches(pattern@, haystack@),
{
    regex::Regex::new(pattern).ok().map(|re| re.is_match(haystack))
}

/// A part of a directive as a regular expression: trimmed, with normalized
/// whitespace, escaped.
pub open spec fn pattern_part(s: Seq<char>) -> Seq<char> {
    regex_escaped(normalize_ws(trim(s)))
}

/// The regular expression of a text directive: the prefix, then any
/// whitespace, the start, lazily anything up to the end, then any
/// whitespace and the suffix.
pub open spec fn directive_pattern(d: DirectiveView) -> Seq<char> {
    (match d.0 {
        Some(p) => pattern_part(p) + "\\s*"@,
        None => Seq::<char>::empty(),
    }) + pattern_part(d.1) + (match d.2 {
        Some(e) => ".+?"@ + pattern_part(e),
        None => Seq::<char>::empty(),
    }) + (match d.3 {
        Some(s) => "\\s*"@ + pattern_part(s),
        None => Seq::<char>::empty(),
    })
}

/// The parts of a directive's regular expression, each where the
/// directive's meaning puts it: a prefix comes first, followed by any
/// whitespace; the start is always searched; an end is reached lazily
/// after the start; a suffix comes last, after any whitespace. A directive
/// with only a start searches for the start alone.
pub proof fn law_directive_pattern_parts(d: DirectiveView)
    ensures
        d.3 matches Some(s) ==> ends_with(directive_pattern(d), "\\s*"@ + pattern_part(s)),
        d.3 is None ==> (d.2 matches Some(e) ==> ends_with(
            directive_pattern(d),
            ".+?"@ + pattern_part(e),
        )),
        d.0 matches Some(p) ==> starts_with(directive_pattern(d), pattern_part(p) + "\\s*"@),
        contains(directive_pattern(d), pattern_part(d.1)),
        d.0 is None && d.2 is None && d.3 is None ==> directive_pattern(d) == pattern_part(d.1),
{
    let p0 = match d.0 {
        Some(p) => pattern_part(p) + "\\s*"@,
        None => Seq::<char>::empty(),
    };
    let p1 = pattern_part(d.1);
    let p2 = match d.2 {
        Some(e) => ".+?"@ + pattern_part(e),
        None => Seq::<char>::empty(),
    };
    let p3 = match d.3 {
        Some(s) => "\\s*"@ + pattern_part(s),
        None => Seq::<char>::empty(),
    };
    let all = directive_pattern(d);
    assert(all == p0 + p1 + p2 + p3);
    assert((p0 + p1 + p2 + p3).skip((p0 + p1 + p2).len() as int) =~= p3);
    assert((p0 + p1 + p2 + p3).take(p0.len() as int) =~= p0);
    assert((p0 + p1 + p2 + p3).subrange(p0.len() as int, (p0.len() + p1.len()) as int) =~= p1);
    assert(occurs_at(all, p1, p0.len() as int));
    if d.3 is None {
        assert(p3 =~= Seq::<char>::empty());
        assert(all =~= p0 + p1 + p2);
        assert((p0 + p1 + p2).skip((p0 + p1).len() as int) =~= p2);
    }
    if d.0 is None && d.2 is None && d.3 is None {
        assert(all =~= p1);
    }
}

/// Whether a directive is found in a document: its regular expression
/// compiles and matches.
pub open spec fn directive_matches(d: DirectiveView, document: Seq<char>) -> bool {
    match regex_matches(directive_pattern(d), document) {
        Some(b) => b,
        None => false,
    }
}

fn push_part(out: &mut Vec<char>, s: &str)
    ensures
        final(out)@ == old(out)@ + pattern_part(s@),
{
    let t = trim_chars(chars_of(s).as_slice());
    let n = normalize_whitespace_chars(t.as_slice());
    let e = escape(string_of(n.as_slice()).as_str());
    append_str(out, e.as_str());
}

impl TextDirective {
    /// The regular expression that finds this directive within normalized
    /// text.
    pub fn to_regex(&self) -> (r: String)
        ensures
            r@ == directive_pattern(self@),
    {
        let mut out: Vec<char> = Vec::new();
        if let Some(prefix) = &self.prefix {
            push_part(&mut out, prefix.as_str());
            append_str(&mut out, "\\s*");
        }
        let ghost a = out@;
        push_part(&mut out, self.start.as_str());
        let ghost b = out@;
        if let Some(end) = &self.end {
            append_str(&mut out, ".+?");
            push_part(&mut out, end.as_str());
        }
        let ghost c = out@;
        if let Some(suffix) = &self.suffix {
            append_str(&mut out, "\\s*");
            push_part(&mut out, suffix.as_str());
        }
        proof {
            let p0 = match self@.0 {
                Some(p) => pattern_part(p) + "\\s*"@,
                None => Seq::<char>::empty(),
            };
            assert(a =~= p0);
            let p2 = match self@.2 {
                Some(e) => ".+?"@ + pattern_part(e),
                None => Seq::<char>::empty(),
            };
            assert(c =~= b + p2);
            let p3 = match self@.3 {
                Some(s) => "\\s*"@ + pattern_part(s),
                None => Seq::<char>::empty(),
            };
            assert(out@ =~= c + p3);
        }
        string_of(out.as_slice())
    }

    /// Whether this directive is found in the document.
    pub fn matches(&self, document: &str) -> (r: bool)
        ensures
            r == directive_matches(self@, document@),
    {
        let pattern = self.to_regex();
        match regex_is_match(pattern.as_str(), document) {
            Some(b) => b,
            None => false,
        }
    }
}

/// Whether the text directives are found in a document: always for files
/// other than HTML and for no directives; otherwise each directive must be
/// found in the visible text of the document.
pub open spec fn text_fragments_found(
    directives: Seq<DirectiveView>,
    content: Seq<char>,
    file_type: FileType,
) -> bool {
    file_type != FileType::Html || directives.len() == 0 || forall|i: int|
        0 <= i < directives.len() ==> directive_matches(
            #[trigger] directives[i],
            text_fold(html_tokens(content)).0,
        )
}

/// Checks the text directives of a URL against a document.
pub fn check_text_fragments(directives: &Vec<TextDirective>, content: &str, file_type: FileType) -> (r:
    bool)
    ensures
        r == text_fragments_found(directive_views(directives@), content@, file_type),
{
    if file_type != FileType::Html {
        return true;
    }
    if directives.len() == 0 {
        return true;
    }
    let document = extract_visible_text(content);
    let ghost dv = directive_views(directives@);
    let mut i: usize = 0;
    while i < directives.len()
        invariant
            i <= directives.len(),
            dv == directive_views(directives@),
            file_type == FileType::Html,
            directives.len() > 0,
            document@ == text_fold(html_tokens(content@)).0,
            forall|j: int| 0 <= j < i ==> directive_matches(#[trigger] dv[j], document@),
        decreases directives.len() - i,
    {
        assert(dv[i as int] == directives@[i as int]@);
        if !directives[i].matches(document.as_str()) {
            assert(!directive_matches(dv[i as int], text_fold(html_tokens(content@)).0));
            assert(!text_fragments_found(dv, content@, file_type));
            return false;
        }
        i += 1;
    }
    true
}

} // verus!
