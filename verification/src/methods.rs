//! HTTP request methods: an ordered, non-empty list of methods, tried in
//! order until one succeeds. Servers that block a method (such as `HEAD`)
//! can so be checked with another (such as `GET`).
//!
//! A method is held as its name in upper case, the text that
//! `http::Method::as_str` gives back for it.
use vstd::prelude::*;

use crate::text::{append_str, chars_of, join, split, split_chars, string_of, string_views, trim, trim_chars, views};

verus! {

/// Why a list of HTTP methods could not be made.
#[derive(Debug, Clone, PartialEq, Eq)]
pub enum MethodsError {
    /// No method was given, but at least one is required.
    Empty,
    /// The given text is not a valid HTTP method.
    InvalidMethod(String),
}

/// The view of a [`MethodsError`].
pub enum MethodsErrorView {
    /// See [`MethodsError::Empty`].
    Empty,
    /// See [`MethodsError::InvalidMethod`].
    InvalidMethod(Seq<char>),
}

impl View for MethodsError {
    type V = MethodsErrorView;

    open spec fn view(&self) -> MethodsErrorView {
        match self {
            MethodsError::Empty => MethodsErrorView::Empty,
            MethodsError::InvalidMethod(s) => MethodsErrorView::InvalidMethod(s@),
        }
    }
}

/// The message of a [`MethodsError`].
pub open spec fn methods_error_message(e: MethodsErrorView) -> Seq<char> {
    match e {
        MethodsErrorView::Empty => "at least one HTTP method must be specified"@,
        MethodsErrorView::InvalidMethod(s) => "invalid HTTP method: "@ + s,
    }
}

impl MethodsError {
    /// The message describing this error.
    pub fn to_string(&self) -> (r: String)
        ensures
            r@ == methods_error_message(self@),
    {
        let mut out: Vec<char> = Vec::new();
        match self {
            MethodsError::Empty => append_str(&mut out, "at least one HTTP method must be specified"),
            MethodsError::InvalidMethod(s) => {
                append_str(&mut out, "invalid HTTP method: ");
                append_str(&mut out, s.as_str());
            },
        }
        string_of(out.as_slice())
    }
}

/// A character that may stand in the name of an HTTP method (a `tchar` of
/// RFC 9110): an ASCII letter or digit, or one of ``!#$%&'*+-.^_`|~``.
pub open spec fn is_token_char(c: char) -> bool {
    ('0' <= c && c <= '9') || ('A' <= c && c <= 'Z') || ('a' <= c && c <= 'z') || c == '!' || c
        == '#' || c == '$' || c == '%' || c == '&' || c == '\'' || c == '*' || c == '+' || c == '-'
        || c == '.' || c == '^' || c == '_' || c == '`' || c == '|' || c == '~'
}

/// Whether a text is the name of an HTTP method: it is not empty and holds
/// only characters that may stand in such a name.
pub open spec fn is_method_token(s: Seq<char>) -> bool {
    s.len() > 0 && forall|i: int| 0 <= i < s.len() ==> is_token_char(#[trigger] s[i])
}

/// The upper-case form of a text, by Unicode's rules (`str::to_uppercase`).
pub uninterp spec fn uppercase(s: Seq<char>) -> Seq<char>;

/// The upper-case form of a text (`str::to_uppercase`).
#[verifier::external_body]
fn to_uppercase(s: &str) -> (r: String)
    ensures
        r@ == uppercase(s@),
{
    s.to_uppercase()
}

/// Whether `http::Method::from_str` accepts a text; by the source of the
/// `http` crate it does exactly for a non-empty text of the characters in
/// [`is_token_char`], and the method then gives the same text back.
#[verifier::external_body]
fn is_http_method(token: &str) -> (r: bool)
    ensures
        r == is_method_token(token@),
{
    <http::Method as std::str::FromStr>::from_str(token).is_ok()
}

/// What parsing one method gives: the method named by the text in upper
/// case, when that is the name of a method.
pub open spec fn parse_method_spec(token: Seq<char>) -> Result<Seq<char>, MethodsErrorView> {
    if is_method_token(uppercase(token)) {
        Ok(uppercase(token))
    } else {
        Err(MethodsErrorView::InvalidMethod(token))
    }
}

/// Parses one HTTP method, in any case: `get` and `GET` are both `GET`.
pub fn parse_method(token: &str) -> (r: Result<String, MethodsError>)
    ensures
        match parse_method_spec(token@) {
            Ok(m) => r matches Ok(x) && x@ == m,
            Err(e) => r matches Err(x) && x@ == e,
        },
{
    let upper = to_uppercase(token);
    if is_http_method(upper.as_str()) {
        Ok(upper)
    } else {
        Err(MethodsError::InvalidMethod(string_of(chars_of(token).as_slice())))
    }
}

/// What parsing the comma-separated parts gives, in order: each part is
/// trimmed, must not be empty, and must name a method; the first failing
/// part decides the error.
pub open spec fn parse_method_list(parts: Seq<Seq<char>>) -> Result<Seq<Seq<char>>, MethodsErrorView>
    decreases parts.len(),
{
    if parts.len() == 0 {
        Ok(seq![])
    } else {
        match parse_method_list(parts.drop_last()) {
            Err(e) => Err(e),
            Ok(ms) => {
                let t = trim(parts.last());
                if t.len() == 0 {
                    Err(MethodsErrorView::Empty)
                } else {
                    match parse_method_spec(t) {
                        Ok(m) => Ok(ms.push(m)),
                        Err(e) => Err(e),
                    }
                }
            },
        }
    }
}

/// What parsing a comma-separated list of methods gives.
pub open spec fn methods_parse(s: Seq<char>) -> Result<Seq<Seq<char>>, MethodsErrorView> {
    match parse_method_list(split(s, ',')) {
        Ok(ms) => if ms.len() == 0 {
            Err(MethodsErrorView::Empty)
        } else {
            Ok(ms)
        },
        Err(e) => Err(e),
    }
}

/// An ordered, non-empty list of HTTP request methods, each by its name.
#[derive(Debug, PartialEq, Eq)]
pub struct Methods {
    methods: Vec<String>,
}

impl View for Methods {
    type V = Seq<Seq<char>>;

    closed spec fn view(&self) -> Seq<Seq<char>> {
        string_views(self.methods@)
    }
}

impl Clone for Methods {
    fn clone(&self) -> (r: Self)
        ensures
            r@ == self@,
    {
        proof {
            use_type_invariant(self);
        }
        Methods { methods: self.iter() }
    }
}

impl Methods {
    /// The list is not empty.
    #[verifier::type_invariant]
    closed spec fn non_empty(self) -> bool {
        self.methods@.len() > 0
    }

    /// The list of a single method.
    pub fn from_method(method: String) -> (r: Methods)
        ensures
            r@ == seq![method@],
    {
        let mut methods: Vec<String> = Vec::new();
        methods.push(method);
        let r = Methods { methods };
        assert(r@ =~= seq![method@]);
        r
    }

    /// A list of the given methods; fails when there is none.
    pub fn try_from(methods: Vec<String>) -> (r: Result<Methods, MethodsError>)
        ensures
            methods.len() == 0 ==> r == Err::<Methods, MethodsError>(MethodsError::Empty),
            methods.len() > 0 ==> (r matches Ok(m) && m@ == string_views(methods@)),
    {
        if methods.len() == 0 {
            return Err(MethodsError::Empty);
        }
        Ok(Methods { methods })
    }

    /// Parses a comma-separated list of HTTP methods, such as `"head,get"`.
    pub fn from_str(input: &str) -> (r: Result<Methods, MethodsError>)
        ensures
            match methods_parse(input@) {
                Ok(ms) => r matches Ok(m) && m@ == ms,
                Err(e) => r matches Err(x) && x@ == e,
            },
    {
        let parts = split_chars(chars_of(input).as_slice(), ',');
        let ghost pv = views(parts@);
        assert(pv == split(input@, ','));
        assert(pv.len() >= 1);
        let mut methods: Vec<String> = Vec::new();
        let mut i: usize = 0;
        assert(pv.take(0) =~= Seq::<Seq<char>>::empty());
        assert(string_views(methods@) =~= Seq::<Seq<char>>::empty());
        assert(methods_parse(input@) == methods_parse_of_parts(pv));
        while i < parts.len()
            invariant
                i <= parts.len(),
                pv == views(parts@),
                pv.len() == parts.len(),
                methods.len() == i,
                methods_parse(input@) == methods_parse_of_parts(pv),
                parse_method_list(pv.take(i as int)) == Ok::<Seq<Seq<char>>, MethodsErrorView>(
                    string_views(methods@),
                ),
            decreases parts.len() - i,
        {
            assert(pv.take(i as int + 1).drop_last() =~= pv.take(i as int));
            assert(pv.take(i as int + 1).last() == parts@[i as int]@);
            let token = trim_chars(parts[i].as_slice());
            if token.len() == 0 {
                proof {
                    lemma_list_error_stays(pv, i as int + 1);
                }
                return Err(MethodsError::Empty);
            }
            let text = string_of(token.as_slice());
            match parse_method(text.as_str()) {
                Ok(m) => {
                    let ghost before = methods@;
                    let ghost mv = m@;
                    assert(parse_method_list(pv.take(i as int + 1)) == Ok::<
                        Seq<Seq<char>>,
                        MethodsErrorView,
                    >(string_views(before).push(mv)));
                    methods.push(m);
                    assert(string_views(methods@) =~= string_views(before).push(mv));
                },
                Err(e) => {
                    proof {
                        lemma_list_error_stays(pv, i as int + 1);
                    }
                    return Err(e);
                },
            }
            i += 1;
        }
        assert(pv.take(parts.len() as int) =~= pv);
        Methods::try_from(methods)
    }

    /// The methods in order, starting with the primary method.
    pub fn iter(&self) -> (r: Vec<String>)
        ensures
            string_views(r@) == self@,
            r@.len() == self@.len(),
    {
        let mut out: Vec<String> = Vec::new();
        let mut i: usize = 0;
        while i < self.methods.len()
            invariant
                i <= self.methods.len(),
                out@.len() == i,
                forall|k: int| 0 <= k < i ==> (#[trigger] out@[k])@ == self.methods@[k]@,
            decreases self.methods.len() - i,
        {
            out.push(string_of(chars_of(self.methods[i].as_str()).as_slice()));
            i += 1;
        }
        assert(string_views(out@) =~= string_views(self.methods@));
        out
    }

    /// The first (primary) method.
    pub fn first(&self) -> (r: &str)
        ensures
            self@.len() > 0,
            r@ == self@[0],
    {
        proof {
            use_type_invariant(self);
        }
        self.methods[0].as_str()
    }

    /// The methods, separated by commas.
    pub fn to_string(&self) -> (r: String)
        ensures
            r@ == join(self@, ","@),
    {
        let mut out: Vec<char> = Vec::new();
        let ghost names = self@;
        let mut i: usize = 0;
        while i < self.methods.len()
            invariant
                i <= self.methods.len(),
                names == string_views(self.methods@),
                out@ == join(names.take(i as int), ","@),
            decreases self.methods.len() - i,
        {
            if i > 0 {
                append_str(&mut out, ",");
            }
            append_str(&mut out, self.methods[i].as_str());
            proof {
                let t = names.take(i as int + 1);
                assert(t.drop_last() =~= names.take(i as int));
                assert(t.last() == self.methods@[i as int]@);
            }
            i += 1;
        }
        assert(names.take(self.methods.len() as int) =~= names);
        string_of(out.as_slice())
    }
}

/// Once a prefix of the parts fails, every longer prefix fails the same way.
proof fn lemma_list_error_stays(parts: Seq<Seq<char>>, i: int)
    requires
        0 <= i <= parts.len(),
        parse_method_list(parts.take(i)) is Err,
    ensures
        parse_method_list(parts) == parse_method_list(parts.take(i)),
        methods_parse_of_parts(parts) == parse_method_list(parts.take(i)),
    decreases parts.len() - i,
{
    if i < parts.len() {
        assert(parts.take(i + 1).drop_last() =~= parts.take(i));
        lemma_list_error_stays(parts, i + 1);
    } else {
        assert(parts.take(i) =~= parts);
    }
}

/// What parsing the parts of a list of methods gives.
pub open spec fn methods_parse_of_parts(parts: Seq<Seq<char>>) -> Result<Seq<Seq<char>>, MethodsErrorView> {
    match parse_method_list(parts) {
        Ok(ms) => if ms.len() == 0 {
            Err(MethodsErrorView::Empty)
        } else {
            Ok(ms)
        },
        Err(e) => Err(e),
    }
}

} // verus!
