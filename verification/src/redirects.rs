//! The record of HTTP redirects that were followed, for reporting.
use vstd::prelude::*;

use crate::address::AbsoluteUrl;
use crate::remap::{keyed_map, lemma_keyed_lookup};
use crate::text::{append_str, decimal, decimal_string, str_eq, string_of};

verus! {

/// A single HTTP redirection: where it led, and with which status code.
#[derive(Debug, PartialEq, Eq, Hash)]
pub struct Redirect {
    /// Where we got redirected to
    pub url: AbsoluteUrl,
    /// With what status code we got redirected
    pub code: u16,
}

/// The view of a [`Redirect`]: the URL and the status code.
pub type RedirectView = (Seq<char>, u16);

/// The URLs followed through HTTP redirects: the URL first asked for, and
/// each redirect in order.
#[derive(Debug, PartialEq, Eq, Hash)]
pub struct Redirects {
    origin: AbsoluteUrl,
    redirects: Vec<Redirect>,
}

/// The view of redirects: the origin and the redirects in order.
pub type RedirectsView = (Seq<char>, Seq<RedirectView>);

/// The views of redirects.
pub open spec fn redirect_views(v: Seq<Redirect>) -> Seq<RedirectView> {
    v.map_values(|r: Redirect| (r.url@, r.code))
}

impl View for Redirects {
    type V = RedirectsView;

    closed spec fn view(&self) -> RedirectsView {
        (self.origin@, redirect_views(self.redirects@))
    }
}

/// How a chain of redirects is written: the origin, then for each
/// redirect ` --[code]--> url`.
pub open spec fn redirects_text(origin: Seq<char>, steps: Seq<RedirectView>) -> Seq<char>
    decreases steps.len(),
{
    if steps.len() == 0 {
        origin
    } else {
        redirects_text(origin, steps.drop_last()) + " --["@ + decimal(steps.last().1 as nat) + "]--> "@
            + steps.last().0
    }
}

fn copy_redirect(r: &Redirect) -> (c: Redirect)
    ensures
        c.url@ == r.url@,
        c.code == r.code,
{
    Redirect { url: r.url.clone(), code: r.code }
}

impl Redirects {
    /// No redirect followed yet from `origin`.
    pub fn new(origin: AbsoluteUrl) -> (r: Redirects)
        ensures
            r@ == (origin@, Seq::<RedirectView>::empty()),
    {
        let r = Redirects { origin, redirects: Vec::new() };
        assert(redirect_views(r.redirects@) =~= Seq::<RedirectView>::empty());
        r
    }

    /// How many times a redirect was followed.
    pub fn count(&self) -> (r: usize)
        ensures
            r == self@.1.len(),
    {
        self.redirects.len()
    }

    /// Records a new redirect.
    pub fn push(&mut self, redirect: Redirect)
        ensures
            final(self)@ == (old(self)@.0, old(self)@.1.push((redirect.url@, redirect.code))),
    {
        let ghost before = redirect_views(self.redirects@);
        let ghost step = (redirect.url@, redirect.code);
        self.redirects.push(redirect);
        assert(redirect_views(self.redirects@) =~= before.push(step));
    }

    /// A copy of these redirects.
    pub fn copy(&self) -> (r: Redirects)
        ensures
            r@ == self@,
    {
        let mut redirects: Vec<Redirect> = Vec::new();
        let mut i: usize = 0;
        while i < self.redirects.len()
            invariant
                i <= self.redirects.len(),
                redirect_views(redirects@) =~= redirect_views(self.redirects@.take(i as int)),
            decreases self.redirects.len() - i,
        {
            let ghost before = redirect_views(redirects@);
            let c = copy_redirect(&self.redirects[i]);
            let ghost step = (c.url@, c.code);
            redirects.push(c);
            assert(redirect_views(redirects@) =~= before.push(step));
            assert(self.redirects@.take(i as int + 1) =~= self.redirects@.take(i as int).push(
                self.redirects@[i as int],
            ));
            i += 1;
        }
        assert(self.redirects@.take(self.redirects.len() as int) =~= self.redirects@);
        Redirects { origin: self.origin.clone(), redirects }
    }

    /// The chain as text: the origin, then ` --[code]--> url` for each
    /// redirect.
    pub fn to_string(&self) -> (r: String)
        ensures
            r@ == redirects_text(self@.0, self@.1),
    {
        let ghost steps = redirect_views(self.redirects@);
        let mut out: Vec<char> = Vec::new();
        append_str(&mut out, self.origin.as_str());
        let mut i: usize = 0;
        while i < self.redirects.len()
            invariant
                i <= self.redirects.len(),
                steps == redirect_views(self.redirects@),
                out@ == redirects_text(self.origin@, steps.take(i as int)),
            decreases self.redirects.len() - i,
        {
            let r = &self.redirects[i];
            append_str(&mut out, " --[");
            let digits = decimal_string(r.code);
            append_str(&mut out, digits.as_str());
            append_str(&mut out, "]--> ");
            append_str(&mut out, r.url.as_str());
            proof {
                let t = steps.take(i as int + 1);
                assert(t.drop_last() =~= steps.take(i as int));
                assert(t.last() == (r.url@, r.code));
            }
            i += 1;
        }
        assert(steps.take(self.redirects.len() as int) =~= steps);
        string_of(out.as_slice())
    }
}

/// What recording a redirect does to the record: the chain of the first
/// URL of the request gets the redirect, and starts when there was none.
pub open spec fn record_redirect(
    history: Map<Seq<char>, RedirectsView>,
    first: Seq<char>,
    redirect: RedirectView,
) -> Map<Seq<char>, RedirectsView> {
    let chain = if history.contains_key(first) {
        history[first]
    } else {
        (first, Seq::<RedirectView>::empty())
    };
    history.insert(first, (chain.0, chain.1.push(redirect)))
}

/// The record of HTTP redirects: for each URL first asked for, the chain
/// of redirects followed from it.
#[derive(Debug)]
pub struct RedirectHistory {
    records: Vec<(AbsoluteUrl, Redirects)>,
}

/// The views of the records.
pub open spec fn chain_views(v: Seq<(AbsoluteUrl, Redirects)>) -> Seq<(Seq<char>, RedirectsView)> {
    v.map_values(|p: (AbsoluteUrl, Redirects)| (p.0@, p.1@))
}

impl View for RedirectHistory {
    type V = Map<Seq<char>, RedirectsView>;

    closed spec fn view(&self) -> Map<Seq<char>, RedirectsView> {
        keyed_map(chain_views(self.records@))
    }
}

impl RedirectHistory {
    /// An empty record.
    pub fn new() -> (r: RedirectHistory)
        ensures
            r@ == Map::<Seq<char>, RedirectsView>::empty(),
    {
        let r = RedirectHistory { records: Vec::new() };
        assert(chain_views(r.records@) =~= Seq::<(Seq<char>, RedirectsView)>::empty());
        r
    }

    /// The chain of redirects followed from a URL, if one was recorded.
    pub fn get_resolved(&self, original: &AbsoluteUrl) -> (r: Option<Redirects>)
        ensures
            match r {
                Some(c) => self@.contains_key(original@) && self@[original@] == c@,
                None => !self@.contains_key(original@),
            },
    {
        let ghost s = chain_views(self.records@);
        let mut i: usize = self.records.len();
        while i > 0
            invariant
                i <= self.records.len(),
                s == chain_views(self.records@),
                forall|j: int| i <= j < s.len() ==> s[j].0 != original@,
            decreases i,
        {
            if str_eq(self.records[i - 1].0.as_str(), original.as_str()) {
                proof {
                    lemma_keyed_lookup(s, original@, i as int);
                    assert(s.take(i as int).drop_last() =~= s.take(i - 1));
                    assert(s.take(i as int).last() == s[i - 1]);
                }
                return Some(self.records[i - 1].1.copy());
            }
            i -= 1;
        }
        proof {
            lemma_keyed_lookup(s, original@, 0);
            assert(s.take(0) =~= Seq::<(Seq<char>, RedirectsView)>::empty());
        }
        None
    }

    /// Records a redirect of a request: `previous` are the URLs asked for
    /// so far, the first of them the URL first asked for; the request was
    /// redirected to `url` with status `code`. Nothing is recorded without
    /// a previous URL.
    pub fn record_redirects(&mut self, previous: &Vec<AbsoluteUrl>, url: &AbsoluteUrl, code: u16)
        ensures
            previous.len() == 0 ==> final(self)@ == old(self)@,
            previous.len() > 0 ==> final(self)@ == record_redirect(
                old(self)@,
                previous@[0]@,
                (url@, code),
            ),
    {
        if previous.len() == 0 {
            return;
        }
        let first = &previous[0];
        let mut chain = match self.get_resolved(first) {
            Some(c) => c,
            None => Redirects::new(first.clone()),
        };
        chain.push(Redirect { url: url.clone(), code });
        let ghost before = chain_views(self.records@);
        let ghost entry = (first@, chain@);
        self.records.push((first.clone(), chain));
        assert(chain_views(self.records@) =~= before.push(entry));
        assert(chain_views(self.records@).drop_last() =~= before);
    }
}

/// After a redirect is recorded for a request, the chain of the URL first
/// asked for ends with that redirect, and the chains of other URLs are
/// unchanged.
pub proof fn law_redirect_read_after_record(
    history: Map<Seq<char>, RedirectsView>,
    first: Seq<char>,
    redirect: RedirectView,
    other: Seq<char>,
)
    requires
        other != first,
    ensures
        record_redirect(history, first, redirect).contains_key(first),
        record_redirect(history, first, redirect)[first].1.last() == redirect,
        record_redirect(history, first, redirect)[first].1.len() == (if history.contains_key(first) {
            history[first].1.len() + 1
        } else {
            1
        }),
        record_redirect(history, first, redirect).contains_key(other) == history.contains_key(other),
        history.contains_key(other) ==> record_redirect(history, first, redirect)[other]
            == history[other],
{
}

} // verus!
