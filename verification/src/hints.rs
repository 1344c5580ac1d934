//! Friendly messages collected while links are checked, to be shown to the
//! user at the end.
use vstd::prelude::*;

use crate::text::{chars_of, string_of, string_views};

verus! {

/// An informative and friendly message, to be displayed before
/// termination.
#[derive(Debug, Clone, PartialEq, Eq, PartialOrd, Ord)]
pub struct Hint(String);

impl View for Hint {
    type V = Seq<char>;

    closed spec fn view(&self) -> Seq<char> {
        self.0@
    }
}

impl Hint {
    /// A hint with the given text.
    pub fn from_str(value: &str) -> (r: Self)
        ensures
            r@ == value@,
    {
        Hint(string_of(chars_of(value).as_slice()))
    }

    /// A hint with the given text.
    pub fn from_string(value: String) -> (r: Self)
        ensures
            r@ == value@,
    {
        Hint(value)
    }

    /// The text of the hint.
    pub fn to_string(&self) -> (r: String)
        ensures
            r@ == self@,
    {
        string_of(chars_of(self.0.as_str()).as_slice())
    }
}

/// Whether `a` comes before `b` or equals it, in the lexicographic order of
/// their characters (the order of `String`).
pub open spec fn text_le(a: Seq<char>, b: Seq<char>) -> bool
    decreases a.len(),
{
    if a.len() == 0 {
        true
    } else if b.len() == 0 {
        false
    } else if a[0] != b[0] {
        a[0] < b[0]
    } else {
        text_le(a.drop_first(), b.drop_first())
    }
}

/// The lexicographic order is total.
pub proof fn lemma_text_le_total(a: Seq<char>, b: Seq<char>)
    ensures
        text_le(a, b) || text_le(b, a),
    decreases a.len(),
{
    if a.len() > 0 && b.len() > 0 && a[0] == b[0] {
        lemma_text_le_total(a.drop_first(), b.drop_first());
    }
}

/// The lexicographic order is transitive.
pub proof fn lemma_text_le_transitive(a: Seq<char>, b: Seq<char>, c: Seq<char>)
    requires
        text_le(a, b),
        text_le(b, c),
    ensures
        text_le(a, c),
    decreases a.len(),
{
    if a.len() > 0 && b.len() > 0 && c.len() > 0 && a[0] == b[0] && b[0] == c[0] {
        lemma_text_le_transitive(a.drop_first(), b.drop_first(), c.drop_first());
    }
}

fn text_le_exec(a: &[char], b: &[char]) -> (r: bool)
    ensures
        r == text_le(a@, b@),
{
    let mut i: usize = 0;
    assert(a@.skip(0) =~= a@);
    assert(b@.skip(0) =~= b@);
    while i < a.len() && i < b.len() && a[i] == b[i]
        invariant
            i <= a.len(),
            i <= b.len(),
            text_le(a@, b@) == text_le(a@.skip(i as int), b@.skip(i as int)),
        decreases a.len() - i,
    {
        assert(a@.skip(i as int).drop_first() =~= a@.skip(i + 1));
        assert(b@.skip(i as int).drop_first() =~= b@.skip(i + 1));
        i += 1;
    }
    if i == a.len() {
        true
    } else if i == b.len() {
        false
    } else {
        assert(a@.skip(i as int)[0] == a@[i as int]);
        assert(b@.skip(i as int)[0] == b@[i as int]);
        a[i] < b[i]
    }
}

/// Whether a sequence of texts is in lexicographic order.
pub open spec fn sorted(s: Seq<Seq<char>>) -> bool {
    forall|i: int, j: int| 0 <= i < j < s.len() ==> text_le(#[trigger] s[i], #[trigger] s[j])
}

/// The hints collected during the whole program invocation.
#[derive(Debug, Clone)]
pub struct Hints {
    hints: Vec<Hint>,
}

/// The texts of a sequence of hints.
pub open spec fn hint_views(v: Seq<Hint>) -> Seq<Seq<char>> {
    v.map_values(|h: Hint| h@)
}

impl View for Hints {
    type V = Seq<Seq<char>>;

    closed spec fn view(&self) -> Seq<Seq<char>> {
        hint_views(self.hints@)
    }
}

impl Hints {
    /// No hints yet.
    pub fn new() -> (r: Self)
        ensures
            r@ == Seq::<Seq<char>>::empty(),
    {
        let r = Hints { hints: Vec::new() };
        assert(r@ =~= Seq::<Seq<char>>::empty());
        r
    }

    /// Collects a hint, to be shown to users later (see
    /// [`Hints::get_hints`]).
    pub fn add_hint(&mut self, hint: Hint)
        ensures
            final(self)@ == old(self)@.push(hint@),
    {
        let ghost before = self@;
        self.hints.push(hint);
        assert(self@ =~= before.push(hint@));
    }

    /// The collected hints, sorted for reproducible reporting.
    pub fn get_hints(&self) -> (r: Vec<Hint>)
        ensures
            sorted(hint_views(r@)),
            hint_views(r@).to_multiset() == self@.to_multiset(),
    {
        let mut out: Vec<Hint> = Vec::new();
        let mut i: usize = 0;
        proof {
            broadcast use vstd::seq_lib::group_to_multiset_ensures;

            assert(hint_views(out@) =~= Seq::<Seq<char>>::empty());
            assert(self@.take(0) =~= Seq::<Seq<char>>::empty());
        }
        while i < self.hints.len()
            invariant
                i <= self.hints.len(),
                sorted(hint_views(out@)),
                hint_views(out@).to_multiset() == self@.take(i as int).to_multiset(),
            decreases self.hints.len() - i,
        {
            let h = self.hints[i].to_string();
            let hc = chars_of(h.as_str());
            let mut j: usize = 0;
            let ghost ov = hint_views(out@);
            while j < out.len() && text_le_exec(chars_of(out[j].0.as_str()).as_slice(), hc.as_slice())
                invariant
                    j <= out.len(),
                    ov == hint_views(out@),
                    hc@ == h@,
                    forall|k: int| 0 <= k < j ==> text_le(#[trigger] ov[k], h@),
                decreases out.len() - j,
            {
                j += 1;
            }
            proof {
                if j < out.len() {
                    lemma_text_le_total(ov[j as int], h@);
                }
                assert forall|a: int, b: int| 0 <= a < b < ov.len() implies text_le(
                    #[trigger] ov[a],
                    #[trigger] ov[b],
                ) by {}
                assert forall|k: int| j <= k < ov.len() implies text_le(h@, #[trigger] ov[k]) by {
                    if k > j {
                        lemma_text_le_transitive(h@, ov[j as int], ov[k]);
                    }
                }
            }
            out.insert(j, Hint::from_string(h));
            proof {
                let nv = hint_views(out@);
                assert(nv =~= ov.insert(j as int, self@[i as int]));
                assert forall|a: int, b: int| 0 <= a < b < nv.len() implies text_le(
                    #[trigger] nv[a],
                    #[trigger] nv[b],
                ) by {
                    if a < j && b == j {
                    } else if a == j && b > j {
                        assert(nv[b] == ov[b - 1]);
                    } else if a < j && b > j {
                        assert(nv[b] == ov[b - 1]);
                    } else if a > j {
                        assert(nv[a] == ov[a - 1]);
                        assert(nv[b] == ov[b - 1]);
                    }
                }
                broadcast use vstd::seq_lib::group_to_multiset_ensures;

                assert(self@.take(i + 1) =~= self@.take(i as int).push(self@[i as int]));
                lemma_insert_multiset(ov, j as int, self@[i as int]);
            }
            i += 1;
        }
        assert(self@.take(self.hints.len() as int) =~= self@);
        out
    }
}

proof fn lemma_insert_multiset(s: Seq<Seq<char>>, j: int, x: Seq<char>)
    requires
        0 <= j <= s.len(),
    ensures
        s.insert(j, x).to_multiset() == s.to_multiset().insert(x),
{
    broadcast use vstd::seq_lib::group_to_multiset_ensures;

    assert(s.insert(j, x) =~= s.take(j) + seq![x] + s.skip(j));
    assert(s =~= s.take(j) + s.skip(j));
    vstd::seq_lib::lemma_multiset_commutative(s.take(j) + seq![x], s.skip(j));
    vstd::seq_lib::lemma_multiset_commutative(s.take(j), seq![x]);
    vstd::seq_lib::lemma_multiset_commutative(s.take(j), s.skip(j));
}

} // verus!
