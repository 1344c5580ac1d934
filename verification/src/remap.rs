//! The record of remapped URLs, for reporting.
use vstd::prelude::*;

use crate::address::AbsoluteUrl;
use crate::text::{append_str, str_eq, string_of};

verus! {

/// A single URL remapping: the original URL and the one it was remapped
/// to.
#[derive(Clone, Debug, PartialEq, Eq, Hash)]
pub struct Remapping {
    /// The URL as found.
    pub original: AbsoluteUrl,
    /// The URL it was remapped to.
    pub new: AbsoluteUrl,
}

impl Remapping {
    /// The remapping as text: `original --> new`.
    pub fn to_string(&self) -> (r: String)
        ensures
            r@ == self.original@ + " --> "@ + self.new@,
    {
        let mut out: Vec<char> = Vec::new();
        append_str(&mut out, self.original.as_str());
        append_str(&mut out, " --> ");
        append_str(&mut out, self.new.as_str());
        string_of(out.as_slice())
    }
}

/// The map made of a sequence of records by key, later records replacing
/// earlier ones.
pub open spec fn keyed_map<V>(s: Seq<(Seq<char>, V)>) -> Map<Seq<char>, V>
    decreases s.len(),
{
    if s.len() == 0 {
        Map::empty()
    } else {
        keyed_map(s.drop_last()).insert(s.last().0, s.last().1)
    }
}

/// The record of remapped URLs: for each remapped URL, its original.
#[derive(Debug, Clone)]
pub struct RemapHistory {
    records: Vec<(AbsoluteUrl, AbsoluteUrl)>,
}

/// The views of the records.
pub open spec fn record_views(v: Seq<(AbsoluteUrl, AbsoluteUrl)>) -> Seq<(Seq<char>, Seq<char>)> {
    v.map_values(|p: (AbsoluteUrl, AbsoluteUrl)| (p.0@, p.1@))
}

impl View for RemapHistory {
    type V = Map<Seq<char>, Seq<char>>;

    closed spec fn view(&self) -> Map<Seq<char>, Seq<char>> {
        keyed_map(record_views(self.records@))
    }
}

/// Records after the last one with a key do not change what the map holds
/// for the key.
pub proof fn lemma_keyed_lookup<V>(s: Seq<(Seq<char>, V)>, k: Seq<char>, i: int)
    requires
        0 <= i <= s.len(),
        forall|j: int| i <= j < s.len() ==> s[j].0 != k,
    ensures
        keyed_map(s).contains_key(k) == keyed_map(s.take(i)).contains_key(k),
        keyed_map(s).contains_key(k) ==> keyed_map(s)[k] == keyed_map(s.take(i))[k],
    decreases s.len() - i,
{
    if i < s.len() {
        assert(s.drop_last().take(i) =~= s.take(i));
        lemma_keyed_lookup(s.drop_last(), k, i);
    } else {
        assert(s.take(i) =~= s);
    }
}

impl RemapHistory {
    /// An empty record.
    pub fn new() -> (r: Self)
        ensures
            r@ == Map::<Seq<char>, Seq<char>>::empty(),
    {
        let r = RemapHistory { records: Vec::new() };
        assert(record_views(r.records@) =~= Seq::<(Seq<char>, Seq<char>)>::empty());
        r
    }

    /// Records a remapping: the new URL maps to the original one.
    pub fn record_remap(&mut self, remapping: Remapping)
        ensures
            final(self)@ == old(self)@.insert(remapping.new@, remapping.original@),
    {
        let ghost before = record_views(self.records@);
        self.records.push((remapping.new, remapping.original));
        assert(record_views(self.records@).drop_last() =~= before);
    }

    /// The original of a remapped URL, if it was remapped.
    pub fn get(&self, new: &AbsoluteUrl) -> (r: Option<AbsoluteUrl>)
        ensures
            match r {
                Some(o) => self@.contains_key(new@) && self@[new@] == o@,
                None => !self@.contains_key(new@),
            },
    {
        let ghost s = record_views(self.records@);
        let mut i: usize = self.records.len();
        while i > 0
            invariant
                i <= self.records.len(),
                s == record_views(self.records@),
                forall|j: int| i <= j < s.len() ==> s[j].0 != new@,
            decreases i,
        {
            if str_eq(self.records[i - 1].0.as_str(), new.as_str()) {
                proof {
                    lemma_keyed_lookup(s, new@, i as int);
                    assert(s.take(i as int).drop_last() =~= s.take(i - 1));
                    assert(s.take(i as int).last() == s[i - 1]);
                }
                return Some(self.records[i - 1].1.clone());
            }
            i -= 1;
        }
        proof {
            lemma_keyed_lookup(s, new@, 0);
            assert(s.take(0) =~= Seq::<(Seq<char>, Seq<char>)>::empty());
        }
        None
    }

    /// The remapping of a URL, if it was remapped.
    pub fn handle_remapped(&self, new: &AbsoluteUrl) -> (r: Option<Remapping>)
        ensures
            match r {
                Some(m) => self@.contains_key(new@) && m.original@ == self@[new@] && m.new@ == new@,
                None => !self@.contains_key(new@),
            },
    {
        match self.get(new) {
            Some(original) => Some(Remapping { original, new: new.clone() }),
            None => None,
        }
    }
}

/// What the record answers for a URL after a remapping to it was recorded:
/// its original.
pub proof fn law_remap_read_after_write(history: Map<Seq<char>, Seq<char>>, original: Seq<char>, new: Seq<char>)
    ensures
        history.insert(new, original).contains_key(new),
        history.insert(new, original)[new] == original,
{
}

} // verus!
