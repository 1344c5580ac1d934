//! The index of files for wikilinks: each file name, in ASCII lowercase,
//! to the path where the file was found under the base directory.
//!
//! Walking the base directory is done outside; the checker decides
//! whether and where to walk, and answers lookups.
use vstd::prelude::*;

use crate::base::{Base, BaseView};
use crate::error::ErrorKind;
use crate::paths::{file_name_of, path_file_name};
use crate::remap::{keyed_map, lemma_keyed_lookup};
use crate::text::{chars_eq, chars_of, string_of};

verus! {

/// A character in ASCII lowercase.
pub open spec fn ascii_lower_char(c: char) -> char {
    if 'A' <= c && c <= 'Z' {
        ((c as u32) + 32) as char
    } else {
        c
    }
}

/// A text in ASCII lowercase (`to_ascii_lowercase`): other characters are
/// kept.
pub open spec fn ascii_lowercase(s: Seq<char>) -> Seq<char> {
    s.map_values(|c: char| ascii_lower_char(c))
}

/// Puts a text in ASCII lowercase.
pub fn to_ascii_lowercase(s: &str) -> (r: Vec<char>)
    ensures
        r@ == ascii_lowercase(s@),
{
    let v = chars_of(s);
    let mut out: Vec<char> = Vec::new();
    let mut i: usize = 0;
    while i < v.len()
        invariant
            i <= v.len(),
            v@ == s@,
            out@ =~= ascii_lowercase(v@.take(i as int)),
        decreases v.len() - i,
    {
        let c = v[i];
        let l = if 'A' <= c && c <= 'Z' {
            ((c as u8) + 32) as char
        } else {
            c
        };
        out.push(l);
        assert(v@.take(i as int + 1) =~= v@.take(i as int).push(c));
        i += 1;
    }
    assert(v@.take(v.len() as int) =~= v@);
    out
}

/// The message for a remote base, of no use for wikilinks.
pub open spec fn remote_base_message() -> Seq<char> {
    "Remote Base Directory found, only local directories are allowed"@
}

/// The index of files for wikilinks.
#[derive(Debug)]
pub struct WikilinkChecker {
    filenames: Vec<(Vec<char>, String)>,
    basedir: Option<Base>,
}

/// The view of a [`WikilinkChecker`]: the index, and the base directory.
pub type WikilinkCheckerView = (Map<Seq<char>, Seq<char>>, Option<BaseView>);

/// The views of the index entries.
pub open spec fn entry_views(v: Seq<(Vec<char>, String)>) -> Seq<(Seq<char>, Seq<char>)> {
    v.map_values(|e: (Vec<char>, String)| (e.0@, e.1@))
}

/// The view of an optional base.
pub open spec fn base_option(b: Option<Base>) -> Option<BaseView> {
    match b {
        Some(x) => Some(x@),
        None => None,
    }
}

impl View for WikilinkChecker {
    type V = WikilinkCheckerView;

    closed spec fn view(&self) -> WikilinkCheckerView {
        (keyed_map(entry_views(self.filenames@)), base_option(self.basedir))
    }
}

/// What indexing the files at the given paths does to an index: each path
/// with a file name is entered under its name in ASCII lowercase, later
/// paths replacing earlier ones.
pub open spec fn index_files(index: Map<Seq<char>, Seq<char>>, paths: Seq<Seq<char>>) -> Map<
    Seq<char>,
    Seq<char>,
>
    decreases paths.len(),
{
    if paths.len() == 0 {
        index
    } else {
        let before = index_files(index, paths.drop_last());
        match path_file_name(paths.last()) {
            Some(name) => before.insert(ascii_lowercase(name), paths.last()),
            None => before,
        }
    }
}

impl WikilinkChecker {
    /// A checker with an empty index for a base directory; none without a
    /// base.
    pub fn new(base: Option<Base>) -> (r: Option<WikilinkChecker>)
        ensures
            match base {
                Some(b) => r matches Some(c) && c@ == (Map::<Seq<char>, Seq<char>>::empty(), Some(b@)),
                None => r is None,
            },
    {
        match base {
            None => None,
            Some(b) => {
                let c = WikilinkChecker { filenames: Vec::new(), basedir: Some(b) };
                assert(entry_views(c.filenames@) =~= Seq::<(Seq<char>, Seq<char>)>::empty());
                Some(c)
            },
        }
    }

    /// Which directory to index: none when the index is filled already or
    /// there is no base; the base directory when it is local; a remote
    /// base is refused.
    pub fn index_target(&self) -> (r: Result<Option<String>, ErrorKind>)
        ensures
            if self@.0.dom().len() > 0 || self@.1 is None {
                r == Ok::<Option<String>, ErrorKind>(None)
            } else {
                match self@.1 {
                    Some(BaseView::Local(d)) => r matches Ok(Some(x)) && x@ == d,
                    Some(BaseView::Remote(_)) => r matches Err(ErrorKind::WikilinkCheckerInit(m))
                        && m@ == remote_base_message(),
                    None => false,
                }
            },
    {
        proof {
            lemma_keyed_map_empty(entry_views(self.filenames@));
        }
        if self.filenames.len() > 0 {
            return Ok(None);
        }
        match &self.basedir {
            None => Ok(None),
            Some(Base::Local(dir)) => Ok(Some(string_of(chars_of(dir.as_str()).as_slice()))),
            Some(Base::Remote(_)) => Err(
                ErrorKind::WikilinkCheckerInit(
                    string_of(
                        chars_of(
                            "Remote Base Directory found, only local directories are allowed",
                        ).as_slice(),
                    ),
                ),
            ),
        }
    }

    /// Enters the files at the given paths into the index, under their
    /// file names in ASCII lowercase.
    pub fn add_files(&mut self, paths: Vec<String>)
        ensures
            final(self)@ == (index_files(old(self)@.0, string_views_of(paths@)), old(self)@.1),
    {
        let ghost start = self@.0;
        let mut i: usize = 0;
        while i < paths.len()
            invariant
                i <= paths.len(),
                self@.1 == old(self)@.1,
                start == old(self)@.0,
                self@.0 == index_files(start, string_views_of(paths@).take(i as int)),
            decreases paths.len() - i,
        {
            let path = &paths[i];
            proof {
                let t = string_views_of(paths@).take(i as int + 1);
                assert(t.drop_last() =~= string_views_of(paths@).take(i as int));
                assert(t.last() == path@);
            }
            match file_name_of(path.as_str()) {
                Some(name) => {
                    let key = to_ascii_lowercase(name.as_str());
                    let ghost before = entry_views(self.filenames@);
                    let ghost entry = (key@, path@);
                    self.filenames.push((key, string_of(chars_of(path.as_str()).as_slice())));
                    assert(entry_views(self.filenames@) =~= before.push(entry));
                    assert(entry_views(self.filenames@).drop_last() =~= before);
                },
                None => {},
            }
            i += 1;
        }
        assert(string_views_of(paths@).take(paths.len() as int) =~= string_views_of(paths@));
    }

    /// The path of the file indexed under the file name of `path`, in ASCII
    /// lowercase; none when the path has no file name or no file has it.
    pub fn contains_path(&self, path: &str) -> (r: Option<String>)
        ensures
            match path_file_name(path@) {
                Some(name) => match r {
                    Some(p) => self@.0.contains_key(ascii_lowercase(name)) && self@.0[ascii_lowercase(
                        name,
                    )] == p@,
                    None => !self@.0.contains_key(ascii_lowercase(name)),
                },
                None => r is None,
            },
    {
        let name = match file_name_of(path) {
            Some(n) => n,
            None => return None,
        };
        let key = to_ascii_lowercase(name.as_str());
        let ghost s = entry_views(self.filenames@);
        let mut i: usize = self.filenames.len();
        while i > 0
            invariant
                i <= self.filenames.len(),
                s == entry_views(self.filenames@),
                path_file_name(path@) == Some(name@),
                key@ == ascii_lowercase(name@),
                forall|j: int| i <= j < s.len() ==> s[j].0 != key@,
            decreases i,
        {
            if chars_eq(self.filenames[i - 1].0.as_slice(), key.as_slice()) {
                assert(s[i - 1] == (self.filenames@[i - 1].0@, self.filenames@[i - 1].1@));
                proof {
                    lemma_keyed_lookup(s, key@, i as int);
                    assert(s.take(i as int).drop_last() =~= s.take(i - 1));
                    assert(s.take(i as int).last() == s[i - 1]);
                }
                return Some(string_of(chars_of(self.filenames[i - 1].1.as_str()).as_slice()));
            }
            i -= 1;
        }
        proof {
            lemma_keyed_lookup(s, key@, 0);
            assert(s.take(0) =~= Seq::<(Seq<char>, Seq<char>)>::empty());
        }
        None
    }
}

/// The views of strings.
pub open spec fn string_views_of(v: Seq<String>) -> Seq<Seq<char>> {
    v.map_values(|x: String| x@)
}

/// A map made of records is empty exactly when there are none.
proof fn lemma_keyed_map_empty(s: Seq<(Seq<char>, Seq<char>)>)
    ensures
        keyed_map(s).dom().finite(),
        (keyed_map(s).dom().len() == 0) == (s.len() == 0),
    decreases s.len(),
{
    if s.len() > 0 {
        lemma_keyed_map_empty(s.drop_last());
        let m = keyed_map(s.drop_last());
        assert(keyed_map(s).dom().contains(s.last().0));
        vstd::set_lib::lemma_set_empty_equivalency_len(keyed_map(s).dom());
    } else {
        assert(keyed_map(s).dom() =~= Set::<Seq<char>>::empty());
    }
}

/// After files are indexed, looking up the name of a file that was indexed
/// last under that name gives its path.
pub proof fn law_indexed_file_is_found(index: Map<Seq<char>, Seq<char>>, paths: Seq<Seq<char>>)
    requires
        paths.len() > 0,
        path_file_name(paths.last()) is Some,
    ensures
        index_files(index, paths).contains_key(ascii_lowercase(path_file_name(paths.last())->Some_0)),
        index_files(index, paths)[ascii_lowercase(path_file_name(paths.last())->Some_0)]
            == paths.last(),
{
}

} // verus!
