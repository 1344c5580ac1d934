//! Filesystem paths, as text with `/` as separator.
//!
//! Joining and the absolute/relative distinction are simple enough to be
//! stated and proved here. Taking the parent or the final component of a
//! path, and cleaning a path lexically, are done by `std::path` and the
//! `path_clean` crate; their results are named below.
use vstd::prelude::*;

use crate::error::ErrorKind;
use crate::text::{append_str, chars_of, string_of};

verus! {

/// Whether a path is absolute: it starts at the root.
pub open spec fn path_is_absolute(p: Seq<char>) -> bool {
    p.len() > 0 && p[0] == '/'
}

/// `base` joined with `rel` (`Path::join`): an absolute `rel` replaces the
/// base; otherwise a separator is put between them where `base` does not
/// end in one.
pub open spec fn path_join(base: Seq<char>, rel: Seq<char>) -> Seq<char> {
    if path_is_absolute(rel) {
        rel
    } else if base.len() == 0 || base.last() == '/' {
        base + rel
    } else {
        base + seq!['/'] + rel
    }
}

/// The path without its final component (`Path::parent`).
pub uninterp spec fn path_parent(p: Seq<char>) -> Option<Seq<char>>;

/// The final component of the path (`Path::file_name`).
pub uninterp spec fn path_file_name(p: Seq<char>) -> Option<Seq<char>>;

/// The path with `.` and `..` components and repeated separators removed
/// lexically (`path_clean::clean`).
pub uninterp spec fn path_cleaned(p: Seq<char>) -> Seq<char>;

/// Whether `p` is absolute (`Path::is_absolute`, on Unix).
pub fn is_absolute(p: &str) -> (r: bool)
    ensures
        r == path_is_absolute(p@),
{
    let v = chars_of(p);
    v.len() > 0 && v[0] == '/'
}

/// Joins two paths (`Path::join`).
pub fn join_path(base: &str, rel: &str) -> (r: String)
    ensures
        r@ == path_join(base@, rel@),
{
    if is_absolute(rel) {
        return string_of(chars_of(rel).as_slice());
    }
    let mut out = chars_of(base);
    if out.len() > 0 && out[out.len() - 1] != '/' {
        out.push('/');
    }
    append_str(&mut out, rel);
    string_of(out.as_slice())
}

/// The parent of a path (`Path::parent`); there is none for the empty path.
#[verifier::external_body]
fn parent_of(p: &str) -> (r: Option<String>)
    ensures
        match r {
            Some(x) => path_parent(p@) == Some(x@),
            None => path_parent(p@) is None,
        },
        p@.len() == 0 ==> r is None,
{
    std::path::Path::new(p).parent().map(|x| x.to_string_lossy().into_owned())
}

/// The final component of a path (`Path::file_name`), when it is text.
#[verifier::external_body]
pub(crate) fn file_name_of(p: &str) -> (r: Option<String>)
    ensures
        match r {
            Some(x) => path_file_name(p@) == Some(x@),
            None => path_file_name(p@) is None,
        },
{
    std::path::Path::new(p).file_name().map(|x| x.to_string_lossy().into_owned())
}

/// Cleans a path lexically (`path_clean::clean`); a rooted path stays
/// rooted, and the result is never empty.
#[verifier::external_body]
fn clean(p: &str) -> (r: String)
    ensures
        r@ == path_cleaned(p@),
        r@.len() > 0,
        path_is_absolute(p@) ==> path_is_absolute(r@),
{
    path_clean::clean(p).to_string_lossy().into_owned()
}

/// The absolute form of a path: a relative path is taken relative to
/// `current_dir`; the result is cleaned.
pub open spec fn absolute_path_spec(path: Seq<char>, current_dir: Seq<char>) -> Seq<char> {
    if path_is_absolute(path) {
        path_cleaned(path)
    } else {
        path_cleaned(path_join(current_dir, path))
    }
}

/// Creates an absolute, cleaned path out of `path`, relative to
/// `current_dir` when it is relative.
pub fn absolute_path(path: &str, current_dir: &str) -> (r: String)
    ensures
        r@ == absolute_path_spec(path@, current_dir@),
        path_is_absolute(current_dir@) ==> path_is_absolute(r@),
{
    if is_absolute(path) {
        clean(path)
    } else {
        let joined = join_path(current_dir, path);
        clean(joined.as_str())
    }
}

/// What resolving `dst`, linked to from `src`, gives: `None` for an
/// absolute link that is ignored, the error text for a relative link from a
/// path without parent.
pub open spec fn resolve_spec(
    src: Seq<char>,
    dst: Seq<char>,
    ignore_absolute_local_links: bool,
    current_dir: Seq<char>,
) -> Result<Option<Seq<char>>, Seq<char>> {
    if !path_is_absolute(dst) {
        match path_parent(src) {
            None => Err(dst),
            Some(parent) => Ok(Some(absolute_path_spec(path_join(parent, dst), current_dir))),
        }
    } else if ignore_absolute_local_links {
        Ok(None)
    } else {
        Ok(Some(absolute_path_spec(dst, current_dir)))
    }
}

/// Resolves `dst` that was linked to from within `src`. A relative `dst` is
/// found in the parent directory of `src`; an absolute one is taken as it
/// is, or ignored (`Ok(None)`) when `ignore_absolute_local_links` is set.
pub fn resolve(src: &str, dst: &str, ignore_absolute_local_links: bool, current_dir: &str) -> (r:
    Result<Option<String>, ErrorKind>)
    ensures
        match resolve_spec(src@, dst@, ignore_absolute_local_links, current_dir@) {
            Ok(Some(p)) => (r matches Ok(Some(x)) && x@ == p),
            Ok(None) => r matches Ok(None),
            Err(e) => (r matches Err(ErrorKind::InvalidFile(x)) && x@ == e),
        },
{
    if !is_absolute(dst) {
        match parent_of(src) {
            None => Err(ErrorKind::InvalidFile(string_of(chars_of(dst).as_slice()))),
            Some(parent) => {
                let joined = join_path(parent.as_str(), dst);
                Ok(Some(absolute_path(joined.as_str(), current_dir)))
            },
        }
    } else if ignore_absolute_local_links {
        Ok(None)
    } else {
        Ok(Some(absolute_path(dst, current_dir)))
    }
}

} // verus!
