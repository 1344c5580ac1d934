//! The kinds of files that can be checked, by their extensions.
use vstd::prelude::*;

use crate::address::{url_parse, url_scheme, AbsoluteUrl};
use crate::text::{chars_of, join, split, split_chars, str_eq, string_of, string_views, strings_of};

verus! {

/// The file types that can be handled.
#[derive(Copy, Clone, Debug, PartialEq, Eq, Hash, Structural)]
pub enum FileType {
    /// File in HTML format
    Html,
    /// File in Markdown format
    Markdown,
    /// Generic text file without syntax-specific parsing
    Plaintext,
}

/// All known Markdown extensions.
pub open spec fn markdown_exts() -> Seq<Seq<char>> {
    seq!["markdown"@, "mkdown"@, "mkdn"@, "mdwn"@, "mdown"@, "mdx"@, "mkd"@, "md"@]
}

/// All known HTML extensions.
pub open spec fn html_exts() -> Seq<Seq<char>> {
    seq!["htm"@, "html"@]
}

/// All known plaintext extensions.
pub open spec fn plaintext_exts() -> Seq<Seq<char>> {
    seq!["txt"@]
}

/// The lowercase form of a text (`str::to_lowercase`).
pub uninterp spec fn lowercase(s: Seq<char>) -> Seq<char>;

/// The extension of a path (`Path::extension`), when it is text.
pub uninterp spec fn path_extension(p: Seq<char>) -> Option<Seq<char>>;

/// The lowercase form of a text, by Unicode's rules (`str::to_lowercase`).
#[verifier::external_body]
pub(crate) fn to_lowercase(s: &str) -> (r: String)
    ensures
        r@ == lowercase(s@),
{
    s.to_lowercase()
}

/// The extension of a path (`Path::extension`): the text after the last
/// `.` of the file name.
#[verifier::external_body]
fn extension_of(p: &str) -> (r: Option<String>)
    ensures
        match r {
            Some(e) => path_extension(p@) == Some(e@),
            None => path_extension(p@) is None,
        },
{
    std::path::Path::new(p).extension().and_then(|e| e.to_str()).map(|e| e.to_string())
}

/// The file type of an extension in lowercase.
pub open spec fn type_of_lowercase_extension(ext: Seq<char>) -> Option<FileType> {
    if markdown_exts().contains(ext) {
        Some(FileType::Markdown)
    } else if html_exts().contains(ext) {
        Some(FileType::Html)
    } else if plaintext_exts().contains(ext) {
        Some(FileType::Plaintext)
    } else {
        None
    }
}

/// The file type of an extension, in any case.
pub open spec fn type_of_extension(ext: Seq<char>) -> Option<FileType> {
    type_of_lowercase_extension(lowercase(ext))
}

/// Whether a path is likely a URL: it parses as an `http` or `https` URL.
pub open spec fn url_like(p: Seq<char>) -> bool {
    match url_parse(p) {
        Ok(u) => url_scheme(u) == "http"@ || url_scheme(u) == "https"@,
        Err(_) => false,
    }
}

/// The file type of a path: by its extension; otherwise HTML for a URL,
/// plaintext for anything else.
pub open spec fn type_of_path(p: Seq<char>) -> FileType {
    let by_extension = match path_extension(p) {
        Some(e) => type_of_extension(lowercase(e)),
        None => None,
    };
    match by_extension {
        Some(t) => t,
        None => if url_like(p) {
            FileType::Html
        } else {
            FileType::Plaintext
        },
    }
}

fn in_list(list: &[&str], ext: &str) -> (r: bool)
    ensures
        r == list@.map_values(|x: &str| x@).contains(ext@),
{
    let ghost views = list@.map_values(|x: &str| x@);
    let mut i: usize = 0;
    while i < list.len()
        invariant
            i <= list.len(),
            views == list@.map_values(|x: &str| x@),
            forall|j: int| 0 <= j < i ==> views[j] != ext@,
        decreases list.len() - i,
    {
        if str_eq(list[i], ext) {
            assert(views[i as int] == ext@);
            return true;
        }
        i += 1;
    }
    assert(!views.contains(ext@)) by {
        if views.contains(ext@) {
            let j = choose|j: int| 0 <= j < views.len() && views[j] == ext@;
            assert(views[j] != ext@);
        }
    }
    false
}

fn strings_from(list: &[&str]) -> (r: FileExtensions)
    ensures
        r@ == list@.map_values(|x: &str| x@),
{
    let mut out: Vec<String> = Vec::new();
    let mut i: usize = 0;
    while i < list.len()
        invariant
            i <= list.len(),
            string_views(out@) == list@.map_values(|x: &str| x@).take(i as int),
        decreases list.len() - i,
    {
        let ghost before = string_views(out@);
        out.push(string_of(chars_of(list[i]).as_slice()));
        assert(string_views(out@) =~= before.push(list@[i as int]@));
        assert(list@.map_values(|x: &str| x@).take(i + 1) =~= list@.map_values(|x: &str| x@).take(
            i as int,
        ).push(list@[i as int]@));
        i += 1;
    }
    assert(list@.map_values(|x: &str| x@).take(list.len() as int) =~= list@.map_values(
        |x: &str| x@,
    ));
    FileExtensions(out)
}

impl FileType {
    /// All known Markdown extensions.
    pub fn markdown_extensions() -> (r: FileExtensions)
        ensures
            r@ == markdown_exts(),
    {
        let list = ["markdown", "mkdown", "mkdn", "mdwn", "mdown", "mdx", "mkd", "md"];
        let r = strings_from(&list);
        assert(r@ =~= markdown_exts());
        r
    }

    /// All known HTML extensions.
    pub fn html_extensions() -> (r: FileExtensions)
        ensures
            r@ == html_exts(),
    {
        let list = ["htm", "html"];
        let r = strings_from(&list);
        assert(r@ =~= html_exts());
        r
    }

    /// All known plaintext extensions.
    pub fn plaintext_extensions() -> (r: FileExtensions)
        ensures
            r@ == plaintext_exts(),
    {
        let list = ["txt"];
        let r = strings_from(&list);
        assert(r@ =~= plaintext_exts());
        r
    }

    /// The extensions checked by default: the Markdown, then HTML, then
    /// plaintext ones.
    pub fn default_extensions() -> (r: FileExtensions)
        ensures
            r@ == markdown_exts() + html_exts() + plaintext_exts(),
    {
        let mut extensions = FileExtensions::empty();
        extensions.extend(Self::markdown_extensions().into_vec());
        extensions.extend(Self::html_extensions().into_vec());
        extensions.extend(Self::plaintext_extensions().into_vec());
        assert(extensions@ =~= markdown_exts() + html_exts() + plaintext_exts());
        extensions
    }

    /// The file type of an extension, in any case.
    pub fn from_extension(extension: &str) -> (r: Option<Self>)
        ensures
            r == type_of_extension(extension@),
    {
        let ext = to_lowercase(extension);
        let md = ["markdown", "mkdown", "mkdn", "mdwn", "mdown", "mdx", "mkd", "md"];
        let html = ["htm", "html"];
        let txt = ["txt"];
        proof {
            assert(md@.map_values(|x: &str| x@) =~= markdown_exts());
            assert(html@.map_values(|x: &str| x@) =~= html_exts());
            assert(txt@.map_values(|x: &str| x@) =~= plaintext_exts());
        }
        if in_list(&md, ext.as_str()) {
            Some(FileType::Markdown)
        } else if in_list(&html, ext.as_str()) {
            Some(FileType::Html)
        } else if in_list(&txt, ext.as_str()) {
            Some(FileType::Plaintext)
        } else {
            None
        }
    }

    /// The default file type: a generic text file with no specific syntax.
    pub fn default() -> (r: Self)
        ensures
            r == FileType::Plaintext,
    {
        FileType::Plaintext
    }

    /// The file type of a path: by its extension, in any case; otherwise
    /// HTML for an `http` or `https` URL, plaintext for anything else.
    pub fn from_path(p: &str) -> (r: Self)
        ensures
            r == type_of_path(p@),
    {
        let by_extension = match extension_of(p) {
            Some(e) => {
                let lower = to_lowercase(e.as_str());
                FileType::from_extension(lower.as_str())
            },
            None => None,
        };
        match by_extension {
            Some(t) => t,
            None => if is_url(p) {
                FileType::Html
            } else {
                FileType::default()
            },
        }
    }
}

/// Whether a path is likely a URL: it parses as an `http` or `https` URL.
pub fn is_url(path: &str) -> (r: bool)
    ensures
        r == url_like(path@),
{
    match AbsoluteUrl::parse(path) {
        Ok(url) => str_eq(url.scheme(), "http") || str_eq(url.scheme(), "https"),
        Err(_) => false,
    }
}

/// Whether a path has an accepted extension: its file type is Markdown or
/// HTML.
pub fn valid_extension(p: &str) -> (r: bool)
    ensures
        r == (type_of_path(p@) == FileType::Markdown || type_of_path(p@) == FileType::Html),
{
    match FileType::from_path(p) {
        FileType::Markdown | FileType::Html => true,
        FileType::Plaintext => false,
    }
}

/// An ordered list of file extensions; the ones at the beginning take
/// priority.
#[derive(Debug, Clone, PartialEq, Eq)]
pub struct FileExtensions(Vec<String>);

impl View for FileExtensions {
    type V = Seq<Seq<char>>;

    closed spec fn view(&self) -> Seq<Seq<char>> {
        string_views(self.0@)
    }
}

impl FileExtensions {
    /// An empty list of file extensions.
    pub fn empty() -> (r: Self)
        ensures
            r@ == Seq::<Seq<char>>::empty(),
    {
        let r = FileExtensions(Vec::new());
        assert(r@ =~= Seq::<Seq<char>>::empty());
        r
    }

    /// The default list: see [`FileType::default_extensions`].
    pub fn default() -> (r: Self)
        ensures
            r@ == markdown_exts() + html_exts() + plaintext_exts(),
    {
        FileType::default_extensions()
    }

    /// The list of the given extensions.
    pub fn from_vec(value: Vec<String>) -> (r: Self)
        ensures
            r@ == string_views(value@),
    {
        FileExtensions(value)
    }

    /// The extensions of this list.
    pub fn into_vec(self) -> (r: Vec<String>)
        ensures
            string_views(r@) == self@,
    {
        self.0
    }

    /// The extensions of a file type.
    pub fn from_file_type(file_type: FileType) -> (r: Self)
        ensures
            r@ == match file_type {
                FileType::Html => html_exts(),
                FileType::Markdown => markdown_exts(),
                FileType::Plaintext => plaintext_exts(),
            },
    {
        match file_type {
            FileType::Html => FileType::html_extensions(),
            FileType::Markdown => FileType::markdown_extensions(),
            FileType::Plaintext => FileType::plaintext_extensions(),
        }
    }

    /// Appends the given extensions.
    pub fn extend(&mut self, iter: Vec<String>)
        ensures
            final(self)@ == old(self)@ + string_views(iter@),
    {
        let mut rest = iter;
        let ghost before = self@;
        let ghost all = string_views(rest@);
        let mut i: usize = 0;
        while i < rest.len()
            invariant
                i <= rest.len(),
                all == string_views(rest@),
                self@ == before + all.take(i as int),
            decreases rest.len() - i,
        {
            let ghost prev = self@;
            self.0.push(string_of(chars_of(rest[i].as_str()).as_slice()));
            assert(string_views(self.0@) =~= prev.push(rest@[i as int]@));
            assert(all.take(i + 1) =~= all.take(i as int).push(rest@[i as int]@));
            i += 1;
        }
        assert(all.take(rest.len() as int) =~= all);
    }

    /// Whether the list contains the given extension.
    pub fn contains(&self, file_extension: &str) -> (r: bool)
        ensures
            r == self@.contains(file_extension@),
    {
        let mut i: usize = 0;
        while i < self.0.len()
            invariant
                i <= self.0.len(),
                forall|j: int| 0 <= j < i ==> self@[j] != file_extension@,
            decreases self.0.len() - i,
        {
            if str_eq(self.0[i].as_str(), file_extension) {
                assert(self@[i as int] == file_extension@);
                return true;
            }
            i += 1;
        }
        assert(!self@.contains(file_extension@)) by {
            if self@.contains(file_extension@) {
                let j = choose|j: int| 0 <= j < self@.len() && self@[j] == file_extension@;
                assert(self@[j] != file_extension@);
            }
        }
        false
    }

    /// Takes the last extension off the list.
    pub fn next(&mut self) -> (r: Option<String>)
        ensures
            match r {
                Some(e) => old(self)@.len() > 0 && e@ == old(self)@.last() && final(self)@
                    == old(self)@.drop_last(),
                None => old(self)@.len() == 0 && final(self)@ == old(self)@,
            },
    {
        let ghost before = self.0@;
        let r = self.0.pop();
        proof {
            if before.len() > 0 {
                assert(string_views(self.0@) =~= string_views(before).drop_last());
            }
        }
        r
    }

    /// Parses a comma-separated list of extensions; this never fails.
    pub fn from_str(s: &str) -> (r: Self)
        ensures
            r@ == split(s@, ','),
    {
        let parts = split_chars(chars_of(s).as_slice(), ',');
        FileExtensions(strings_of(&parts))
    }

    /// The extensions, separated by commas.
    pub fn to_string(&self) -> (r: String)
        ensures
            r@ == join(self@, seq![',']),
    {
        let mut out: Vec<char> = Vec::new();
        let ghost all = self@;
        let mut i: usize = 0;
        while i < self.0.len()
            invariant
                i <= self.0.len(),
                all == self@,
                out@ == join(all.take(i as int), seq![',']),
            decreases self.0.len() - i,
        {
            let ghost before = out@;
            if i > 0 {
                out.push(',');
            }
            crate::text::append_str(&mut out, self.0[i].as_str());
            proof {
                let t = all.take(i + 1);
                assert(t.drop_last() =~= all.take(i as int));
                assert(t.last() == all[i as int]);
                if i == 0 {
                    assert(t.len() == 1);
                    assert(out@ =~= t[0]);
                } else {
                    assert(out@ =~= join(t.drop_last(), seq![',']) + seq![','] + t.last());
                }
            }
            i += 1;
        }
        assert(all.take(self.0.len() as int) =~= all);
        string_of(out.as_slice())
    }
}

/// Whether a path's extension is one of the known file types.
pub open spec fn has_known_extension(p: Seq<char>) -> bool {
    path_extension(p) matches Some(e) && type_of_extension(lowercase(e)) is Some
}

/// The file type of a path without a known extension is HTML when the path
/// is an `http` or `https` URL (a web page), and plaintext otherwise; with a
/// known extension, the extension decides, URL or not.
pub proof fn law_file_type_without_known_extension(p: Seq<char>)
    ensures
        !has_known_extension(p) && url_like(p) ==> type_of_path(p) == FileType::Html,
        !has_known_extension(p) && !url_like(p) ==> type_of_path(p) == FileType::Plaintext,
        has_known_extension(p) ==> Some(type_of_path(p)) == type_of_extension(
            lowercase(path_extension(p)->Some_0),
        ),
{
}

} // verus!
