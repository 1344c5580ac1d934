//! Preprocessing input files with a command, whose output is read in place
//! of the file.
use vstd::prelude::*;

use crate::error::{ErrorKind, ErrorKindView};
use crate::paths::{is_absolute, join_path, path_join, path_is_absolute};
use crate::text::{append_str, chars_of, string_of};

use crate::input::{Input, InputSource, InputSourceView};

verus! {

/// A command that preprocesses files: it is invoked with the path of the
/// input file as single argument, and its output is read in place of the
/// file.
#[derive(Debug, Clone, PartialEq, Eq)]
pub struct Preprocessor(String);

/// The text of some bytes, when they are UTF-8 (`String::from_utf8`).
pub uninterp spec fn utf8_text(bytes: Seq<u8>) -> Option<Seq<char>>;

/// Decodes UTF-8 bytes (`String::from_utf8`).
#[verifier::external_body]
fn utf8_of(data: Vec<u8>) -> (r: Option<String>)
    ensures
        match r {
            Some(s) => utf8_text(data@) == Some(s@),
            None => utf8_text(data@) is None,
        },
{
    String::from_utf8(data).ok()
}

/// What a run of the preprocessor gives: its output, when it succeeded;
/// otherwise an error with its error output.
pub open spec fn process_outcome(
    command: Seq<char>,
    success: bool,
    stdout: Seq<u8>,
    stderr: Seq<u8>,
) -> Result<Seq<char>, ErrorKindView> {
    if success {
        match utf8_text(stdout) {
            Some(s) => Ok(s),
            None => Err(ErrorKindView::Utf8(command)),
        }
    } else {
        match utf8_text(stderr) {
            None => Err(ErrorKindView::Utf8(command)),
            Some(e) => Err(
                ErrorKindView::PreprocessorError(
                    command,
                    "exited with non-zero code: "@ + if e.len() == 0 {
                        "<empty stderr>"@
                    } else {
                        e
                    },
                ),
            ),
        }
    }
}

impl View for Preprocessor {
    type V = Seq<char>;

    closed spec fn view(&self) -> Seq<char> {
        self.0@
    }
}

impl Preprocessor {
    /// The preprocessor that runs the given command.
    pub fn from(s: String) -> (r: Self)
        ensures
            r@ == s@,
    {
        Preprocessor(s)
    }

    /// The command.
    pub fn command(&self) -> (r: &str)
        ensures
            r@ == self@,
    {
        self.0.as_str()
    }

    fn from_utf8(&self, data: Vec<u8>) -> (r: Result<String, ErrorKind>)
        ensures
            match utf8_text(data@) {
                Some(s) => (r matches Ok(x) && x@ == s),
                None => (r matches Err(e) && e@ == ErrorKindView::Utf8(self@)),
            },
    {
        match utf8_of(data) {
            Some(s) => Ok(s),
            None => Err(ErrorKind::Utf8(string_of(chars_of(self.0.as_str()).as_slice()))),
        }
    }

    /// The outcome of a run of the preprocessor, from its exit status and
    /// outputs.
    pub fn process_output(&self, success: bool, stdout: Vec<u8>, stderr: Vec<u8>) -> (r: Result<
        String,
        ErrorKind,
    >)
        ensures
            match process_outcome(self@, success, stdout@, stderr@) {
                Ok(s) => (r matches Ok(x) && x@ == s),
                Err(e) => (r matches Err(x) && x@ == e),
            },
    {
        if success {
            return self.from_utf8(stdout);
        }
        let stderr_text = match self.from_utf8(stderr) {
            Ok(s) => s,
            Err(e) => return Err(e),
        };
        let mut m: Vec<char> = Vec::new();
        append_str(&mut m, "exited with non-zero code: ");
        if stderr_text.as_str().is_empty() {
            append_str(&mut m, "<empty stderr>");
        } else {
            append_str(&mut m, stderr_text.as_str());
        }
        Err(ErrorKind::PreprocessorError(string_of(chars_of(self.0.as_str()).as_slice()), string_of(m.as_slice())))
    }

    /// The error for a preprocessor that could not be started.
    pub fn start_error(&self, reason: &str) -> (r: ErrorKind)
        ensures
            r@ == ErrorKindView::PreprocessorError(self@, "could not start: "@ + reason@),
    {
        let mut m: Vec<char> = Vec::new();
        append_str(&mut m, "could not start: ");
        append_str(&mut m, reason);
        ErrorKind::PreprocessorError(string_of(chars_of(self.0.as_str()).as_slice()), string_of(m.as_slice()))
    }
}

/// The root directory used to resolve links starting with `/` in local
/// documents, as a web server's document root does. It is an absolute
/// path; a relative one is taken relative to the current directory.
#[derive(Debug, PartialEq, Eq, Clone)]
pub struct RootDir(String);

impl View for RootDir {
    type V = Seq<char>;

    closed spec fn view(&self) -> Seq<char> {
        self.0@
    }
}

impl RootDir {
    /// The root directory for a path: the path itself when absolute,
    /// otherwise the path under `current_dir`.
    pub fn new(path: &str, current_dir: &str) -> (r: Self)
        ensures
            r@ == if path_is_absolute(path@) {
                path@
            } else {
                path_join(current_dir@, path@)
            },
    {
        if is_absolute(path) {
            RootDir(string_of(chars_of(path).as_slice()))
        } else {
            RootDir(join_path(current_dir, path))
        }
    }

    /// The path of the root directory.
    pub fn as_path(&self) -> (r: &str)
        ensures
            r@ == self@,
    {
        self.0.as_str()
    }

    /// The root directory given as an input: a path that is a directory
    /// (`is_dir` tells whether it is one); any other input is refused.
    pub fn from_input(input: &Input, is_dir: bool, current_dir: &str) -> (r: Result<Self, ErrorKind>)
        ensures
            match input.source@ {
                InputSourceView::FsPath(p) => if is_dir {
                    r matches Ok(d) && d@ == (if path_is_absolute(p) {
                        p
                    } else {
                        path_join(current_dir@, p)
                    })
                } else {
                    r matches Err(e) && e@ == ErrorKindView::InvalidRootDir(p)
                },
                _ => r matches Err(e) && e@ == ErrorKindView::InvalidRootDir(
                    "Root directory must be a local path"@,
                ),
            },
    {
        match &input.source {
            InputSource::FsPath(path) => {
                if is_dir {
                    Ok(RootDir::new(path.as_str(), current_dir))
                } else {
                    Err(RootDir::invalid(path.as_str()))
                }
            },
            _ => Err(RootDir::invalid("Root directory must be a local path")),
        }
    }

    /// The error for a root directory that is not a local directory.
    pub fn invalid(path: &str) -> (r: ErrorKind)
        ensures
            r@ == ErrorKindView::InvalidRootDir(path@),
    {
        ErrorKind::InvalidRootDir(string_of(chars_of(path).as_slice()))
    }
}

} // verus!
