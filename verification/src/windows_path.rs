//! Windows absolute paths, which must not be taken for URLs.
use vstd::prelude::*;

use crate::text::{append_str, chars_of, string_of};

verus! {

/// A Windows absolute path, such as `C:\folder` or `D:/file.txt`.
#[derive(Debug, Clone, PartialEq, Eq)]
pub struct WindowsPath(String);

/// Whether a text starts like a Windows absolute path: an uppercase ASCII
/// drive letter, a colon and a separator.
pub open spec fn windows_absolute(s: Seq<char>) -> bool {
    s.len() >= 3 && 'A' <= s[0] && s[0] <= 'Z' && s[1] == ':' && (s[2] == '\\' || s[2] == '/')
}

impl View for WindowsPath {
    type V = Seq<char>;

    closed spec fn view(&self) -> Seq<char> {
        self.0@
    }
}

impl WindowsPath {
    /// Parses a Windows absolute path; the error says that the text is not
    /// one.
    pub fn try_from(input: &str) -> (r: Result<Self, String>)
        ensures
            match r {
                Ok(p) => windows_absolute(input@) && p@ == input@,
                Err(m) => !windows_absolute(input@) && m@ == "'"@ + input@
                    + "' is not a Windows absolute path"@,
            },
    {
        let chars = chars_of(input);
        if chars.len() >= 3 && 'A' <= chars[0] && chars[0] <= 'Z' && chars[1] == ':' && (chars[2]
            == '\\' || chars[2] == '/') {
            Ok(WindowsPath(string_of(chars.as_slice())))
        } else {
            let mut out: Vec<char> = Vec::new();
            append_str(&mut out, "'");
            append_str(&mut out, input);
            append_str(&mut out, "' is not a Windows absolute path");
            Err(string_of(out.as_slice()))
        }
    }

    /// The path.
    pub fn as_path(&self) -> (r: &str)
        ensures
            r@ == self@,
    {
        self.0.as_str()
    }
}

} // verus!
