//! File extensions of paths.
//!
//! A path is a string here. What its file name, its file stem and its
//! extension are is left to `std::path`.

use vstd::prelude::*;

verus! {

/// What `std::path::Path::file_name` gives for `path`: the last component of
/// the path, if it is a file or a directory name.
pub uninterp spec fn path_file_name(path: Seq<char>) -> Option<Seq<char>>;

/// What `std::path::Path::file_stem` gives for `path`: the file name without
/// its extension.
pub uninterp spec fn path_file_stem(path: Seq<char>) -> Option<Seq<char>>;

/// What `std::path::Path::extension` gives for `path`: the part of the file
/// name after its last dot, if the path has a file name with a dot that is
/// not its first character.
pub uninterp spec fn path_extension(path: Seq<char>) -> Option<Seq<char>>;

/// What `std::path::PathBuf::set_file_name` makes of `path`: the path with
/// its file name replaced by `name`, or with `name` added where it has none.
pub uninterp spec fn path_with_file_name(path: Seq<char>, name: Seq<char>) -> Seq<char>;

/// Calls `std::path::Path::file_name` on the path. The result is a function
/// of the path.
#[verifier::external_body]
pub(crate) fn file_name_of(path: &str) -> (r: Option<String>)
    ensures
        match r {
            Some(name) => path_file_name(path@) == Some(name@),
            None => path_file_name(path@) is None,
        },
{
    std::path::Path::new(path).file_name().and_then(|n| n.to_str()).map(|n| n.to_owned())
}

/// Calls `std::path::Path::file_stem` on the path. The result is a function
/// of the path.
#[verifier::external_body]
pub(crate) fn file_stem_of(path: &str) -> (r: Option<String>)
    ensures
        match r {
            Some(stem) => path_file_stem(path@) == Some(stem@),
            None => path_file_stem(path@) is None,
        },
{
    std::path::Path::new(path).file_stem().and_then(|s| s.to_str()).map(|s| s.to_owned())
}

/// Calls `std::path::Path::extension` on the path. The result is a function
/// of the path.
#[verifier::external_body]
pub(crate) fn extension_of(path: &str) -> (r: Option<String>)
    ensures
        match r {
            Some(extension) => path_extension(path@) == Some(extension@),
            None => path_extension(path@) is None,
        },
{
    std::path::Path::new(path).extension().and_then(|e| e.to_str()).map(|e| e.to_owned())
}

/// Calls `std::path::PathBuf::set_file_name` on the path. The result is a
/// function of the path and the name.
#[verifier::external_body]
pub(crate) fn with_file_name(path: &str, name: &str) -> (r: String)
    ensures
        r@ == path_with_file_name(path@, name@),
{
    let mut buf = std::path::PathBuf::from(path);
    buf.set_file_name(name);
    buf.to_string_lossy().into_owned()
}

/// Extends the methods of a path.
pub trait PathExt {
    /// The path as text.
    spec fn path_text(&self) -> Seq<char>;

    /// The file extensions of the path, from the last to the first.
    ///
    /// File extensions are separated by a `.`. A path may have several, as
    /// `archive.tar.xz` has.
    fn extensions(&self) -> (r: PathExtensions)
        ensures
            r@ == self.path_text(),
    ;
}

impl PathExt for str {
    open spec fn path_text(&self) -> Seq<char> {
        self@
    }

    fn extensions(&self) -> (r: PathExtensions) {
        PathExtensions { rest: String::from_str(self) }
    }
}

impl PathExt for String {
    open spec fn path_text(&self) -> Seq<char> {
        self@
    }

    fn extensions(&self) -> (r: PathExtensions) {
        PathExtensions { rest: self.clone() }
    }
}

/// Extends the methods of an owned path.
pub trait PathBufExt {
    /// The path as text.
    spec fn buf_text(&self) -> Seq<char>;

    /// Appends `extension` to the file name of the path.
    ///
    /// Returns `false` and does nothing if the path has no file name. Else
    /// it returns `true`, and the file name is followed by a `.` and the
    /// extension, unless the extension is empty.
    fn add_extension(&mut self, extension: &str) -> (r: bool)
        ensures
            r == path_file_name(old(self).buf_text()) is Some,
            final(self).buf_text() == extended(old(self).buf_text(), extension@),
    ;
}

/// The path with `extension` appended to its file name.
pub open spec fn extended(path: Seq<char>, extension: Seq<char>) -> Seq<char> {
    match path_file_name(path) {
        None => path,
        Some(name) => path_with_file_name(
            path,
            if extension.len() == 0 {
                name
            } else {
                name + seq!['.'] + extension
            },
        ),
    }
}

impl PathBufExt for String {
    open spec fn buf_text(&self) -> Seq<char> {
        self@
    }

    fn add_extension(&mut self, extension: &str) -> (r: bool) {
        let mut name = match file_name_of(self.as_str()) {
            Some(name) => name,
            None => {
                return false;
            },
        };
        if !extension.is_empty() {
            proof {
                reveal_strlit(".");
            }
            name.append(".");
            name.append(extension);
            assert(name@ =~= path_file_name(old(self)@)->0 + seq!['.'] + extension@);
        }
        *self = with_file_name(self.as_str(), name.as_str());
        true
    }
}

/// The file extensions of a path that were not handed out yet.
#[derive(Clone, Debug)]
pub struct PathExtensions {
    rest: String,
}

impl View for PathExtensions {
    type V = Seq<char>;

    closed spec fn view(&self) -> Seq<char> {
        self.rest@
    }
}

/// The text of a string, if there is a string.
pub open spec fn text_of(s: Option<String>) -> Option<Seq<char>> {
    match s {
        Some(s) => Some(s@),
        None => None,
    }
}

impl PathExtensions {
    /// Hands out the last extension of the path and goes on with the file
    /// stem in place of the path. Without an extension nothing is handed out,
    /// now and from now on.
    pub fn next(&mut self) -> (r: Option<String>)
        ensures
            text_of(r) == path_extension(old(self)@),
            final(self)@ == match (path_extension(old(self)@), path_file_stem(old(self)@)) {
                (Some(_), Some(stem)) => stem,
                _ => Seq::<char>::empty(),
            },
    {
        let stem = file_stem_of(self.rest.as_str());
        let extension = extension_of(self.rest.as_str());
        if extension.is_none() {
            self.rest = String::new();
            None
        } else {
            match stem {
                Some(stem) => {
                    self.rest = stem;
                },
                None => {
                    self.rest = String::new();
                },
            }
            extension
        }
    }
}

} // verus!
