use vstd::prelude::*;

verus! {

/// What a look at one file name directly inside a directory found.
pub enum FileProbe {
    /// No regular file of that name.
    Missing,
    /// A regular file whose text could not be read.
    Unreadable,
    /// A regular file and its text.
    Text(String),
}

impl FileProbe {
    /// Whether a regular file of that name exists.
    pub open spec fn present(&self) -> bool {
        !(self is Missing)
    }

    /// Whether the file exists and its text is exactly `t`.
    pub open spec fn holds(&self, t: Seq<char>) -> bool {
        match self {
            FileProbe::Text(s) => s@ == t,
            _ => false,
        }
    }

    pub fn is_present(&self) -> (r: bool)
        ensures
            r == self.present(),
    {
        match self {
            FileProbe::Missing => false,
            _ => true,
        }
    }

    pub fn has_text(&self, t: &String) -> (r: bool)
        ensures
            r == self.holds(t@),
    {
        match self {
            FileProbe::Text(s) => *s == *t,
            _ => false,
        }
    }
}

/// Relies on `std::path::Path::is_dir`: whether the path exists and leads, through any
/// symbolic links, to a directory. What it answers depends on the disk, so nothing is
/// stated of it.
#[verifier::external_body]
fn path_is_dir(path: &str) -> bool {
    std::path::Path::new(path).is_dir()
}

/// Whether `path` exists and is a directory; `false` for a missing path or any other kind
/// of entry, never an error.
pub fn is_directory(path: &str) -> bool {
    path_is_dir(path)
}

} // verus!
