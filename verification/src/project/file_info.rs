//! A file of the repository by its path.

use vstd::prelude::*;

verus! {

/// A file of the repository, by its path.
#[derive(Debug, Clone)]
pub struct FileInfo {
    pub path: String,
}

impl FileInfo {
    pub fn from_path(path: String) -> (f: Self)
        ensures
            f.path@ == path@,
    {
        FileInfo { path }
    }
}

} // verus!
