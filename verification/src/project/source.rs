//! Which of a list of files are indexed: those whose extension a parser
//! supports.

use vstd::prelude::*;
use crate::indexer::IndexingConfig;
use crate::parsing::processor::extension_or_empty;
use crate::paths::extension;
use crate::project::file_info::FileInfo;
use crate::seq_util::{filter_map, lemma_filter_map_step};
use crate::text_map::TextSet;

verus! {

/// Where the files to index come from: each source lists them for a
/// configuration, or fails with its own error.
pub trait FileSource {
    type Error;

    fn get_files(&self, config: &IndexingConfig) -> Result<Vec<FileInfo>, Self::Error>;
}

/// Files given as a list, filtered by extension.
pub struct PathFileSource {
    pub files: Vec<FileInfo>,
    pub supported_extensions: TextSet,
}

/// The file itself when its extension is supported.
pub open spec fn supported_file(f: FileInfo, supported: Set<Seq<char>>) -> Option<Seq<char>> {
    if supported.contains(extension_or_empty(f.path@)) {
        Some(f.path@)
    } else {
        None
    }
}

/// Whether the extension of `file_info` is among `supported_extensions`.
pub fn should_process_file_info(file_info: &FileInfo, supported_extensions: &TextSet) -> (b: bool)
    ensures
        b == supported_extensions@.contains(extension_or_empty(file_info.path@)),
{
    let ext = match extension(file_info.path.as_str()) {
        Some(e) => e,
        None => String::new(),
    };
    supported_extensions.contains(ext.as_str())
}

impl PathFileSource {
    pub fn new(files: Vec<FileInfo>, supported_extensions: TextSet) -> (s: Self)
        ensures
            s.files@ == files@,
            s.supported_extensions@ == supported_extensions@,
    {
        PathFileSource { files, supported_extensions }
    }
}

impl FileSource for PathFileSource {
    type Error = &'static str;

    /// The files whose extension is supported, in order.
    fn get_files(&self, _config: &IndexingConfig) -> (r: Result<Vec<FileInfo>, &'static str>)
        ensures
            r matches Ok(v) && v@.map_values(|f: FileInfo| f.path@)
                == filter_map(self.files@, |f: FileInfo| supported_file(f, self.supported_extensions@)),
    {
        let mut out: Vec<FileInfo> = Vec::new();
        let mut i: usize = 0;
        while i < self.files.len()
            invariant
                i <= self.files@.len(),
                out@.map_values(|f: FileInfo| f.path@)
                    == filter_map(self.files@.take(i as int), |f: FileInfo| supported_file(f, self.supported_extensions@)),
            decreases self.files@.len() - i,
        {
            proof {
                lemma_filter_map_step(self.files@, |f: FileInfo| supported_file(f, self.supported_extensions@), i as int);
            }
            if should_process_file_info(&self.files[i], &self.supported_extensions) {
                let f = FileInfo { path: self.files[i].path.clone() };
                let ghost before = out@;
                out.push(f);
                proof {
                    assert(out@.map_values(|f: FileInfo| f.path@) =~= before.map_values(|f: FileInfo| f.path@).push(f.path@));
                }
            }
            i = i + 1;
        }
        assert(self.files@.take(self.files@.len() as int) =~= self.files@);
        Ok(out)
    }
}

} // verus!
