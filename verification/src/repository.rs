//! Settings of indexing a repository discovered through git.

use vstd::prelude::*;
use crate::count_table::count_of;
use crate::indexer::{cpu_count, ResultMessage};
use crate::parsing::processor::{extension_or_empty, FileProcessingResult};
use crate::paths::extension;
use crate::project::file_info::FileInfo;
use crate::seq_util::{filter_map, lemma_filter_map_step};
use crate::analysis::types::GraphData;
use crate::writer::{ElapsedTime, WriterResult};
use crate::stats::{counted_errored, counted_processed, counted_skipped, recorded_extension, IndexingStats};

verus! {

/// Settings of indexing a repository.
#[derive(Debug, Clone)]
pub struct IndexingConfig {
    /// Worker threads to use; 0 chooses by the machine
    pub worker_threads: usize,
    /// The file extensions to process
    pub file_extensions: Vec<String>,
    /// Files larger than this many bytes are skipped
    pub max_file_size: usize,
    /// Whether files that git ignores are skipped
    pub respect_gitignore: bool,
}

impl Default for IndexingConfig {
    fn default() -> (c: Self)
        ensures
            c.worker_threads == 0,
            c.file_extensions@.map_values(|s: String| s@) == seq!["rb"@, "py"@, "js"@, "ts"@],
            c.max_file_size == 5_000_000,
            c.respect_gitignore,
    {
        let c = IndexingConfig {
            worker_threads: 0,
            file_extensions: vec![
                String::from_str("rb"),
                String::from_str("py"),
                String::from_str("js"),
                String::from_str("ts"),
            ],
            max_file_size: 5_000_000,
            respect_gitignore: true,
        };
        assert(c.file_extensions@.map_values(|s: String| s@) =~= seq!["rb"@, "py"@, "js"@, "ts"@]);
        c
    }
}

/// Whether the configuration processes files with the extension
/// `extension`: it is one of the configured extensions.
pub open spec fn configured_extension(config: IndexingConfig, extension: Seq<char>) -> bool {
    exists|i: int| 0 <= i < config.file_extensions@.len() && (#[trigger] config.file_extensions@[i])@ == extension
}

/// Whether the configuration processes files with the extension
/// `extension`.
pub fn processes_extension(config: &IndexingConfig, extension: &str) -> (b: bool)
    ensures
        b == configured_extension(*config, extension@),
{
    let mut i: usize = 0;
    while i < config.file_extensions.len()
        invariant
            i <= config.file_extensions@.len(),
            forall|k: int| 0 <= k < i ==> (#[trigger] config.file_extensions@[k])@ != extension@,
        decreases config.file_extensions@.len() - i,
    {
        if crate::text::str_eq(config.file_extensions[i].as_str(), extension) {
            return true;
        }
        i = i + 1;
    }
    false
}

/// A file discovery keeps, when its extension (empty when it has none) is
/// configured.
pub open spec fn kept_file(config: IndexingConfig, f: FileInfo) -> Option<FileInfo> {
    if configured_extension(config, extension_or_empty(f.path@)) { Some(f) } else { None }
}

/// The files of a repository that indexing processes: those whose
/// extension is configured, in the order found.
pub fn discovered_files(files: &Vec<FileInfo>, config: &IndexingConfig) -> (kept: Vec<FileInfo>)
    ensures
        kept@ == filter_map(files@, |f: FileInfo| kept_file(*config, f)),
{
    let mut kept: Vec<FileInfo> = Vec::new();
    let mut i: usize = 0;
    while i < files.len()
        invariant
            i <= files@.len(),
            kept@ == filter_map(files@.take(i as int), |f: FileInfo| kept_file(*config, f)),
        decreases files@.len() - i,
    {
        proof {
            lemma_filter_map_step(files@, |f: FileInfo| kept_file(*config, f), i as int);
        }
        let ext = match extension(files[i].path.as_str()) {
            Some(e) => e,
            None => String::new(),
        };
        if processes_extension(config, ext.as_str()) {
            kept.push(FileInfo { path: files[i].path.clone() });
        }
        i = i + 1;
    }
    assert(files@.take(files@.len() as int) =~= files@);
    kept
}

/// The default number of workers of a repository.
pub const DEFAULT_WORKER_THREADS: usize = 8;

/// The number of workers of a repository: as configured, or, when the
/// configuration says 0, the core count capped at the default.
pub open spec fn repository_workers(configured: usize, cores: nat) -> nat {
    if configured == 0 {
        if cores < DEFAULT_WORKER_THREADS { cores } else { DEFAULT_WORKER_THREADS as nat }
    } else {
        configured as nat
    }
}

/// The number of workers of a repository on a machine with `cores` cores.
pub fn repository_worker_count(config: &IndexingConfig, cores: usize) -> (n: usize)
    ensures
        n == repository_workers(config.worker_threads, cores as nat),
{
    if config.worker_threads == 0 {
        if cores < DEFAULT_WORKER_THREADS { cores } else { DEFAULT_WORKER_THREADS }
    } else {
        config.worker_threads
    }
}

/// The number of workers of a repository on this machine, whatever its
/// core count (at least one) is.
pub fn repository_parse_workers(config: &IndexingConfig) -> (n: usize)
    ensures
        exists|cores: nat| cores >= 1 && n == repository_workers(config.worker_threads, cores),
        config.worker_threads != 0 ==> n == config.worker_threads,
        config.worker_threads == 0 ==> 1 <= n <= DEFAULT_WORKER_THREADS,
{
    let cores = cpu_count();
    let n = repository_worker_count(config, cores);
    assert(cores as nat >= 1 && n == repository_workers(config.worker_threads, cores as nat));
    n
}

/// What the collection of a repository's parse results holds: the results,
/// the failures, the count of each outcome, and the statistics by
/// extension.
pub struct RepositoryCollection {
    pub file_results: Vec<FileProcessingResult>,
    pub errors: Vec<(String, String)>,
    pub total_files_processed: usize,
    pub total_files_skipped: usize,
    pub total_files_errored: usize,
    pub messages_received: usize,
    pub total_files: usize,
    pub stats: IndexingStats,
}

impl RepositoryCollection {
    /// The outcome counts add up to the messages received, which do not
    /// outnumber the files; one result is kept per processed file and one
    /// failure listed per errored file; the count of every extension stays
    /// within the messages received.
    pub open spec fn wf(&self) -> bool {
        &&& self.stats.wf()
        &&& self.total_files_processed + self.total_files_skipped + self.total_files_errored == self.messages_received
        &&& self.messages_received <= self.total_files
        &&& self.file_results@.len() == self.total_files_processed
        &&& self.errors@.len() == self.total_files_errored
        &&& forall|e: Seq<char>| #[trigger] count_of(self.stats@.file_types_processed, e) <= self.messages_received
        &&& forall|e: Seq<char>| #[trigger] count_of(self.stats@.file_types_skipped, e) <= self.messages_received
        &&& forall|e: Seq<char>| #[trigger] count_of(self.stats@.file_types_errored, e) <= self.messages_received
    }

    /// Nothing collected yet, out of `total_files` files.
    pub fn new(total_files: usize) -> (c: Self)
        ensures
            c.wf(),
            c.file_results@.len() == 0,
            c.errors@.len() == 0,
            c.messages_received == 0,
            c.total_files == total_files,
            c.stats@ == IndexingStats::new_view(),
    {
        RepositoryCollection {
            file_results: Vec::new(),
            errors: Vec::new(),
            total_files_processed: 0,
            total_files_skipped: 0,
            total_files_errored: 0,
            messages_received: 0,
            total_files,
            stats: IndexingStats::new(),
        }
    }

    /// Records the outcome one worker reports, counts it in the
    /// statistics under the extension of its file, and says whether every
    /// file has now been reported: a result is kept, a failure is listed,
    /// a skip is only counted.
    pub fn receive(&mut self, msg: ResultMessage) -> (finished: bool)
        requires
            old(self).wf(),
            old(self).messages_received < old(self).total_files,
        ensures
            final(self).wf(),
            final(self).messages_received == old(self).messages_received + 1,
            final(self).total_files == old(self).total_files,
            finished == (final(self).messages_received >= final(self).total_files),
            match msg {
                ResultMessage::Success(f) => {
                    &&& final(self).file_results@ == old(self).file_results@.push(f)
                    &&& final(self).errors@ == old(self).errors@
                    &&& final(self).total_files_processed == old(self).total_files_processed + 1
                    &&& final(self).total_files_skipped == old(self).total_files_skipped
                    &&& final(self).total_files_errored == old(self).total_files_errored
                    &&& final(self).stats@ == counted_processed(old(self).stats@, Some(recorded_extension(f.file_path@)))
                },
                ResultMessage::Skipped(p, _r) => {
                    &&& final(self).file_results@ == old(self).file_results@
                    &&& final(self).errors@ == old(self).errors@
                    &&& final(self).total_files_processed == old(self).total_files_processed
                    &&& final(self).total_files_skipped == old(self).total_files_skipped + 1
                    &&& final(self).total_files_errored == old(self).total_files_errored
                    &&& final(self).stats@ == counted_skipped(old(self).stats@, Some(recorded_extension(p@)))
                },
                ResultMessage::Error(p, m) => {
                    &&& final(self).file_results@ == old(self).file_results@
                    &&& final(self).errors@.len() == old(self).errors@.len() + 1
                    &&& final(self).errors@.drop_last() == old(self).errors@
                    &&& final(self).errors@.last().0@ == p@
                    &&& final(self).errors@.last().1@ == m@
                    &&& final(self).total_files_processed == old(self).total_files_processed
                    &&& final(self).total_files_skipped == old(self).total_files_skipped
                    &&& final(self).total_files_errored == old(self).total_files_errored + 1
                    &&& final(self).stats@ == counted_errored(old(self).stats@, Some(recorded_extension(p@)))
                },
            },
    {
        let ghost before = self.stats@;
        let ghost received = self.messages_received;
        match msg {
            ResultMessage::Success(file_result) => {
                let ext = IndexingStats::extract_extension(file_result.file_path.as_str());
                assert(count_of(self.stats@.file_types_processed, ext@) <= received);
                self.stats.increment_file_type_processed(ext.as_str());
                self.total_files_processed = self.total_files_processed + 1;
                self.file_results.push(file_result);
            },
            ResultMessage::Skipped(file_path, _reason) => {
                let ext = IndexingStats::extract_extension(file_path.as_str());
                assert(count_of(self.stats@.file_types_skipped, ext@) <= received);
                self.stats.increment_file_type_skipped(ext.as_str());
                self.total_files_skipped = self.total_files_skipped + 1;
            },
            ResultMessage::Error(file_path, error_msg) => {
                let ext = IndexingStats::extract_extension(file_path.as_str());
                assert(count_of(self.stats@.file_types_errored, ext@) <= received);
                self.stats.increment_file_type_errored(ext.as_str());
                self.total_files_errored = self.total_files_errored + 1;
                let ghost errs = self.errors@;
                self.errors.push((file_path, error_msg));
                assert(self.errors@.drop_last() =~= errs);
            },
        }
        self.messages_received = self.messages_received + 1;
        proof {
            assert forall|e: Seq<char>| #[trigger] count_of(self.stats@.file_types_processed, e) <= self.messages_received by {
                assert(count_of(before.file_types_processed, e) <= received);
            }
            assert forall|e: Seq<char>| #[trigger] count_of(self.stats@.file_types_skipped, e) <= self.messages_received by {
                assert(count_of(before.file_types_skipped, e) <= received);
            }
            assert forall|e: Seq<char>| #[trigger] count_of(self.stats@.file_types_errored, e) <= self.messages_received by {
                assert(count_of(before.file_types_errored, e) <= received);
            }
        }
        self.messages_received >= self.total_files
    }
}

/// What indexing a repository yields: its name and path, the results and
/// failures of its files with the count of each outcome, the time it
/// took, and the graph, the files written and the database, which later
/// steps fill in.
pub struct RepositoryIndexingResult {
    pub repository_name: String,
    pub repository_path: String,
    pub file_results: Vec<FileProcessingResult>,
    pub total_files_processed: usize,
    pub total_files_skipped: usize,
    pub total_files_errored: usize,
    pub total_processing_time: ElapsedTime,
    pub errors: Vec<(String, String)>,
    pub graph_data: Option<GraphData>,
    pub writer_result: Option<WriterResult>,
    pub database_path: Option<String>,
    pub database_loaded: bool,
}

impl RepositoryIndexingResult {
    /// Whether the result is one that indexing alone yields: counted
    /// outcomes that match its lists, and no graph, no files written and
    /// no database yet.
    pub open spec fn indexed_only(&self) -> bool {
        &&& self.file_results@.len() == self.total_files_processed
        &&& self.errors@.len() == self.total_files_errored
        &&& self.graph_data is None
        &&& self.writer_result is None
        &&& self.database_path is None
        &&& !self.database_loaded
    }
}

/// The result of a repository with no file to process: nothing counted
/// and nothing listed.
pub fn empty_repository_result(name: String, path: String, elapsed: ElapsedTime) -> (r: RepositoryIndexingResult)
    ensures
        r.indexed_only(),
        r.repository_name@ == name@,
        r.repository_path@ == path@,
        r.file_results@.len() == 0,
        r.errors@.len() == 0,
        r.total_files_processed == 0,
        r.total_files_skipped == 0,
        r.total_files_errored == 0,
        r.total_processing_time == elapsed,
{
    RepositoryIndexingResult {
        repository_name: name,
        repository_path: path,
        file_results: Vec::new(),
        total_files_processed: 0,
        total_files_skipped: 0,
        total_files_errored: 0,
        total_processing_time: elapsed,
        errors: Vec::new(),
        graph_data: None,
        writer_result: None,
        database_path: None,
        database_loaded: false,
    }
}

/// The result of a repository from what was collected of its files: the
/// outcome counts add up to the messages received, which are all the
/// files once collection has finished.
pub fn repository_result(c: RepositoryCollection, name: String, path: String, elapsed: ElapsedTime) -> (r: RepositoryIndexingResult)
    requires
        c.wf(),
    ensures
        r.indexed_only(),
        r.repository_name@ == name@,
        r.repository_path@ == path@,
        r.file_results@ == c.file_results@,
        r.errors@ == c.errors@,
        r.total_files_processed == c.total_files_processed,
        r.total_files_skipped == c.total_files_skipped,
        r.total_files_errored == c.total_files_errored,
        r.total_files_processed + r.total_files_skipped + r.total_files_errored == c.messages_received,
        c.messages_received == c.total_files ==>
            r.total_files_processed + r.total_files_skipped + r.total_files_errored == c.total_files,
        r.total_processing_time == elapsed,
{
    RepositoryIndexingResult {
        repository_name: name,
        repository_path: path,
        file_results: c.file_results,
        total_files_processed: c.total_files_processed,
        total_files_skipped: c.total_files_skipped,
        total_files_errored: c.total_files_errored,
        total_processing_time: elapsed,
        errors: c.errors,
        graph_data: None,
        writer_result: None,
        database_path: None,
        database_loaded: false,
    }
}

} // verus!
