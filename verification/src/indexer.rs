//! The decisions of indexing a repository: how many workers parse the
//! files, which path a file is read from, which files are too large, how
//! the outcomes of the workers are collected, and how failures are
//! reported.

use vstd::prelude::*;
use crate::parsing::processor::{
    ErroredFile, FileProcessingResult, ProcessingResult, ProcessingStage, SkippedFile,
};
use crate::paths::{join_path, joined_path};
use crate::text::{decimal_text, push_u64};

verus! {

/// The number of workers when the configuration leaves it open and the
/// machine has no fewer cores.
pub const DEFAULT_WORKER_THREADS: usize = 8;

/// The least capacity of the queue of files to parse.
pub const WORK_QUEUE_CAPACITY: usize = 10000;

/// Settings of an indexing run.
#[derive(Debug, Clone, Copy)]
pub struct IndexingConfig {
    /// Worker threads to parse with; 0 chooses by the machine and the files
    pub worker_threads: usize,
    /// Files larger than this many bytes are skipped
    pub max_file_size: usize,
    pub respect_gitignore: bool,
}

impl Default for IndexingConfig {
    fn default() -> (c: Self)
        ensures
            c.worker_threads == 0,
            c.max_file_size == 5_000_000,
            c.respect_gitignore,
    {
        IndexingConfig { worker_threads: 0, max_file_size: 5_000_000, respect_gitignore: true }
    }
}

/// The number of workers: as configured, or, when the configuration says
/// 0, one per file when there are fewer files than cores, else the larger
/// of the core count and the default.
pub open spec fn worker_count_for(configured: usize, files: nat, cores: nat) -> nat {
    if configured != 0 {
        configured as nat
    } else if files < cores && files > 0 {
        files
    } else if cores >= DEFAULT_WORKER_THREADS {
        cores
    } else {
        DEFAULT_WORKER_THREADS as nat
    }
}

/// The number of workers for `files` files on a machine with `cores` cores.
pub fn worker_count(config: &IndexingConfig, files: usize, cores: usize) -> (n: usize)
    ensures
        n == worker_count_for(config.worker_threads, files as nat, cores as nat),
{
    if config.worker_threads == 0 {
        if files < cores && files > 0 {
            files
        } else if cores >= DEFAULT_WORKER_THREADS {
            cores
        } else {
            DEFAULT_WORKER_THREADS
        }
    } else {
        config.worker_threads
    }
}

/// The number of logical cores, from `num_cpus::get`, which its
/// documentation says is always at least 1; the number itself depends on
/// the machine and is not stated.
#[verifier::external_body]
pub(crate) fn cpu_count() -> (n: usize)
    ensures
        n >= 1,
{
    num_cpus::get()
}

/// The number of workers for `files` files on this machine: `worker_count`
/// with the machine's core count, whatever that is.
pub fn parse_worker_count(config: &IndexingConfig, files: usize) -> (n: usize)
    ensures
        exists|cores: nat| cores >= 1 && n == worker_count_for(config.worker_threads, files as nat, cores),
        config.worker_threads != 0 ==> n == config.worker_threads,
        config.worker_threads == 0 ==> n >= 1,
{
    let cores = cpu_count();
    let n = worker_count(config, files, cores);
    assert(cores as nat >= 1 && n == worker_count_for(config.worker_threads, files as nat, cores as nat));
    n
}

/// The capacity of the queue of files: at least the default, and room for
/// every file.
pub fn work_queue_capacity(total_files: usize) -> (c: usize)
    ensures
        c == (if total_files > WORK_QUEUE_CAPACITY { total_files } else { WORK_QUEUE_CAPACITY }),
{
    if total_files > WORK_QUEUE_CAPACITY {
        total_files
    } else {
        WORK_QUEUE_CAPACITY
    }
}

/// The path a file is read from: its path when that already starts with
/// the repository path, else the path joined onto the repository path.
pub open spec fn full_path_text(file_path: Seq<char>, repo_path: Seq<char>) -> Seq<char> {
    if repo_path.len() <= file_path.len() && file_path.subrange(0, repo_path.len() as int) == repo_path {
        file_path
    } else {
        joined_path(repo_path, file_path)
    }
}

/// The path the file `file_path` of the repository at `repo_path` is read from.
pub fn full_path(file_path: &str, repo_path: &str) -> (p: String)
    ensures
        p@ == full_path_text(file_path@, repo_path@),
{
    let f = crate::text::chars_of(file_path);
    let r = crate::text::chars_of(repo_path);
    if r.len() <= f.len() {
        let mut same = true;
        let mut k: usize = 0;
        while k < r.len()
            invariant
                f@ == file_path@,
                r@ == repo_path@,
                r@.len() <= f@.len(),
                k <= r@.len(),
                same <==> forall|j: int| 0 <= j < k ==> f@[j] == r@[j],
            decreases r@.len() - k,
        {
            if f[k] != r[k] {
                same = false;
            }
            k = k + 1;
        }
        if same {
            assert(file_path@.subrange(0, repo_path@.len() as int) =~= repo_path@);
            return String::from_str(file_path);
        } else {
            proof {
                let j = choose|j: int| 0 <= j < r@.len() && f@[j] != r@[j];
                assert(file_path@.subrange(0, repo_path@.len() as int)[j] != repo_path@[j]);
            }
        }
    }
    join_path(repo_path, file_path)
}

/// Why a file is skipped when it is larger than allowed.
pub open spec fn too_large_text(size: u64) -> Seq<char> {
    "File too large: "@ + decimal_text(size as nat) + " bytes"@
}

/// The reason to skip a file of `size` bytes, when it exceeds the limit
/// (the size taken as a `usize`, as the check takes it).
pub fn oversize_reason(size: u64, max_file_size: usize) -> (r: Option<String>)
    ensures
        match r {
            Some(m) => (size as usize) > max_file_size && m@ == too_large_text(size),
            None => !((size as usize) > max_file_size),
        },
{
    if (size as usize) > max_file_size {
        let mut m = String::from_str("File too large: ");
        push_u64(&mut m, size);
        m.append(" bytes");
        Some(m)
    } else {
        None
    }
}

/// Why a file did not yield a processing result: skipped, or failed, with
/// its path and the reason.
#[derive(Debug, Clone)]
pub enum ProcessingError {
    Skipped(String, String),
    Error(String, String),
}

/// The outcome of processing a file as a result: the processing result,
/// or the path and reason of a skip or a failure.
pub fn processing_outcome(result: ProcessingResult) -> (r: Result<FileProcessingResult, ProcessingError>)
    ensures
        match result {
            ProcessingResult::Success(f) => r == Ok::<FileProcessingResult, ProcessingError>(f),
            ProcessingResult::Skipped(s) => r matches Err(ProcessingError::Skipped(p, m))
                && p@ == s.file_path@ && m@ == s.reason@,
            ProcessingResult::Error(e) => r matches Err(ProcessingError::Error(p, m))
                && p@ == e.file_path@ && m@ == e.error_message@,
        },
{
    match result {
        ProcessingResult::Success(file_result) => Ok(file_result),
        ProcessingResult::Skipped(skipped) => Err(ProcessingError::Skipped(skipped.file_path, skipped.reason)),
        ProcessingResult::Error(errored) => Err(ProcessingError::Error(errored.file_path, errored.error_message)),
    }
}

/// What a worker reports about one file.
pub enum ResultMessage {
    Success(FileProcessingResult),
    Skipped(String, String),
    Error(String, String),
}

/// The message a worker sends for the outcome of one file.
pub fn result_message(outcome: Result<FileProcessingResult, ProcessingError>) -> (m: ResultMessage)
    ensures
        match outcome {
            Ok(f) => m == ResultMessage::Success(f),
            Err(ProcessingError::Skipped(p, r)) => m == ResultMessage::Skipped(p, r),
            Err(ProcessingError::Error(p, r)) => m == ResultMessage::Error(p, r),
        },
{
    match outcome {
        Ok(file_result) => ResultMessage::Success(file_result),
        Err(ProcessingError::Skipped(file_path, reason)) => ResultMessage::Skipped(file_path, reason),
        Err(ProcessingError::Error(file_path, error_msg)) => ResultMessage::Error(file_path, error_msg),
    }
}

/// A skipped file by value: path, reason and size.
pub open spec fn skipped_view(s: SkippedFile) -> (Seq<char>, Seq<char>, Option<u64>) {
    (s.file_path@, s.reason@, s.file_size)
}

/// A failed file by value: path, message and stage.
pub open spec fn errored_view(e: ErroredFile) -> (Seq<char>, Seq<char>, ProcessingStage) {
    (e.file_path@, e.error_message@, e.error_stage)
}

/// The outcomes collected from the workers so far.
pub struct ParseCollection {
    pub file_results: Vec<FileProcessingResult>,
    pub skipped_files: Vec<SkippedFile>,
    pub errored_files: Vec<ErroredFile>,
    pub errors: Vec<(String, String)>,
    pub messages_received: usize,
    pub processed_files: usize,
    pub total_files: usize,
}

impl ParseCollection {
    /// Every message received is counted once: as a result, a skip or a
    /// failure.
    pub open spec fn balanced(&self) -> bool {
        self.file_results@.len() + self.skipped_files@.len() + self.errored_files@.len() == self.messages_received
    }

    /// The failure at `i` of the list of errors is the failed file at `i`:
    /// the same path and message, at an unknown stage.
    pub open spec fn paired_at(&self, i: int) -> bool {
        &&& self.errors@[i].0@ == self.errored_files@[i].file_path@
        &&& self.errors@[i].1@ == self.errored_files@[i].error_message@
        &&& self.errored_files@[i].error_stage == ProcessingStage::Unknown
    }

    /// The collection is balanced and holds no more messages than files;
    /// the processed count is the number of results; the list of errors
    /// pairs with the failed files one for one; no skipped file has a size.
    pub open spec fn wf(&self) -> bool {
        &&& self.balanced()
        &&& self.messages_received <= self.total_files
        &&& self.processed_files == self.file_results@.len()
        &&& self.errors@.len() == self.errored_files@.len()
        &&& forall|i: int| 0 <= i < self.errors@.len() ==> #[trigger] self.paired_at(i)
        &&& forall|j: int| 0 <= j < self.skipped_files@.len() ==> (#[trigger] self.skipped_files@[j]).file_size is None
    }

    /// Nothing collected yet, out of `total_files` files.
    pub fn new(total_files: usize) -> (c: Self)
        ensures
            c.wf(),
            c.file_results@.len() == 0,
            c.skipped_files@.len() == 0,
            c.errored_files@.len() == 0,
            c.errors@.len() == 0,
            c.messages_received == 0,
            c.processed_files == 0,
            c.total_files == total_files,
    {
        ParseCollection {
            file_results: Vec::new(),
            skipped_files: Vec::new(),
            errored_files: Vec::new(),
            errors: Vec::new(),
            messages_received: 0,
            processed_files: 0,
            total_files,
        }
    }

    /// Files the outcome one worker reports and says whether every file
    /// has now been reported: a result is kept, a skip is recorded with no
    /// size, and a failure is recorded at an unknown stage and in the list
    /// of errors.
    pub fn receive(&mut self, msg: ResultMessage) -> (finished: bool)
        requires
            old(self).wf(),
            old(self).messages_received < old(self).total_files,
        ensures
            final(self).wf(),
            final(self).messages_received == old(self).messages_received + 1,
            final(self).total_files == old(self).total_files,
            finished == (final(self).messages_received >= final(self).total_files),
            match msg {
                ResultMessage::Success(f) => {
                    &&& final(self).file_results@ == old(self).file_results@.push(f)
                    &&& final(self).processed_files == old(self).processed_files + 1
                    &&& final(self).skipped_files@ == old(self).skipped_files@
                    &&& final(self).errored_files@ == old(self).errored_files@
                    &&& final(self).errors@ == old(self).errors@
                },
                ResultMessage::Skipped(p, r) => {
                    &&& final(self).file_results@ == old(self).file_results@
                    &&& final(self).processed_files == old(self).processed_files
                    &&& final(self).skipped_files@.map_values(|s: SkippedFile| skipped_view(s))
                        == old(self).skipped_files@.map_values(|s: SkippedFile| skipped_view(s)).push((p@, r@, None))
                    &&& final(self).errored_files@ == old(self).errored_files@
                    &&& final(self).errors@ == old(self).errors@
                },
                ResultMessage::Error(p, m) => {
                    &&& final(self).file_results@ == old(self).file_results@
                    &&& final(self).processed_files == old(self).processed_files
                    &&& final(self).skipped_files@ == old(self).skipped_files@
                    &&& final(self).errored_files@.map_values(|e: ErroredFile| errored_view(e))
                        == old(self).errored_files@.map_values(|e: ErroredFile| errored_view(e)).push(
                        (p@, m@, ProcessingStage::Unknown),
                    )
                    &&& final(self).errors@.len() == old(self).errors@.len() + 1
                    &&& final(self).errors@.last().0@ == p@
                    &&& final(self).errors@.last().1@ == m@
                    &&& final(self).errors@.drop_last() == old(self).errors@
                },
            },
    {
        let ghost old_self = *self;
        self.messages_received = self.messages_received + 1;
        match msg {
            ResultMessage::Success(file_result) => {
                self.processed_files = self.processed_files + 1;
                self.file_results.push(file_result);
                proof {
                    assert forall|i: int| 0 <= i < self.errors@.len() implies #[trigger] self.paired_at(i) by {
                        assert(old_self.paired_at(i));
                    }
                }
            },
            ResultMessage::Skipped(file_path, reason) => {
                let ghost before = self.skipped_files@;
                let s = SkippedFile { file_path: file_path.clone(), reason: reason.clone(), file_size: None };
                self.skipped_files.push(s);
                proof {
                    assert(self.skipped_files@.map_values(|s: SkippedFile| skipped_view(s))
                        =~= before.map_values(|s: SkippedFile| skipped_view(s)).push(skipped_view(s)));
                    assert(self.skipped_files@.len() == before.len() + 1);
                    assert forall|j: int| 0 <= j < self.skipped_files@.len() implies (#[trigger] self.skipped_files@[j]).file_size is None by {
                        if j < before.len() {
                            assert(self.skipped_files@[j] == before[j]);
                        }
                    }
                    assert forall|i: int| 0 <= i < self.errors@.len() implies #[trigger] self.paired_at(i) by {
                        assert(old_self.paired_at(i));
                    }
                }
            },
            ResultMessage::Error(file_path, error_msg) => {
                let ghost before = self.errored_files@;
                let e = ErroredFile {
                    file_path: file_path.clone(),
                    error_message: error_msg.clone(),
                    error_stage: ProcessingStage::Unknown,
                };
                self.errored_files.push(e);
                proof {
                    assert(self.errored_files@.map_values(|e: ErroredFile| errored_view(e))
                        =~= before.map_values(|e: ErroredFile| errored_view(e)).push(errored_view(e)));
                    assert(self.errored_files@.len() == before.len() + 1);
                }
                let ghost errs = self.errors@;
                self.errors.push((file_path, error_msg));
                assert(self.errors@.drop_last() =~= errs);
                proof {
                    assert forall|i: int| 0 <= i < self.errors@.len() implies #[trigger] self.paired_at(i) by {
                        if i < errs.len() {
                            assert(old_self.paired_at(i));
                            assert(self.errors@[i] == errs[i]);
                            assert(self.errored_files@[i] == before[i]);
                        }
                    }
                }
            },
        }
        self.messages_received >= self.total_files
    }

    /// The four lists collected: results, skipped files, failed files and
    /// the list of errors. Once every file is reported they hold one entry
    /// per file, the errors pairing with the failed files.
    pub fn into_lists(self) -> (r: (Vec<FileProcessingResult>, Vec<SkippedFile>, Vec<ErroredFile>, Vec<(String, String)>))
        requires
            self.wf(),
        ensures
            r.0@ == self.file_results@,
            r.1@ == self.skipped_files@,
            r.2@ == self.errored_files@,
            r.3@ == self.errors@,
            r.0@.len() + r.1@.len() + r.2@.len() == self.messages_received,
            self.messages_received == self.total_files ==> r.0@.len() + r.1@.len() + r.2@.len() == self.total_files,
            r.3@.len() == r.2@.len(),
            forall|i: int| 0 <= i < r.3@.len() ==> {
                &&& r.3@[i].0@ == (#[trigger] r.2@[i]).file_path@
                &&& r.3@[i].1@ == r.2@[i].error_message@
                &&& r.2@[i].error_stage == ProcessingStage::Unknown
            },
            forall|j: int| 0 <= j < r.1@.len() ==> (#[trigger] r.1@[j]).file_size is None,
    {
        proof {
            assert forall|i: int| 0 <= i < self.errors@.len() implies {
                &&& self.errors@[i].0@ == (#[trigger] self.errored_files@[i]).file_path@
                &&& self.errors@[i].1@ == self.errored_files@[i].error_message@
                &&& self.errored_files@[i].error_stage == ProcessingStage::Unknown
            } by {
                assert(self.paired_at(i));
            }
        }
        (self.file_results, self.skipped_files, self.errored_files, self.errors)
    }

    /// After a wait with no outcome: whether to stop collecting, which is
    /// when no worker is still running.
    pub fn stop_after_timeout(&self, active_workers: usize) -> (stop: bool)
        ensures
            stop == (active_workers == 0),
    {
        active_workers == 0
    }
}

/// Why analyzing or writing the graph failed.
#[derive(Debug, Clone)]
pub enum AnalyzeAndWriteErrors {
    FailedToLoadDatabase(String),
    FailedToAnalyze(String),
    FailedToWrite(String),
}

/// Why indexing a repository failed.
#[derive(Debug, Clone)]
pub enum FatalIndexingError {
    FailedToGetFiles(String),
    FailedToProcessFiles(String),
    FailedToAnalyze(AnalyzeAndWriteErrors),
    FailedToWrite(AnalyzeAndWriteErrors),
    FailedToLoadDatabase(AnalyzeAndWriteErrors),
    FailedToSyncChanges(String),
}

/// How `{:?}` writes a string: quoted, with quotes, backslashes and
/// special characters escaped.
pub uninterp spec fn debug_str_text(s: Seq<char>) -> Seq<char>;

/// Writes `s` as `{:?}` does (`str`'s `Debug`); the text is named
/// `debug_str_text` of `s` and is otherwise left unstated.
#[verifier::external_body]
fn debug_str(s: &str) -> (r: String)
    ensures
        r@ == debug_str_text(s@),
{
    format!("{:?}", s)
}

/// How `{:?}` writes an analysis or write error: the variant's name and
/// its message in parentheses.
pub open spec fn analyze_error_text(e: AnalyzeAndWriteErrors) -> Seq<char> {
    match e {
        AnalyzeAndWriteErrors::FailedToLoadDatabase(m) => "FailedToLoadDatabase("@ + debug_str_text(m@) + ")"@,
        AnalyzeAndWriteErrors::FailedToAnalyze(m) => "FailedToAnalyze("@ + debug_str_text(m@) + ")"@,
        AnalyzeAndWriteErrors::FailedToWrite(m) => "FailedToWrite("@ + debug_str_text(m@) + ")"@,
    }
}

/// The report of an indexing failure.
pub open spec fn fatal_error_text(e: FatalIndexingError) -> Seq<char> {
    match e {
        FatalIndexingError::FailedToGetFiles(m) => "Failed to get files: "@ + m@,
        FatalIndexingError::FailedToProcessFiles(m) => "Failed to process files: "@ + m@,
        FatalIndexingError::FailedToAnalyze(err) => "Failed to analyze: "@ + analyze_error_text(err),
        FatalIndexingError::FailedToWrite(err) => "Failed to write: "@ + analyze_error_text(err),
        FatalIndexingError::FailedToLoadDatabase(err) => "Failed to load database: "@ + analyze_error_text(err),
        FatalIndexingError::FailedToSyncChanges(m) => "Failed to sync changes: "@ + m@,
    }
}

impl AnalyzeAndWriteErrors {
    /// The error as `{:?}` writes it.
    pub fn debug_text(&self) -> (s: String)
        ensures
            s@ == analyze_error_text(*self),
    {
        let (name, m) = match self {
            AnalyzeAndWriteErrors::FailedToLoadDatabase(m) => ("FailedToLoadDatabase(", m),
            AnalyzeAndWriteErrors::FailedToAnalyze(m) => ("FailedToAnalyze(", m),
            AnalyzeAndWriteErrors::FailedToWrite(m) => ("FailedToWrite(", m),
        };
        let mut s = String::from_str(name);
        let q = debug_str(m.as_str());
        s.append(q.as_str());
        s.append(")");
        s
    }
}

impl FatalIndexingError {
    /// The report of the failure.
    pub fn to_string(&self) -> (s: String)
        ensures
            s@ == fatal_error_text(*self),
    {
        match self {
            FatalIndexingError::FailedToGetFiles(m) => {
                let mut s = String::from_str("Failed to get files: ");
                s.append(m.as_str());
                s
            },
            FatalIndexingError::FailedToProcessFiles(m) => {
                let mut s = String::from_str("Failed to process files: ");
                s.append(m.as_str());
                s
            },
            FatalIndexingError::FailedToAnalyze(err) => {
                let mut s = String::from_str("Failed to analyze: ");
                let d = err.debug_text();
                s.append(d.as_str());
                s
            },
            FatalIndexingError::FailedToWrite(err) => {
                let mut s = String::from_str("Failed to write: ");
                let d = err.debug_text();
                s.append(d.as_str());
                s
            },
            FatalIndexingError::FailedToLoadDatabase(err) => {
                let mut s = String::from_str("Failed to load database: ");
                let d = err.debug_text();
                s.append(d.as_str());
                s
            },
            FatalIndexingError::FailedToSyncChanges(m) => {
                let mut s = String::from_str("Failed to sync changes: ");
                s.append(m.as_str());
                s
            },
        }
    }
}

/// A repository to index, by name and path.
pub struct RepositoryIndexer {
    pub name: String,
    pub path: String,
}

impl RepositoryIndexer {
    pub fn new(name: String, path: String) -> (r: Self)
        ensures
            r.name@ == name@,
            r.path@ == path@,
    {
        RepositoryIndexer { name, path }
    }

    pub fn with_name(name: String, path: String) -> (r: Self)
        ensures
            r.name@ == name@,
            r.path@ == path@,
    {
        RepositoryIndexer { name, path }
    }

    pub fn path(&self) -> (p: &str)
        ensures
            p@ == self.path@,
    {
        self.path.as_str()
    }

    /// The message for a database that could not be created.
    pub fn database_creation_failure(database_path: &str) -> (e: FatalIndexingError)
        ensures
            e matches FatalIndexingError::FailedToLoadDatabase(AnalyzeAndWriteErrors::FailedToLoadDatabase(m))
                && m@ == "Failed to create database: "@ + database_path@ + "."@,
    {
        let mut m = String::from_str("Failed to create database: ");
        m.append(database_path);
        m.append(".");
        FatalIndexingError::FailedToLoadDatabase(AnalyzeAndWriteErrors::FailedToLoadDatabase(m))
    }
}

} // verus!
