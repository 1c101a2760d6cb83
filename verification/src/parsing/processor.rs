//! A file on its way through processing, and what processing it yields.

use vstd::prelude::*;
use crate::analysis::import_map::ParsedImport;
use crate::analysis::languages::definitions::ParsedDefinition;
use crate::analysis::languages::DefinitionRules;
use crate::paths::{extension, extension_of};
use crate::project::file_info::FileInfo;
use crate::writer::ElapsedTime;
use vstd::string::StringSliceAdditionalSpecFns;

verus! {

/// A file that was skipped.
#[derive(Debug, Clone)]
pub struct SkippedFile {
    pub file_path: String,
    pub reason: String,
    pub file_size: Option<u64>,
}

/// The stage at which processing a file failed.
#[derive(Debug, Clone, Copy, PartialEq, Eq, Structural)]
pub enum ProcessingStage {
    /// Reading the file's metadata or content
    FileSystem,
    /// Parsing or analysis
    Parsing,
    Unknown,
}

/// A file whose processing failed.
#[derive(Debug, Clone)]
pub struct ErroredFile {
    pub file_path: String,
    pub error_message: String,
    pub error_stage: ProcessingStage,
}

/// Timings and counts of processing one file.
#[derive(Debug, Clone, Copy)]
pub struct ProcessingStats {
    pub total_time: ElapsedTime,
    pub parse_time: ElapsedTime,
    pub rules_time: ElapsedTime,
    pub analysis_time: ElapsedTime,
    pub rule_matches: usize,
    pub definitions_count: usize,
    pub imported_symbols_count: usize,
}

/// What processing a supported file yields.
#[derive(Debug, Clone)]
pub struct FileProcessingResult {
    pub file_path: String,
    pub extension: String,
    pub file_size: u64,
    /// The language, by the rules that apply to its definitions
    pub language: DefinitionRules,
    pub definitions: Vec<ParsedDefinition>,
    /// The imports found; none for Ruby, whose analysis finds no imports
    pub imported_symbols: Option<Vec<ParsedImport>>,
    pub stats: ProcessingStats,
    pub is_supported: bool,
}

/// The outcome of processing a file.
#[derive(Debug, Clone)]
pub enum ProcessingResult {
    Success(FileProcessingResult),
    Skipped(SkippedFile),
    Error(ErroredFile),
}

/// The path of the file an outcome is about.
pub open spec fn result_path(r: ProcessingResult) -> Seq<char> {
    match r {
        ProcessingResult::Success(s) => s.file_path@,
        ProcessingResult::Skipped(s) => s.file_path@,
        ProcessingResult::Error(e) => e.file_path@,
    }
}

impl ProcessingResult {
    pub fn is_success(&self) -> (b: bool)
        ensures
            b == (*self is Success),
    {
        match self {
            ProcessingResult::Success(_) => true,
            _ => false,
        }
    }

    pub fn is_skipped(&self) -> (b: bool)
        ensures
            b == (*self is Skipped),
    {
        match self {
            ProcessingResult::Skipped(_) => true,
            _ => false,
        }
    }

    pub fn is_error(&self) -> (b: bool)
        ensures
            b == (*self is Error),
    {
        match self {
            ProcessingResult::Error(_) => true,
            _ => false,
        }
    }

    /// The path of the file, whatever the outcome.
    pub fn file_path(&self) -> (p: &str)
        ensures
            p@ == result_path(*self),
    {
        match self {
            ProcessingResult::Success(result) => result.file_path.as_str(),
            ProcessingResult::Skipped(skipped) => skipped.file_path.as_str(),
            ProcessingResult::Error(errored) => errored.file_path.as_str(),
        }
    }
}

/// The extension recorded for a path: its extension, or `unknown` when it
/// has none.
pub open spec fn extension_or_unknown(path: Seq<char>) -> Seq<char> {
    match extension_of(path) {
        Some(e) => e,
        None => "unknown"@,
    }
}

/// The extension recorded for a file taken from the file list: its
/// extension, or nothing.
pub open spec fn extension_or_empty(path: Seq<char>) -> Seq<char> {
    match extension_of(path) {
        Some(e) => e,
        None => Seq::<char>::empty(),
    }
}

/// A file to process: its path, its content and its extension.
#[derive(Debug, Clone)]
pub struct FileProcessor<'a> {
    pub path: String,
    pub content: &'a str,
    /// The extension, computed once
    pub extension: String,
}

impl<'a> FileProcessor<'a> {
    /// A file with the given path and content.
    pub fn new(path: String, content: &'a str) -> (f: Self)
        ensures
            f.path@ == path@,
            f.content@ == content@,
            f.extension@ == extension_or_unknown(path@),
    {
        let ext = match extension(path.as_str()) {
            Some(e) => e,
            None => String::from_str("unknown"),
        };
        FileProcessor { path, content, extension: ext }
    }

    /// A file from the file list, with the given content.
    pub fn from_file_info(file_info: FileInfo, content: &'a str) -> (f: Self)
        ensures
            f.path@ == file_info.path@,
            f.content@ == content@,
            f.extension@ == extension_or_empty(file_info.path@),
    {
        let ext = match extension(file_info.path.as_str()) {
            Some(e) => e,
            None => String::new(),
        };
        FileProcessor { path: file_info.path, content, extension: ext }
    }

    /// A file whose content is read later.
    pub fn new_empty(path: String) -> (f: Self)
        ensures
            f.path@ == path@,
            f.content@ == Seq::<char>::empty(),
            f.extension@ == extension_or_unknown(path@),
    {
        let ext = match extension(path.as_str()) {
            Some(e) => e,
            None => String::from_str("unknown"),
        };
        proof {
            reveal_strlit("");
        }
        FileProcessor { path, content: "", extension: ext }
    }

    pub fn path(&self) -> (p: &str)
        ensures
            p@ == self.path@,
    {
        self.path.as_str()
    }

    pub fn content(&self) -> (c: &str)
        ensures
            c@ == self.content@,
    {
        self.content
    }

    pub fn extension(&self) -> (e: &str)
        ensures
            e@ == self.extension@,
    {
        self.extension.as_str()
    }

    pub fn set_content(&mut self, content: &'a str)
        ensures
            final(self).content@ == content@,
            final(self).path@ == old(self).path@,
            final(self).extension@ == old(self).extension@,
    {
        self.content = content;
    }

    /// The size of the content in bytes.
    pub fn size(&self) -> (n: u64)
        ensures
            n == self.content.spec_bytes().len() as usize,
    {
        self.content.len() as u64
    }
}

/// What the stages of processing a file reported: detecting its language
/// from the extension, parsing it, and analysing the parse.
pub enum StageReport {
    /// No language was detected; the detector's message.
    DetectionFailed(String),
    /// The language detected has no analyzer; its name.
    Unsupported(String),
    /// The parser failed; its message.
    ParseFailed(String),
    /// The analyzer failed; its message.
    AnalysisFailed(String),
    /// A supported language was analysed: the rules of the language, the
    /// definitions and imports found, and the timings and counts of the
    /// stages.
    Analyzed(DefinitionRules, Vec<ParsedDefinition>, Vec<ParsedImport>, ProcessingStats),
}

/// `r` is the error of processing the file at `path` with `message`, at the
/// parsing stage.
pub open spec fn parse_stage_error(r: ProcessingResult, path: Seq<char>, message: Seq<char>) -> bool {
    r matches ProcessingResult::Error(f)
        && f.file_path@ == path
        && f.error_message@ == message
        && f.error_stage == ProcessingStage::Parsing
}

/// The outcome of processing a file that the stages reported on as
/// `report`, for a file at `path` with `extension` and `size` bytes.
pub open spec fn stage_outcome(r: ProcessingResult, report: StageReport, path: Seq<char>, extension: Seq<char>, size: u64) -> bool {
    match report {
        StageReport::DetectionFailed(e) => parse_stage_error(r, path, "Failed to detect language: "@ + e@),
        StageReport::Unsupported(name) => r matches ProcessingResult::Skipped(f)
            && f.file_path@ == path
            && f.reason@ == "Unsupported language: "@ + name@
            && f.file_size == Some(size),
        StageReport::ParseFailed(e) => parse_stage_error(r, path, "Failed to parse: "@ + e@),
        StageReport::AnalysisFailed(e) => parse_stage_error(r, path, "Failed to analyze: "@ + e@),
        StageReport::Analyzed(language, definitions, imports, stats) => r matches ProcessingResult::Success(f)
            && f.file_path@ == path
            && f.extension@ == extension
            && f.file_size == size
            && f.language == language
            && f.definitions@ == definitions@
            && (match f.imported_symbols {
                Some(v) => language != DefinitionRules::Ruby && v@ == imports@,
                None => language == DefinitionRules::Ruby,
            })
            && f.stats == (ProcessingStats {
                definitions_count: definitions@.len() as usize,
                imported_symbols_count: if language == DefinitionRules::Ruby { 0 } else { imports@.len() as usize },
                ..stats
            })
            && f.is_supported,
    }
}

/// `prefix` followed by `text`.
fn prefixed(prefix: &str, text: &str) -> (s: String)
    ensures
        s@ == prefix@ + text@,
{
    let mut s = String::from_str(prefix);
    s.append(text);
    s
}

impl<'a> FileProcessor<'a> {
    /// The outcome of processing this file, from what its stages reported:
    /// the first stage that failed gives an error at the parsing stage with
    /// its message, a language without analyzer skips the file, and an
    /// analysis gives the definitions found.
    pub fn outcome(&self, report: StageReport) -> (r: ProcessingResult)
        ensures
            stage_outcome(r, report, self.path@, self.extension@, self.content.spec_bytes().len() as usize as u64),
    {
        let size = self.size();
        match report {
            StageReport::DetectionFailed(e) => ProcessingResult::Error(ErroredFile {
                file_path: self.path.clone(),
                error_message: prefixed("Failed to detect language: ", e.as_str()),
                error_stage: ProcessingStage::Parsing,
            }),
            StageReport::Unsupported(name) => ProcessingResult::Skipped(SkippedFile {
                file_path: self.path.clone(),
                reason: prefixed("Unsupported language: ", name.as_str()),
                file_size: Some(size),
            }),
            StageReport::ParseFailed(e) => ProcessingResult::Error(ErroredFile {
                file_path: self.path.clone(),
                error_message: prefixed("Failed to parse: ", e.as_str()),
                error_stage: ProcessingStage::Parsing,
            }),
            StageReport::AnalysisFailed(e) => ProcessingResult::Error(ErroredFile {
                file_path: self.path.clone(),
                error_message: prefixed("Failed to analyze: ", e.as_str()),
                error_stage: ProcessingStage::Parsing,
            }),
            StageReport::Analyzed(language, definitions, imports, stats) => {
                let count = definitions.len();
                let (imported_symbols, import_count) = if language == DefinitionRules::Ruby {
                    (None, 0)
                } else {
                    let n = imports.len();
                    (Some(imports), n)
                };
                ProcessingResult::Success(FileProcessingResult {
                    file_path: self.path.clone(),
                    extension: self.extension.clone(),
                    file_size: size,
                    language,
                    definitions,
                    imported_symbols,
                    stats: ProcessingStats { definitions_count: count, imported_symbols_count: import_count, ..stats },
                    is_supported: true,
                })
            },
        }
    }
}

} // verus!
