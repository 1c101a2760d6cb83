use knowledge_indexer::analysis::file_tree::OptimizedFileTree;
use knowledge_indexer::analysis::summary::AnalysisStats;
use knowledge_indexer::analysis::types::{
    ImportType,
    DefinitionLocation, DefinitionNode, DefinitionType, DirectoryRelationship, FileNode, GraphData, Position, Range,
    RubyDefinitionType,
};
use knowledge_indexer::analysis::import_map::ParsedImport;
use knowledge_indexer::analysis::languages::DefinitionRules;
use knowledge_indexer::deployed::executor::DeployedIndexingExecutor;
use knowledge_indexer::indexer::{
    full_path, oversize_reason, parse_worker_count, processing_outcome, result_message, work_queue_capacity,
    worker_count, AnalyzeAndWriteErrors, FatalIndexingError, IndexingConfig, ParseCollection,
    ProcessingError, RepositoryIndexer, ResultMessage,
};
use knowledge_indexer::graph::RelationshipType;
use knowledge_indexer::mutation::types::{ConsolidatedRelationship, ConsolidatedRelationships};
use knowledge_indexer::mutation::utils::NodeIdGenerator;
use knowledge_indexer::parsing::processor::{
    ErroredFile, FileProcessor, ProcessingResult, ProcessingStage, ProcessingStats, SkippedFile, StageReport,
};
use knowledge_indexer::project::file_info::FileInfo;
use knowledge_indexer::project::source::{should_process_file_info, FileSource, PathFileSource};
use knowledge_indexer::repository::IndexingConfig as RepositoryConfig;
use knowledge_indexer::text_map::TextSet;
use knowledge_indexer::writer::{
    file_type_for, relationship_columns, writer_result, writes_locations, ElapsedTime, WriterResult, WriterService, WrittenFile,
};

#[test]
fn writer_summary_lists_counts_and_files() {
    let r = WriterResult {
        files_written: vec![WrittenFile {
            file_path: "out/definitions.parquet".to_string(),
            file_type: "definitions".to_string(),
            record_count: 12,
            file_size_bytes: 2048,
        }],
        total_directories: 2,
        total_files: 3,
        total_definitions: 12,
        total_imported_symbols: 0,
        total_directory_relationships: 4,
        total_file_definition_relationships: 5,
        total_file_imported_symbol_relationships: 0,
        total_definition_relationships: 6,
        total_definition_imported_symbol_relationships: 0,
        writing_duration: ElapsedTime { secs: 1, nanos: 500_000_000 },
    };
    let s = r.format_summary();
    assert!(s.starts_with("📦 Parquet Writer Summary (completed in 1.5s):\n"));
    assert!(s.contains("  • Total files written: 1\n"));
    assert!(s.contains("  • Definition-definition relationships: 6\n"));
    assert!(s.ends_with("  • Files created:\n    - out/definitions.parquet (12 records, 2048 bytes)\n"));
}

#[test]
fn node_file_types_and_relationship_columns() {
    assert_eq!(file_type_for("definitions.parquet"), "definitions");
    assert_eq!(file_type_for("notes.txt"), "notes.txt");
    assert_eq!(file_type_for(".parquet"), "");
    assert!(writes_locations("FILE_RELATIONSHIPS"));
    assert!(!writes_locations("DIRECTORY_RELATIONSHIPS"));
    let rels = vec![ConsolidatedRelationship {
        source_id: Some(1),
        target_id: Some(2),
        relationship_type: 14,
        start_byte: Some(5),
        end_byte: None,
        start_line: Some(3),
        end_line: Some(4),
        start_column: None,
        end_column: Some(9),
    }];
    let with = relationship_columns(&rels, true);
    assert_eq!(with.source_ids, vec![Some(1)]);
    assert_eq!(with.types, vec![14]);
    assert_eq!(with.start_bytes, Some(vec![Some(5)]));
    assert_eq!(with.end_bytes, Some(vec![None]));
    assert_eq!(with.end_cols, Some(vec![Some(9)]));
    let without = relationship_columns(&rels, false);
    assert_eq!(without.start_lines, None);
    assert_eq!(without.target_ids, vec![Some(2)]);
}

#[test]
fn worker_counts_and_queue_capacity() {
    let auto = IndexingConfig::default();
    assert_eq!(auto.max_file_size, 5_000_000);
    assert_eq!(worker_count(&auto, 3, 16), 3);
    assert_eq!(worker_count(&auto, 100, 16), 16);
    assert_eq!(worker_count(&auto, 100, 4), 8);
    assert_eq!(worker_count(&auto, 0, 4), 8);
    let fixed = IndexingConfig { worker_threads: 2, max_file_size: 10, respect_gitignore: false };
    assert_eq!(worker_count(&fixed, 100, 16), 2);
    assert_eq!(parse_worker_count(&fixed, 100), 2);
    assert!(parse_worker_count(&auto, 100) >= 1);
    assert_eq!(work_queue_capacity(5), 10000);
    assert_eq!(work_queue_capacity(20000), 20000);
}

#[test]
fn read_paths_and_size_limits() {
    assert_eq!(full_path("repo/src/a.rb", "repo"), "repo/src/a.rb");
    assert_eq!(full_path("src/a.rb", "repo"), "repo/src/a.rb");
    assert_eq!(oversize_reason(11, 10), Some("File too large: 11 bytes".to_string()));
    assert_eq!(oversize_reason(10, 10), None);
}

#[test]
fn outcomes_become_messages_and_are_collected() {
    let skipped = ProcessingResult::Skipped(SkippedFile {
        file_path: "a.xyz".to_string(),
        reason: "Unsupported language".to_string(),
        file_size: Some(3),
    });
    assert!(skipped.is_skipped());
    assert!(!skipped.is_success());
    assert!(!skipped.is_error());
    assert_eq!(skipped.file_path(), "a.xyz");
    let outcome = processing_outcome(skipped);
    match &outcome {
        Err(ProcessingError::Skipped(p, r)) => {
            assert_eq!(p, "a.xyz");
            assert_eq!(r, "Unsupported language");
        }
        _ => panic!("expected a skip"),
    }
    let mut c = ParseCollection::new(3);
    assert!(!c.receive(result_message(outcome)));
    assert!(!c.receive(ResultMessage::Error("b.rb".to_string(), "boom".to_string())));
    assert!(c.receive(ResultMessage::Skipped("c.rb".to_string(), "too big".to_string())));
    assert_eq!(c.skipped_files.len(), 2);
    assert_eq!(c.skipped_files[0].file_size, None);
    assert_eq!(c.errored_files.len(), 1);
    assert_eq!(c.errored_files[0].error_stage, ProcessingStage::Unknown);
    assert_eq!(c.errors, vec![("b.rb".to_string(), "boom".to_string())]);
    assert_eq!(c.messages_received, 3);
    assert!(c.stop_after_timeout(0));
    assert!(!c.stop_after_timeout(2));
    let (results, skipped, errored, errors) = c.into_lists();
    assert_eq!(results.len() + skipped.len() + errored.len(), 3);
    assert_eq!(errors.len(), errored.len());
    assert_eq!(errors[0].0, errored[0].file_path);
    assert_eq!(errors[0].1, errored[0].error_message);
}

#[test]
fn parse_collection_of_no_files_is_empty() {
    let (results, skipped, errored, errors) = ParseCollection::new(0).into_lists();
    assert!(results.is_empty() && skipped.is_empty() && errored.is_empty() && errors.is_empty());
}

#[test]
fn fatal_errors_are_reported() {
    assert_eq!(FatalIndexingError::FailedToGetFiles("no repo".to_string()).to_string(), "Failed to get files: no repo");
    assert_eq!(
        FatalIndexingError::FailedToAnalyze(AnalyzeAndWriteErrors::FailedToAnalyze("bad \"input\"".to_string())).to_string(),
        "Failed to analyze: FailedToAnalyze(\"bad \\\"input\\\"\")"
    );
    match RepositoryIndexer::database_creation_failure("db") {
        FatalIndexingError::FailedToLoadDatabase(AnalyzeAndWriteErrors::FailedToLoadDatabase(m)) => {
            assert_eq!(m, "Failed to create database: db.")
        }
        _ => panic!("wrong error"),
    }
    let r = RepositoryIndexer::new("n".to_string(), "/p".to_string());
    assert_eq!(r.path(), "/p");
}

#[test]
fn file_processors_record_extensions() {
    let f = FileProcessor::new("src/app.rb".to_string(), "puts 1");
    assert_eq!(f.extension(), "rb");
    assert_eq!(f.size(), 6);
    let g = FileProcessor::new_empty("Makefile".to_string());
    assert_eq!(g.extension(), "unknown");
    assert_eq!(g.content(), "");
    let h = FileProcessor::from_file_info(FileInfo::from_path("LICENSE".to_string()), "x");
    assert_eq!(h.extension(), "");
    let mut k = FileProcessor::new("a.py".to_string(), "");
    k.set_content("abc");
    assert_eq!(k.content(), "abc");
    assert_eq!(k.path(), "a.py");
}

#[test]
fn file_sources_keep_supported_extensions() {
    let mut exts = TextSet::new();
    exts.insert("rb".to_string());
    exts.insert("py".to_string());
    exts.insert("rb".to_string());
    assert_eq!(exts.len(), 2);
    let files = vec![
        FileInfo::from_path("a.rb".to_string()),
        FileInfo::from_path("b.txt".to_string()),
        FileInfo::from_path("c/d.py".to_string()),
    ];
    assert!(should_process_file_info(&files[0], &exts));
    let source = PathFileSource::new(files, exts);
    let kept: Vec<String> = source.get_files(&IndexingConfig::default()).unwrap().into_iter().map(|f| f.path).collect();
    assert_eq!(kept, vec!["a.rb".to_string(), "c/d.py".to_string()]);
    let rc = RepositoryConfig::default();
    assert_eq!(rc.file_extensions, vec!["rb", "py", "js", "ts"]);
}

#[test]
fn file_tree_lookups_and_roots() {
    let files = vec![
        "Src/App/Main.py".to_string(),
        "src/pkg/__init__.py".to_string(),
        "src/pkg/mod.py".to_string(),
        "README".to_string(),
    ];
    let tree = OptimizedFileTree::new(&files);
    assert_eq!(tree.get_denormalized_file("src/app/main.py"), Some(&"Src/App/Main.py".to_string()));
    assert_eq!(tree.get_denormalized_file("Src/App/Main.py"), Some(&"Src/App/Main.py".to_string()));
    assert_eq!(tree.get_denormalized_file("SRC/APP/MAIN.PY"), Some(&"Src/App/Main.py".to_string()));
    assert_eq!(tree.get_denormalized_file("src/app/other.py"), None);
    assert!(tree.get_dirs().contains("src/pkg"));
    assert!(tree.get_dirs().contains(""));
    assert!(tree.get_root_dirs().contains(""));
    assert!(tree.get_root_dirs().contains("src"));
    assert_eq!(tree.get_root_dirs().len(), 2);
}

#[test]
fn analysis_statistics_report() {
    let loc = DefinitionLocation {
        file_path: "a.rb".to_string(),
        start_byte: 0,
        end_byte: 1,
        start_line: 0,
        end_line: 0,
        start_col: 0,
        end_col: 0,
    };
    let graph = GraphData {
        directory_nodes: vec![],
        file_nodes: vec![FileNode {
            path: "a.rb".to_string(),
            absolute_path: "/r/a.rb".to_string(),
            language: "ruby".to_string(),
            repository_name: "r".to_string(),
            extension: "rb".to_string(),
            name: "a.rb".to_string(),
        }],
        definition_nodes: vec![
            DefinitionNode::new("A".to_string(), "A".to_string(), DefinitionType::Ruby(RubyDefinitionType::Class), loc.clone()),
            DefinitionNode::new("A::b".to_string(), "b".to_string(), DefinitionType::Ruby(RubyDefinitionType::Method), loc.clone()),
            DefinitionNode::new("C".to_string(), "C".to_string(), DefinitionType::Ruby(RubyDefinitionType::Class), loc),
        ],
        imported_symbol_nodes: vec![],
        directory_relationships: vec![DirectoryRelationship {
            from_path: "".to_string(),
            to_path: "a.rb".to_string(),
            relationship_type: RelationshipType::DirContainsFile,
        }],
        file_definition_relationships: vec![],
        file_imported_symbol_relationships: vec![],
        definition_relationships: vec![],
        definition_imported_symbol_relationships: vec![],
    };
    let plain = ConsolidatedRelationship {
        source_id: Some(1),
        target_id: Some(2),
        relationship_type: 1,
        start_byte: None,
        end_byte: None,
        start_line: None,
        end_line: None,
        start_column: None,
        end_column: None,
    };
    let rels = ConsolidatedRelationships {
        directory_to_directory: vec![],
        directory_to_file: vec![plain, plain],
        file_to_definition: vec![plain],
        file_to_imported_symbol: vec![],
        definition_to_definition: vec![],
        definition_to_imported_symbol: vec![],
        imported_symbol_to_imported_symbol: vec![],
        imported_symbol_to_definition: vec![],
        imported_symbol_to_file: vec![],
    };
    let ids = NodeIdGenerator::new();
    let file = |path: &str, file_type: &str, record_count: usize| WrittenFile {
        file_path: path.to_string(),
        file_type: file_type.to_string(),
        record_count,
        file_size_bytes: 10,
    };
    let files = vec![
        file("out/files.parquet", "files", 1),
        file("out/definitions.parquet", "definitions", 3),
        file("out/dir_contains_file.parquet", "dir_contains_file.parquet", 2),
        file("out/file_defines.parquet", "file_defines.parquet", 1),
    ];
    let written = writer_result(&graph, &ids, &rels, files, ElapsedTime { secs: 1, nanos: 0 });
    assert_eq!(written.files_written.len(), 4);
    assert!(written.files_written.iter().all(|f| f.record_count > 0));
    assert_eq!(written.total_files, 1);
    assert_eq!(written.total_definitions, 3);
    assert_eq!(written.total_directory_relationships, 2);
    assert_eq!(written.total_file_definition_relationships, 1);
    assert_eq!(written.total_definition_relationships, 0);
    let stats = AnalysisStats::from_graph_data(&graph, ElapsedTime { secs: 0, nanos: 2_000_000 });
    assert_eq!(stats.total_definitions_created, 3);
    assert_eq!(stats.definitions_by_type.get("Class"), 2);
    let text = stats.format_stats();
    assert_eq!(
        text,
        "📊 Analysis Statistics (completed in 2ms):\n  • Directories created: 0\n  • Files analyzed: 1\n  • Definitions created: 3\n  • Directory relationships: 1\n  • File-definition relationships: 0\n  • Definition relationships: 0\n  • Files by language:\n    - ruby: 1\n  • Definitions by type:\n    - Class: 2\n    - Method: 1\n  • Relationships by type:\n    - DIR_CONTAINS_FILE: 1\n"
    );
}

#[test]
fn deployed_runs_name_repositories() {
    let e = DeployedIndexingExecutor::new("/srv/repos/gitlab".to_string(), "db".to_string(), "out".to_string(), IndexingConfig::default());
    assert_eq!(e.repository_name(), "gitlab");
    let root = DeployedIndexingExecutor::new("/".to_string(), "db".to_string(), "out".to_string(), IndexingConfig::default());
    assert_eq!(root.repository_name(), "unknown");
}

#[test]
fn writer_service_places_files_in_its_directory() {
    let w = WriterService::new("out/parquet".to_string());
    assert_eq!(w.output_directory(), "out/parquet");
    assert_eq!(w.file_path("files.parquet"), "out/parquet/files.parquet");
    let w2 = WriterService::new("out/".to_string());
    assert_eq!(w2.file_path("files.parquet"), "out/files.parquet");
    let w3 = WriterService::new(String::new());
    assert_eq!(w3.file_path("files.parquet"), "files.parquet");
}

#[test]
fn errored_outcome_is_an_error() {
    let errored = ProcessingResult::Error(ErroredFile {
        file_path: "b.rb".to_string(),
        error_message: "bad".to_string(),
        error_stage: ProcessingStage::Parsing,
    });
    assert!(errored.is_error());
    assert!(!errored.is_success());
    assert!(!errored.is_skipped());
    assert_eq!(errored.file_path(), "b.rb");
}

#[test]
fn indexer_keeps_name_and_path() {
    let r = RepositoryIndexer::with_name("repo".to_string(), "/src/repo".to_string());
    assert_eq!(r.name, "repo");
    assert_eq!(r.path(), "/src/repo");
}

#[test]
fn stage_reports_decide_the_outcome() {
    let p = FileProcessor::new("lib/a.rb".to_string(), "class A; end");
    match p.outcome(StageReport::Unsupported("Json".to_string())) {
        ProcessingResult::Skipped(f) => {
            assert_eq!(f.file_path, "lib/a.rb");
            assert_eq!(f.reason, "Unsupported language: Json");
            assert_eq!(f.file_size, Some(12));
        }
        _ => panic!("expected a skip"),
    }
    match p.outcome(StageReport::DetectionFailed("no language".to_string())) {
        ProcessingResult::Error(f) => {
            assert_eq!(f.error_message, "Failed to detect language: no language");
            assert_eq!(f.error_stage, ProcessingStage::Parsing);
        }
        _ => panic!("expected an error"),
    }
    match p.outcome(StageReport::ParseFailed("bad".to_string())) {
        ProcessingResult::Error(f) => assert_eq!(f.error_message, "Failed to parse: bad"),
        _ => panic!("expected an error"),
    }
    match p.outcome(StageReport::AnalysisFailed("oops".to_string())) {
        ProcessingResult::Error(f) => assert_eq!(f.error_message, "Failed to analyze: oops"),
        _ => panic!("expected an error"),
    }
    let zero = ElapsedTime { secs: 0, nanos: 0 };
    let stats = ProcessingStats {
        total_time: zero,
        parse_time: zero,
        rules_time: zero,
        analysis_time: zero,
        rule_matches: 4,
        definitions_count: 99,
        imported_symbols_count: 1,
    };
    match p.outcome(StageReport::Analyzed(DefinitionRules::Ruby, vec![], vec![], stats)) {
        ProcessingResult::Success(f) => {
            assert_eq!(f.file_path, "lib/a.rb");
            assert_eq!(f.extension, "rb");
            assert_eq!(f.file_size, 12);
            assert!(f.is_supported);
            assert_eq!(f.stats.definitions_count, 0);
            assert_eq!(f.stats.imported_symbols_count, 0);
            assert!(f.imported_symbols.is_none());
            assert_eq!(f.stats.rule_matches, 4);
        }
        _ => panic!("expected a success"),
    }
    let py = FileProcessor::new("m.py".to_string(), "import os");
    let import = ParsedImport {
        import_type: ImportType::Python("Import".to_string()),
        import_path: "os".to_string(),
        identifier: None,
        range: Range::new(Position { line: 0, column: 0 }, Position { line: 0, column: 9 }, (0, 9)),
        scope: None,
    };
    match py.outcome(StageReport::Analyzed(DefinitionRules::Python, vec![], vec![import], stats)) {
        ProcessingResult::Success(f) => {
            assert_eq!(f.imported_symbols.map(|v| v.len()), Some(1));
            assert_eq!(f.stats.imported_symbols_count, 1);
        }
        _ => panic!("expected a success"),
    }
}
