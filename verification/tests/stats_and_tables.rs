use knowledge_indexer::project::file_info::FileInfo;
use knowledge_indexer::repository::{discovered_files, processes_extension};
use knowledge_indexer::execution::executor::check_cancellation;
use knowledge_indexer::indexer::ResultMessage;
use knowledge_indexer::repository::{
    empty_repository_result, repository_parse_workers, repository_result, repository_worker_count,
    IndexingConfig as RepoConfig, RepositoryCollection,
};
use knowledge_indexer::writer::ElapsedTime;
use knowledge_indexer::count_table::CountTable;
use knowledge_indexer::stats::IndexingStats;

#[test]
fn extensions_recorded_for_statistics() {
    assert_eq!(IndexingStats::extract_extension("src/main.rs"), "rs");
    assert_eq!(IndexingStats::extract_extension("Makefile"), "unknown");
    assert_eq!(IndexingStats::extract_extension(".bashrc"), "unknown");
    assert_eq!(IndexingStats::extract_extension("foo."), "");
}

#[test]
fn counters_add_up() {
    let mut stats = IndexingStats::new();
    stats.increment_files_processed();
    stats.increment_files_processed();
    stats.increment_files_skipped();
    stats.increment_files_errored();
    stats.add_definitions(5);
    stats.add_references(3);
    stats.increment_files_discovered();
    stats.increment_repositories_processed();
    stats.increment_repository_errors();
    stats.increment_repository_errors();
    assert_eq!(stats.files_discovered(), 1);
    assert_eq!(stats.repositories_processed(), 1);
    assert_eq!(stats.repositories_errored(), 2);
    assert_eq!(stats.files_processed(), 2);
    assert_eq!(stats.files_skipped(), 1);
    assert_eq!(stats.files_errored(), 1);
    assert_eq!(stats.total_files_processed(), 4);
    assert_eq!(stats.definitions_found(), 5);
    assert_eq!(stats.references_found(), 3);
}

#[test]
fn file_type_report_is_sorted_by_type() {
    let mut stats = IndexingStats::new();
    stats.increment_file_type_processed("rs");
    stats.increment_file_type_processed("rs");
    stats.increment_file_type_skipped("py");
    stats.increment_file_type_errored("rs");
    let report = stats.format_file_type_stats();
    assert_eq!(
        report,
        "  • .py: 1 total (✅ 0 processed, ⏭️ 1 skipped, ❌ 0 errors)\n  • .rs: 3 total (✅ 2 processed, ⏭️ 0 skipped, ❌ 1 errors)\n"
    );
    assert_eq!(IndexingStats::new().format_file_type_stats(), "");
}

#[test]
fn count_table_counts_each_key() {
    let mut t = CountTable::new();
    t.increment("a");
    t.increment("b");
    t.increment("a");
    assert_eq!(t.get("a"), 2);
    assert_eq!(t.get("b"), 1);
    assert_eq!(t.get("c"), 0);
    assert_eq!(t.len(), 2);
    assert_eq!(t.key_at(0), "a");
    assert_eq!(t.key_at(1), "b");
}

#[test]
fn repository_collection_counts_by_extension() {
    assert_eq!(repository_worker_count(&RepoConfig { worker_threads: 0, ..RepoConfig::default() }, 16), 8);
    assert_eq!(repository_worker_count(&RepoConfig { worker_threads: 0, ..RepoConfig::default() }, 3), 3);
    assert_eq!(repository_worker_count(&RepoConfig { worker_threads: 5, ..RepoConfig::default() }, 16), 5);
    let n = repository_parse_workers(&RepoConfig::default());
    assert!(n >= 1 && n <= 8);
    let mut c = RepositoryCollection::new(3);
    assert!(!c.receive(ResultMessage::Skipped("a.py".to_string(), "too big".to_string())));
    assert!(!c.receive(ResultMessage::Error("b.rb".to_string(), "bad".to_string())));
    assert!(c.receive(ResultMessage::Skipped("Makefile".to_string(), "unsupported".to_string())));
    assert_eq!(c.total_files_skipped, 2);
    assert_eq!(c.total_files_errored, 1);
    assert_eq!(c.errors, vec![("b.rb".to_string(), "bad".to_string())]);
    assert_eq!(c.stats.files_skipped(), 2);
    assert_eq!(c.stats.file_types_skipped().get("py"), 1);
    assert_eq!(c.stats.file_types_skipped().get("unknown"), 1);
    assert_eq!(c.stats.file_types_errored().get("rb"), 1);
    let r = repository_result(c, "repo".to_string(), "/w/repo".to_string(), ElapsedTime { secs: 2, nanos: 5 });
    assert_eq!(r.repository_name, "repo");
    assert_eq!(r.repository_path, "/w/repo");
    assert_eq!(r.total_files_processed + r.total_files_skipped + r.total_files_errored, 3);
    assert_eq!(r.file_results.len(), r.total_files_processed);
    assert_eq!(r.errors.len(), r.total_files_errored);
    assert!(r.graph_data.is_none() && r.writer_result.is_none() && r.database_path.is_none());
    assert!(!r.database_loaded);
    assert_eq!(r.total_processing_time.secs, 2);
}

#[test]
fn repository_with_no_files_yields_an_empty_result() {
    let r = empty_repository_result("e".to_string(), "/w/e".to_string(), ElapsedTime { secs: 0, nanos: 10 });
    assert_eq!(r.repository_name, "e");
    assert_eq!((r.total_files_processed, r.total_files_skipped, r.total_files_errored), (0, 0, 0));
    assert!(r.file_results.is_empty() && r.errors.is_empty());
    assert!(r.graph_data.is_none() && r.writer_result.is_none() && r.database_path.is_none() && !r.database_loaded);
}

#[test]
fn interleaved_processed_counts_add_up() {
    let mut s = IndexingStats::new();
    s.increment_files_processed();
    s.increment_file_type_processed("rb");
    s.increment_files_processed();
    s.increment_file_type_processed("py");
    s.increment_file_type_processed("rb");
    assert_eq!(s.files_processed(), 5);
    let t = s.file_types_processed();
    assert_eq!(t.get("rb"), 2);
    assert_eq!(t.get("rb") + t.get("py"), 3);
}

#[test]
fn references_total_does_not_depend_on_order() {
    let mut a = IndexingStats::new();
    a.add_references(3);
    a.add_references(4);
    a.add_references(5);
    let mut b = IndexingStats::new();
    b.add_references(5);
    b.add_references(3);
    b.add_references(4);
    assert_eq!(a.references_found(), 12);
    assert_eq!(b.references_found(), a.references_found());
    assert_eq!(a.definitions_found(), 0);
}

#[test]
fn discovery_keeps_configured_extensions_in_order() {
    let config = RepoConfig::default();
    assert!(processes_extension(&config, "py"));
    assert!(!processes_extension(&config, "rs"));
    let files: Vec<FileInfo> = ["a.py", "b.rs", "Makefile", "c.rb", "d.ts"]
        .iter()
        .map(|p| FileInfo::from_path(p.to_string()))
        .collect();
    let kept: Vec<String> = discovered_files(&files, &config).into_iter().map(|f| f.path).collect();
    assert_eq!(kept, vec!["a.py", "c.rb", "d.ts"]);
}

#[test]
fn cancellation_stops_only_when_requested() {
    assert_eq!(check_cancellation(Some(true), "during parsing"), Err("Operation cancelled during parsing".to_string()));
    assert_eq!(check_cancellation(Some(false), "x"), Ok(()));
    assert_eq!(check_cancellation(None, "x"), Ok(()));
}
