use knowledge_indexer::indexer::IndexingConfig;
use knowledge_indexer::writer::ElapsedTime;
use knowledge_indexer::runner::{
    client_run, client_step, client_summary, discovery_outcome, ClientEvent,
    client_indexing_config, configuration_lines, error_lines, recent_error_lines, repository_error_lines,
    repository_failure, repository_name, summary_lines, threads_shown, opening_lines, opening_lines_with,
    found_line,
};

fn errors(n: usize) -> Vec<(String, String)> {
    (0..n).map(|i| (format!("f{i}.rb"), format!("e{i}"))).collect()
}

#[test]
fn client_configuration_and_threads() {
    let c = client_indexing_config(3);
    assert_eq!(c.worker_threads, 3);
    assert_eq!(c.max_file_size, 5_000_000);
    assert!(c.respect_gitignore);
    assert_eq!(threads_shown(6), 6);
    assert!(threads_shown(0) >= 1);
    assert_eq!(
        configuration_lines(&c, 3),
        vec![
            "⚙️ Indexing configuration:".to_string(),
            "  • Worker threads: 3".to_string(),
            "  • Max file size: 5 MB".to_string(),
            "  • Respect .gitignore: true".to_string(),
        ]
    );
    let other = IndexingConfig { worker_threads: 0, max_file_size: 999_999, respect_gitignore: false };
    assert_eq!(configuration_lines(&other, 8)[2], "  • Max file size: 0 MB");
    assert_eq!(configuration_lines(&other, 8)[3], "  • Respect .gitignore: false");
}

#[test]
fn repository_names_are_last_segments() {
    assert_eq!(repository_name("/home/me/work/gitlab"), "gitlab");
    assert_eq!(repository_name("gitlab"), "gitlab");
    assert_eq!(repository_name("/home/me/"), "");
    assert_eq!(repository_name(""), "");
    assert_eq!(repository_failure("boom"), "Failed to index repository: boom");
}

#[test]
fn errors_are_listed_up_to_a_limit() {
    assert!(error_lines(&errors(0), 5).is_empty());
    assert_eq!(error_lines(&errors(2), 5), vec!["    • f0.rb: e0".to_string(), "    • f1.rb: e1".to_string()]);
    let seven = error_lines(&errors(7), 5);
    assert_eq!(seven.len(), 6);
    assert_eq!(seven[4], "    • f4.rb: e4");
    assert_eq!(seven[5], "    • ... and 2 more errors");
    let per_repo = repository_error_lines(&errors(7));
    assert_eq!(per_repo[0], "  ⚠️ Errors encountered (7 total):");
    assert_eq!(per_repo.len(), 7);
    assert!(repository_error_lines(&errors(0)).is_empty());
}

#[test]
fn recent_errors_only_when_few() {
    assert!(recent_error_lines(&errors(0)).is_empty());
    assert!(recent_error_lines(&errors(11)).is_empty());
    let ten = recent_error_lines(&errors(10));
    assert_eq!(ten.len(), 11);
    assert_eq!(ten[0], "  • Recent errors:");
    assert_eq!(ten[10], "    • f9.rb: e9");
}

#[test]
fn summary_counts_each_outcome() {
    assert_eq!(
        summary_lines(2, 40, 3, 1),
        vec![
            "📊 Summary:".to_string(),
            "  • Repositories processed: 2".to_string(),
            "  • Files processed: 40".to_string(),
            "  • Files skipped: 3".to_string(),
            "  • Files with errors: 1".to_string(),
        ]
    );
}

#[test]
fn client_run_counts_indexed_repositories_and_carries_on_past_failures() {
    assert_eq!(discovery_outcome(0), Some("ℹ️ No repositories found in workspace".to_string()));
    assert_eq!(discovery_outcome(3), None);
    let run = client_run(2);
    let (run, lines) = client_step(run, ClientEvent::Failed("boom".to_string()));
    assert!(lines.is_empty());
    assert_eq!(run.repositories_processed, 0);
    let (run, lines) = client_step(
        run,
        ClientEvent::Indexed {
            files_processed: 4,
            files_skipped: 1,
            files_errored: 1,
            processing_time: ElapsedTime { secs: 2, nanos: 0 },
            errors: vec![("a.rb".to_string(), "bad".to_string())],
        },
    );
    assert_eq!(lines[0], "  ✅ Completed repository 1/2: 4 processed, 1 skipped, 1 errors in 2s");
    assert_eq!(lines[1], "  ⚠️ Errors encountered (1 total):");
    assert_eq!(lines[2], "    • a.rb: bad");
    assert_eq!(lines.len(), 3);
    assert_eq!(run.files_processed, 4);
    assert_eq!(run.errors.len(), 1);
    let summary = client_summary(&run);
    assert_eq!(summary[1], "  • Repositories processed: 1");
    assert_eq!(summary[5], "  • Recent errors:");
    assert_eq!(summary[6], "    • a.rb: bad");
}

#[test]
fn opening_lines_name_workspace_and_threads() {
    let lines = opening_lines_with("/ws", 4);
    assert_eq!(
        lines,
        vec![
            "🚀 Starting knowledge graph indexing...".to_string(),
            "📂 Workspace: /ws".to_string(),
            "🧵 Threads: 4".to_string(),
            "🔍 Initializing workspace manager...".to_string(),
            "📚 Discovering and registering workspace...".to_string(),
        ]
    );
    let configured = opening_lines("/ws", 6);
    assert_eq!(configured[2], "🧵 Threads: 6");
    let chosen = opening_lines("/ws", 0);
    assert_eq!(chosen[2], format!("🧵 Threads: {}", threads_shown(0)));
    assert_eq!(found_line(3), "📚 Found 3 repositories in workspace");
    assert_eq!(found_line(0), "📚 Found 0 repositories in workspace");
}
