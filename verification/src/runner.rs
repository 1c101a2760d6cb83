//! What the client indexer of a workspace reports: its configuration, the
//! name it gives each repository, the errors it lists and its summary.

use vstd::prelude::*;
use crate::indexer::{cpu_count, IndexingConfig};
use crate::text::{decimal_text, lemma_texts_push, push_u64, texts_of};
use crate::writer::{duration_debug, duration_debug_text, ElapsedTime};

verus! {

/// The configuration the client indexer runs with: `threads` workers, files
/// up to five million bytes, and the ignore files respected.
pub fn client_indexing_config(threads: usize) -> (c: IndexingConfig)
    ensures
        c.worker_threads == threads,
        c.max_file_size == 5_000_000,
        c.respect_gitignore,
{
    IndexingConfig { worker_threads: threads, max_file_size: 5_000_000, respect_gitignore: true }
}

/// The number of threads the client reports: `threads`, or, for 0, the
/// number of cores of the machine, which is at least 1.
pub fn threads_shown(threads: usize) -> (n: usize)
    ensures
        threads > 0 ==> n == threads,
        threads == 0 ==> n >= 1,
{
    if threads == 0 {
        cpu_count()
    } else {
        threads
    }
}

/// The part of `path` after its last `/`: all of it when it has none, and
/// nothing when it ends in one.
pub open spec fn last_segment(path: Seq<char>) -> Seq<char>
    decreases path.len(),
{
    if path.len() == 0 {
        path
    } else if path.last() == '/' {
        Seq::<char>::empty()
    } else {
        last_segment(path.drop_last()).push(path.last())
    }
}

/// The name the client gives the repository at `project_path`: the part
/// after its last `/`.
pub fn repository_name(project_path: &str) -> (n: String)
    ensures
        n@ == last_segment(project_path@),
{
    let len = project_path.unicode_len();
    let mut start: usize = len;
    while start > 0 && project_path.get_char(start - 1) != '/'
        invariant
            start <= len,
            len == project_path@.len(),
            forall|k: int| start <= k < len ==> project_path@[k] != '/',
        decreases start,
    {
        start = start - 1;
    }
    proof {
        lemma_last_segment_after(project_path@, start as int);
    }
    String::from_str(project_path.substring_char(start, len))
}

/// When no `/` follows position `start` and `start` is 0 or follows a
/// `/`, the last segment of `p` is what follows `start`.
proof fn lemma_last_segment_after(p: Seq<char>, start: int)
    requires
        0 <= start <= p.len(),
        forall|k: int| start <= k < p.len() ==> p[k] != '/',
        start == 0 || p[start - 1] == '/',
    ensures
        last_segment(p) == p.subrange(start, p.len() as int),
    decreases p.len(),
{
    if p.len() == start {
        if p.len() > 0 {
            assert(p.last() == p[start - 1]);
        }
        assert(p.subrange(start, p.len() as int) =~= Seq::<char>::empty());
    } else {
        let q = p.drop_last();
        assert forall|k: int| start <= k < q.len() implies q[k] != '/' by {
            assert(q[k] == p[k]);
        }
        if start > 0 {
            assert(q[start - 1] == p[start - 1]);
        }
        lemma_last_segment_after(q, start);
        assert(p.subrange(start, p.len() as int) =~= q.subrange(start, q.len() as int).push(p.last()));
    }
}

/// The line that lists one error: the file and the message.
pub open spec fn error_line(file_path: Seq<char>, message: Seq<char>) -> Seq<char> {
    "    • "@ + file_path + ": "@ + message
}

/// The lines of the errors of a list, without the header.
pub open spec fn error_texts(errors: Seq<(String, String)>) -> Seq<Seq<char>> {
    errors.map_values(|e: (String, String)| error_line(e.0@, e.1@))
}

/// The first `limit` errors, one line each, then a line that counts the
/// rest when there are more.
pub open spec fn listed_errors(errors: Seq<(String, String)>, limit: nat) -> Seq<Seq<char>> {
    if errors.len() > limit {
        error_texts(errors.take(limit as int)).push(
            "    • ... and "@ + decimal_text((errors.len() - limit) as nat) + " more errors"@,
        )
    } else {
        error_texts(errors)
    }
}

/// Lists the first `limit` errors, one line each, and counts the rest.
pub fn error_lines(errors: &Vec<(String, String)>, limit: usize) -> (lines: Vec<String>)
    ensures
        texts_of(lines@) == listed_errors(errors@, limit as nat),
{
    let shown: usize = if errors.len() > limit { limit } else { errors.len() };
    let mut lines: Vec<String> = Vec::new();
    let mut i: usize = 0;
    while i < shown
        invariant
            shown <= errors@.len(),
            shown == (if errors@.len() > limit { limit as int } else { errors@.len() as int }),
            i <= shown,
            texts_of(lines@) == error_texts(errors@.take(i as int)),
        decreases shown - i,
    {
        let mut line = String::from_str("    • ");
        line.append(errors[i].0.as_str());
        line.append(": ");
        line.append(errors[i].1.as_str());
        proof {
            lemma_texts_push(lines@, line);
            assert(errors@.take(i + 1) =~= errors@.take(i as int).push(errors@[i as int]));
            assert(error_texts(errors@.take(i + 1)) =~= error_texts(errors@.take(i as int)).push(line@));
        }
        lines.push(line);
        i = i + 1;
    }
    if errors.len() > limit {
        let mut more = String::from_str("    • ... and ");
        push_u64(&mut more, (errors.len() - limit) as u64);
        more.append(" more errors");
        proof {
            lemma_texts_push(lines@, more);
        }
        lines.push(more);
    } else {
        assert(errors@.take(errors@.len() as int) =~= errors@);
    }
    lines
}

/// What the client reports of the errors of one repository: a header with
/// their number and the first five, or nothing when there are none.
pub open spec fn repository_error_texts(errors: Seq<(String, String)>) -> Seq<Seq<char>> {
    if errors.len() == 0 {
        Seq::empty()
    } else {
        seq!["  ⚠️ Errors encountered ("@ + decimal_text(errors.len()) + " total):"@] + listed_errors(errors, 5)
    }
}

/// The lines that report the errors of one repository.
pub fn repository_error_lines(errors: &Vec<(String, String)>) -> (lines: Vec<String>)
    ensures
        texts_of(lines@) == repository_error_texts(errors@),
{
    let mut lines: Vec<String> = Vec::new();
    if errors.len() == 0 {
        return lines;
    }
    let mut header = String::from_str("  ⚠️ Errors encountered (");
    push_u64(&mut header, errors.len() as u64);
    header.append(" total):");
    lines.push(header);
    let mut rest = error_lines(errors, 5);
    let ghost head = lines@;
    let ghost tail = rest@;
    lines.append(&mut rest);
    proof {
        assert(texts_of(lines@) =~= texts_of(head) + texts_of(tail));
    }
    lines
}

/// What the client reports of all errors at the end: a header and each
/// error, when there are some and no more than ten.
pub open spec fn recent_error_texts(errors: Seq<(String, String)>) -> Seq<Seq<char>> {
    if errors.len() == 0 || errors.len() > 10 {
        Seq::empty()
    } else {
        seq!["  • Recent errors:"@] + listed_errors(errors, 10)
    }
}

/// The lines that report all errors at the end of a run.
pub fn recent_error_lines(errors: &Vec<(String, String)>) -> (lines: Vec<String>)
    ensures
        texts_of(lines@) == recent_error_texts(errors@),
{
    let mut lines: Vec<String> = Vec::new();
    if errors.len() == 0 || errors.len() > 10 {
        return lines;
    }
    lines.push(String::from_str("  • Recent errors:"));
    let mut rest = error_lines(errors, 10);
    let ghost head = lines@;
    let ghost tail = rest@;
    lines.append(&mut rest);
    proof {
        assert(texts_of(lines@) =~= texts_of(head) + texts_of(tail));
    }
    lines
}

/// The text of a flag.
pub open spec fn bool_text(b: bool) -> Seq<char> {
    if b { "true"@ } else { "false"@ }
}

/// The lines that report a configuration, with `threads` worker threads
/// shown.
pub open spec fn configuration_texts(config: IndexingConfig, threads: usize) -> Seq<Seq<char>> {
    seq![
        "⚙️ Indexing configuration:"@,
        "  • Worker threads: "@ + decimal_text(threads as nat),
        "  • Max file size: "@ + decimal_text((config.max_file_size / 1_000_000) as nat) + " MB"@,
        "  • Respect .gitignore: "@ + bool_text(config.respect_gitignore),
    ]
}

/// The lines that report `config`, with `threads` worker threads shown.
pub fn configuration_lines(config: &IndexingConfig, threads: usize) -> (lines: Vec<String>)
    ensures
        texts_of(lines@) == configuration_texts(*config, threads),
{
    let mut workers = String::from_str("  • Worker threads: ");
    push_u64(&mut workers, threads as u64);
    let mut size = String::from_str("  • Max file size: ");
    push_u64(&mut size, (config.max_file_size / 1_000_000) as u64);
    size.append(" MB");
    let mut ignore = String::from_str("  • Respect .gitignore: ");
    if config.respect_gitignore {
        ignore.append("true");
    } else {
        ignore.append("false");
    }
    let lines = vec![String::from_str("⚙️ Indexing configuration:"), workers, size, ignore];
    proof {
        assert(texts_of(lines@) =~= configuration_texts(*config, threads));
    }
    lines
}

/// The summary lines of a run.
pub open spec fn summary_texts(repositories: usize, processed: usize, skipped: usize, errored: usize) -> Seq<Seq<char>> {
    seq![
        "📊 Summary:"@,
        "  • Repositories processed: "@ + decimal_text(repositories as nat),
        "  • Files processed: "@ + decimal_text(processed as nat),
        "  • Files skipped: "@ + decimal_text(skipped as nat),
        "  • Files with errors: "@ + decimal_text(errored as nat),
    ]
}

/// The summary of a run: repositories processed and files processed,
/// skipped and in error.
pub fn summary_lines(repositories: usize, processed: usize, skipped: usize, errored: usize) -> (lines: Vec<String>)
    ensures
        texts_of(lines@) == summary_texts(repositories, processed, skipped, errored),
{
    let mut r = String::from_str("  • Repositories processed: ");
    push_u64(&mut r, repositories as u64);
    let mut p = String::from_str("  • Files processed: ");
    push_u64(&mut p, processed as u64);
    let mut s = String::from_str("  • Files skipped: ");
    push_u64(&mut s, skipped as u64);
    let mut e = String::from_str("  • Files with errors: ");
    push_u64(&mut e, errored as u64);
    let lines = vec![String::from_str("📊 Summary:"), r, p, s, e];
    proof {
        assert(texts_of(lines@) =~= summary_texts(repositories, processed, skipped, errored));
    }
    lines
}

/// The message with which a repository that failed to index is marked.
pub fn repository_failure(error: &str) -> (m: String)
    ensures
        m@ == "Failed to index repository: "@ + error@,
{
    let mut m = String::from_str("Failed to index repository: ");
    m.append(error);
    m
}

/// The lines the client reports before it registers the workspace at
/// `workspace`, with `threads` threads shown.
pub open spec fn opening_texts(workspace: Seq<char>, threads: usize) -> Seq<Seq<char>> {
    seq![
        "🚀 Starting knowledge graph indexing..."@,
        "📂 Workspace: "@ + workspace,
        "🧵 Threads: "@ + decimal_text(threads as nat),
        "🔍 Initializing workspace manager..."@,
        "📚 Discovering and registering workspace..."@,
    ]
}

/// The opening lines with `shown` threads shown.
pub fn opening_lines_with(workspace: &str, shown: usize) -> (lines: Vec<String>)
    ensures
        texts_of(lines@) == opening_texts(workspace@, shown),
{
    let mut ws = String::from_str("📂 Workspace: ");
    ws.append(workspace);
    let mut th = String::from_str("🧵 Threads: ");
    push_u64(&mut th, shown as u64);
    let lines = vec![
        String::from_str("🚀 Starting knowledge graph indexing..."),
        ws,
        th,
        String::from_str("🔍 Initializing workspace manager..."),
        String::from_str("📚 Discovering and registering workspace..."),
    ];
    proof {
        assert(texts_of(lines@) =~= opening_texts(workspace@, shown));
    }
    lines
}

/// The opening lines of a run over `workspace` with `threads` threads
/// configured: the threads shown are `threads`, or for 0 the machine's
/// core count (at least one).
pub fn opening_lines(workspace: &str, threads: usize) -> (lines: Vec<String>)
    ensures
        exists|n: usize| {
            &&& (threads > 0 ==> n == threads)
            &&& (threads == 0 ==> n >= 1)
            &&& texts_of(lines@) == opening_texts(workspace@, n)
        },
{
    let n = threads_shown(threads);
    opening_lines_with(workspace, n)
}

/// The line that reports how many repositories the workspace holds.
pub open spec fn found_text(project_count: usize) -> Seq<char> {
    "📚 Found "@ + decimal_text(project_count as nat) + " repositories in workspace"@
}

/// The line that reports how many repositories the workspace holds.
pub fn found_line(project_count: usize) -> (line: String)
    ensures
        line@ == found_text(project_count),
{
    let mut line = String::from_str("📚 Found ");
    push_u64(&mut line, project_count as u64);
    line.append(" repositories in workspace");
    line
}

/// The line that says the workspace holds no repository.
pub open spec fn no_repositories_text() -> Seq<char> {
    "ℹ️ No repositories found in workspace"@
}

/// Whether a discovery of `project_count` repositories ends the run
/// before any indexing, and the line it reports then.
pub fn discovery_outcome(project_count: usize) -> (r: Option<String>)
    ensures
        match r {
            Some(line) => project_count == 0 && line@ == no_repositories_text(),
            None => project_count > 0,
        },
{
    if project_count == 0 {
        Some(String::from_str("ℹ️ No repositories found in workspace"))
    } else {
        None
    }
}

/// The run of the client indexer over a workspace so far: how many
/// repositories there are and have been indexed, the files counted, and
/// the failures of files met.
pub struct ClientRun {
    pub projects_total: usize,
    pub repositories_processed: usize,
    pub files_processed: usize,
    pub files_skipped: usize,
    pub files_errored: usize,
    pub errors: Vec<(String, String)>,
}

/// What indexing one repository of the workspace gave.
pub enum ClientEvent {
    /// Indexed: the files processed, skipped and in error, the time it
    /// took, and the failures of files.
    Indexed {
        files_processed: usize,
        files_skipped: usize,
        files_errored: usize,
        processing_time: ElapsedTime,
        errors: Vec<(String, String)>,
    },
    /// Indexing failed with this message; the run carries on.
    Failed(String),
}

/// The line that reports a repository indexed.
pub open spec fn completed_text(done: usize, total: usize, p: usize, s: usize, e: usize, t: ElapsedTime) -> Seq<char> {
    "  ✅ Completed repository "@ + decimal_text(done as nat) + "/"@ + decimal_text(total as nat) + ": "@
        + decimal_text(p as nat) + " processed, "@ + decimal_text(s as nat) + " skipped, "@
        + decimal_text(e as nat) + " errors in "@ + duration_debug_text(t.secs, t.nanos)
}

/// The run after the outcome of one repository, and the lines it
/// reports: an indexed repository is counted, its files added to the
/// totals and its failures kept, and it reports the completed line and its
/// errors; a failed one changes nothing and reports nothing.
pub open spec fn client_step_holds(old_run: ClientRun, event: ClientEvent, new_run: ClientRun, lines: Seq<Seq<char>>) -> bool {
    match event {
        ClientEvent::Indexed { files_processed, files_skipped, files_errored, processing_time, errors } => {
            &&& new_run.projects_total == old_run.projects_total
            &&& new_run.repositories_processed == old_run.repositories_processed + 1
            &&& new_run.files_processed == old_run.files_processed + files_processed
            &&& new_run.files_skipped == old_run.files_skipped + files_skipped
            &&& new_run.files_errored == old_run.files_errored + files_errored
            &&& new_run.errors@ == old_run.errors@ + errors@
            &&& lines == seq![completed_text(
                new_run.repositories_processed,
                old_run.projects_total,
                files_processed,
                files_skipped,
                files_errored,
                processing_time,
            )] + repository_error_texts(errors@)
        },
        ClientEvent::Failed(_) => {
            &&& new_run.projects_total == old_run.projects_total
            &&& new_run.repositories_processed == old_run.repositories_processed
            &&& new_run.files_processed == old_run.files_processed
            &&& new_run.files_skipped == old_run.files_skipped
            &&& new_run.files_errored == old_run.files_errored
            &&& new_run.errors@ == old_run.errors@
            &&& lines.len() == 0
        },
    }
}

/// A run of `projects_total` repositories, none indexed yet.
pub fn client_run(projects_total: usize) -> (r: ClientRun)
    ensures
        r.projects_total == projects_total,
        r.repositories_processed == 0,
        r.files_processed == 0,
        r.files_skipped == 0,
        r.files_errored == 0,
        r.errors@.len() == 0,
{
    ClientRun {
        projects_total,
        repositories_processed: 0,
        files_processed: 0,
        files_skipped: 0,
        files_errored: 0,
        errors: Vec::new(),
    }
}

/// Takes the outcome of one repository into the run, as
/// `client_step_holds` states.
pub fn client_step(run: ClientRun, event: ClientEvent) -> (r: (ClientRun, Vec<String>))
    requires
        run.repositories_processed < usize::MAX,
        event matches ClientEvent::Indexed { files_processed, files_skipped, files_errored, processing_time, .. } ==> {
            &&& run.files_processed + files_processed <= usize::MAX
            &&& run.files_skipped + files_skipped <= usize::MAX
            &&& run.files_errored + files_errored <= usize::MAX
            &&& processing_time.wf()
        },
    ensures
        client_step_holds(run, event, r.0, texts_of(r.1@)),
{
    let ghost old_run = run;
    let ghost ev = event;
    match event {
        ClientEvent::Indexed { files_processed, files_skipped, files_errored, processing_time, errors } => {
            let mut run = run;
            run.repositories_processed = run.repositories_processed + 1;
            run.files_processed = run.files_processed + files_processed;
            run.files_skipped = run.files_skipped + files_skipped;
            run.files_errored = run.files_errored + files_errored;
            let mut line = String::from_str("  ✅ Completed repository ");
            push_u64(&mut line, run.repositories_processed as u64);
            line.append("/");
            push_u64(&mut line, run.projects_total as u64);
            line.append(": ");
            push_u64(&mut line, files_processed as u64);
            line.append(" processed, ");
            push_u64(&mut line, files_skipped as u64);
            line.append(" skipped, ");
            push_u64(&mut line, files_errored as u64);
            line.append(" errors in ");
            let d = duration_debug(processing_time.secs, processing_time.nanos);
            line.append(d.as_str());
            let mut lines: Vec<String> = vec![line];
            let mut error_report = repository_error_lines(&errors);
            let ghost head = lines@;
            let ghost tail = error_report@;
            lines.append(&mut error_report);
            let ghost before_errors = run.errors@;
            let mut errors = errors;
            let ghost added = errors@;
            run.errors.append(&mut errors);
            proof {
                assert(texts_of(lines@) =~= texts_of(head) + texts_of(tail));
                assert(texts_of(head) =~= seq![line@]);
            }
            (run, lines)
        },
        ClientEvent::Failed(_) => {
            let lines: Vec<String> = Vec::new();
            proof {
                assert(texts_of(lines@) =~= Seq::<Seq<char>>::empty());
            }
            (run, lines)
        },
    }
}

/// The lines that end a run: the summary of the counts, then the errors
/// of files when there are some and no more than ten.
pub fn client_summary(run: &ClientRun) -> (lines: Vec<String>)
    ensures
        texts_of(lines@) == summary_texts(run.repositories_processed, run.files_processed, run.files_skipped, run.files_errored)
            + recent_error_texts(run.errors@),
{
    let mut lines = summary_lines(run.repositories_processed, run.files_processed, run.files_skipped, run.files_errored);
    let mut recent = recent_error_lines(&run.errors);
    let ghost head = lines@;
    let ghost tail = recent@;
    lines.append(&mut recent);
    proof {
        assert(texts_of(lines@) =~= texts_of(head) + texts_of(tail));
    }
    lines
}

} // verus!
