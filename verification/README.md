# knowledge_indexer

The verified core of an indexer that turns a code repository into a
knowledge graph: directories, files, definitions and imported symbols as
nodes, and the relationships between them as edges, exported to columnar
files and loaded into a graph database.

`src/` is checked by Verus. Each public function states in its contract
what it returns; the proof functions named `lemma_*` state properties that
span several calls (an identifier assigned once is found again, a
definition filed is found by its key, and so on).

- `analysis/`: the rules that turn parsed definitions and imports of each
  language into graph nodes and relationships, the maps they are filed in,
  the file tree, and the statistics of an analysis.
- `mutation/`, `id_table.rs`, `graph.rs`: numbering of nodes and the
  consolidation of relationships into per-table lists.
- `database/`: schema statements, import plans and query text for the
  graph database.
- `indexer.rs`, `repository.rs`, `parsing/`, `project/`, `stats.rs`,
  `runner.rs`, `execution/`: the decisions of an indexing run: which files
  are indexed, worker counts, outcomes of each file, the collection of
  results, cancellation, and what a run reports.
- `writer.rs`: what an export writes and reports.
- `paths.rs`, `text*.rs`, `count_table.rs`, `seq_util.rs`: verified helpers.

`app/` holds what the verifier does not see: file and thread handling,
the drivers of a repository and of a workspace run (the workspace service
is handed in), columnar file writing, and serializable copies of the graph
nodes.
