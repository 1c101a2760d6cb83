//! The schema of the graph database: its node and relationship tables, the
//! statements that create them, and which exported files are imported how.

use vstd::prelude::*;
use crate::paths::{join_path, joined_path};
use crate::text::{decimal_text, join_strings, join_texts, push_u64, texts_of};

verus! {

/// Column types of the graph database.
#[derive(Debug, Clone, Copy, PartialEq, Eq, Structural)]
pub enum KuzuDataType {
    String,
    Int32,
    Int64,
    UInt32,
    UInt8,
    Float,
    Double,
    Boolean,
    Date,
    Timestamp,
    StringArray,
    Int64Array,
}

/// The name of a column type in statements.
pub open spec fn type_text(t: KuzuDataType) -> Seq<char> {
    match t {
        KuzuDataType::String => "STRING"@,
        KuzuDataType::Int32 => "INT32"@,
        KuzuDataType::Int64 => "INT64"@,
        KuzuDataType::UInt32 => "UINT32"@,
        KuzuDataType::UInt8 => "UINT8"@,
        KuzuDataType::Float => "FLOAT"@,
        KuzuDataType::Double => "DOUBLE"@,
        KuzuDataType::Boolean => "BOOLEAN"@,
        KuzuDataType::Date => "DATE"@,
        KuzuDataType::Timestamp => "TIMESTAMP"@,
        KuzuDataType::StringArray => "STRING[]"@,
        KuzuDataType::Int64Array => "INT64[]"@,
    }
}

impl KuzuDataType {
    /// The name of the type in statements.
    pub fn as_str(&self) -> (s: &'static str)
        ensures
            s@ == type_text(*self),
    {
        match self {
            KuzuDataType::String => "STRING",
            KuzuDataType::Int32 => "INT32",
            KuzuDataType::Int64 => "INT64",
            KuzuDataType::UInt32 => "UINT32",
            KuzuDataType::UInt8 => "UINT8",
            KuzuDataType::Float => "FLOAT",
            KuzuDataType::Double => "DOUBLE",
            KuzuDataType::Boolean => "BOOLEAN",
            KuzuDataType::Date => "DATE",
            KuzuDataType::Timestamp => "TIMESTAMP",
            KuzuDataType::StringArray => "STRING[]",
            KuzuDataType::Int64Array => "INT64[]",
        }
    }
}

/// A column of a table.
#[derive(Debug, Clone)]
pub struct ColumnDefinition {
    pub name: String,
    pub data_type: KuzuDataType,
    pub is_primary_key: bool,
}

/// A column by value: name, type and whether it is the primary key.
pub type ColumnView = (Seq<char>, KuzuDataType, bool);

pub open spec fn column_view(c: ColumnDefinition) -> ColumnView {
    (c.name@, c.data_type, c.is_primary_key)
}

pub open spec fn columns_view(cs: Seq<ColumnDefinition>) -> Seq<ColumnView> {
    cs.map_values(|c: ColumnDefinition| column_view(c))
}

/// A node table.
#[derive(Debug, Clone)]
pub struct NodeTable {
    pub name: String,
    pub columns: Vec<ColumnDefinition>,
    pub primary_key: String,
}

/// A relationship table: either one pair of end tables or a list of pairs.
#[derive(Debug, Clone)]
pub struct RelationshipTable {
    pub name: String,
    pub from_table: Option<String>,
    pub to_table: Option<String>,
    pub columns: Vec<ColumnDefinition>,
    pub from_to_pairs: Option<Vec<(String, String)>>,
}

/// Errors of the database layer.
#[derive(Debug, Clone)]
pub enum DatabaseError {
    /// The schema or the database could not be set up.
    InitializationFailed(String),
    /// A file or directory that was needed is not there.
    NotFound(String),
}

/// A column in a node table statement: name, type, and the primary-key mark.
pub open spec fn node_column_text(c: ColumnView) -> Seq<char> {
    c.0 + " "@ + type_text(c.1) + (if c.2 { " PRIMARY KEY"@ } else { Seq::<char>::empty() })
}

/// A column in a relationship table statement: name and type.
pub open spec fn rel_column_text(c: ColumnView) -> Seq<char> {
    c.0 + " "@ + type_text(c.1)
}

/// The statement that creates a node table.
pub open spec fn node_table_text(name: Seq<char>, cols: Seq<ColumnView>) -> Seq<char> {
    "CREATE NODE TABLE IF NOT EXISTS "@ + name + " ("@
        + join_texts(cols.map_values(|c: ColumnView| node_column_text(c)), ", "@) + ")"@
}

/// One end-table clause of a relationship table.
pub open spec fn from_to_text(from: Seq<char>, to: Seq<char>) -> Seq<char> {
    "FROM "@ + from + " TO "@ + to
}

/// The end-table clauses of a relationship table: its list of pairs if it
/// has one, else its single pair; none if it has neither.
pub open spec fn endpoints_text(t: RelationshipTable) -> Option<Seq<char>> {
    match t.from_to_pairs {
        Some(pairs) => Some(
            join_texts(pairs@.map_values(|p: (String, String)| from_to_text(p.0@, p.1@)), ", "@),
        ),
        None => match (t.from_table, t.to_table) {
            (Some(f), Some(to)) => Some(from_to_text(f@, to@)),
            _ => None,
        },
    }
}

/// The statement that creates a relationship table, if its end tables are given.
pub open spec fn rel_table_text(t: RelationshipTable) -> Option<Seq<char>> {
    match endpoints_text(t) {
        Some(ends) => {
            let cols = columns_view(t.columns@);
            Some(
                "CREATE REL TABLE IF NOT EXISTS "@ + t.name@ + " ("@ + ends
                    + (if cols.len() > 0 {
                        ", "@ + join_texts(cols.map_values(|c: ColumnView| rel_column_text(c)), ", "@)
                    } else {
                        Seq::<char>::empty()
                    }) + ")"@,
            )
        },
        None => None,
    }
}

/// The message for a relationship table without end tables.
pub open spec fn missing_ends_text(name: Seq<char>) -> Seq<char> {
    "RelationshipTable "@ + name + " must have either from_to_pairs or both from_table and to_table specified"@
}

/// The columns of the directory table.
pub open spec fn directory_columns() -> Seq<ColumnView> {
    seq![
        ("id"@, KuzuDataType::UInt32, true),
        ("path"@, KuzuDataType::String, false),
        ("absolute_path"@, KuzuDataType::String, false),
        ("repository_name"@, KuzuDataType::String, false),
        ("name"@, KuzuDataType::String, false),
    ]
}

/// The columns of the file table.
pub open spec fn file_columns() -> Seq<ColumnView> {
    seq![
        ("id"@, KuzuDataType::UInt32, true),
        ("path"@, KuzuDataType::String, false),
        ("absolute_path"@, KuzuDataType::String, false),
        ("language"@, KuzuDataType::String, false),
        ("repository_name"@, KuzuDataType::String, false),
        ("extension"@, KuzuDataType::String, false),
        ("name"@, KuzuDataType::String, false),
    ]
}

/// The columns of the definition table (one row per fully qualified name).
pub open spec fn definition_columns() -> Seq<ColumnView> {
    seq![
        ("id"@, KuzuDataType::UInt32, true),
        ("fqn"@, KuzuDataType::String, false),
        ("name"@, KuzuDataType::String, false),
        ("definition_type"@, KuzuDataType::String, false),
        ("primary_file_path"@, KuzuDataType::String, false),
        ("primary_start_byte"@, KuzuDataType::Int64, false),
        ("primary_end_byte"@, KuzuDataType::Int64, false),
        ("primary_line_number"@, KuzuDataType::Int32, false),
        ("total_locations"@, KuzuDataType::Int32, false),
    ]
}

/// A node table by value: name, columns and primary key.
pub open spec fn node_table_view(t: NodeTable) -> (Seq<char>, Seq<ColumnView>, Seq<char>) {
    (t.name@, columns_view(t.columns@), t.primary_key@)
}

/// The node tables of the schema: directories, files and definitions,
/// each keyed by `id`.
pub open spec fn schema_node_tables() -> Seq<(Seq<char>, Seq<ColumnView>, Seq<char>)> {
    seq![
        ("DirectoryNode"@, directory_columns(), "id"@),
        ("FileNode"@, file_columns(), "id"@),
        ("DefinitionNode"@, definition_columns(), "id"@),
    ]
}

/// The statements that create the relationship tables: directories to
/// directories and files, files to definitions, definitions to definitions,
/// each with a `type` code column.
pub open spec fn schema_relationship_statements() -> Seq<Seq<char>> {
    seq![
        "CREATE REL TABLE IF NOT EXISTS DIRECTORY_RELATIONSHIPS (FROM DirectoryNode TO DirectoryNode, FROM DirectoryNode TO FileNode, type UINT8)"@,
        "CREATE REL TABLE IF NOT EXISTS FILE_RELATIONSHIPS (FROM FileNode TO DefinitionNode, type UINT8)"@,
        "CREATE REL TABLE IF NOT EXISTS DEFINITION_RELATIONSHIPS (FROM DefinitionNode TO DefinitionNode, type UINT8)"@,
    ]
}

/// The statements that create the node tables.
pub open spec fn schema_node_statements() -> Seq<Seq<char>> {
    schema_node_tables().map_values(|t: (Seq<char>, Seq<ColumnView>, Seq<char>)| node_table_text(t.0, t.1))
}

/// The tables whose presence shows that the schema exists.
pub open spec fn required_tables() -> Seq<Seq<char>> {
    seq!["DirectoryNode"@, "FileNode"@, "DefinitionNode"@]
}

/// Whether every required table is among `names`.
pub open spec fn schema_present(names: Seq<Seq<char>>) -> bool {
    forall|i: int| 0 <= i < required_tables().len() ==> names.contains(#[trigger] required_tables()[i])
}

fn column(name: &str, data_type: KuzuDataType, is_primary_key: bool) -> (c: ColumnDefinition)
    ensures
        column_view(c) == (name@, data_type, is_primary_key),
{
    ColumnDefinition { name: String::from_str(name), data_type, is_primary_key }
}

/// How the relationship files are imported.
#[derive(Debug, Clone, Copy, PartialEq, Eq, Structural)]
pub enum SchemaManagerImportMode {
    Indexing,
    Reindexing,
}

/// What happens to one exported relationship file at import.
#[derive(Debug, Clone, Copy, PartialEq, Eq, Structural)]
pub enum RelationshipImportAction {
    /// Import it; a failure is reported and the import goes on.
    ImportTolerant,
    /// Import it; a failure ends the import.
    ImportRequired,
    /// Leave it: it is not there, which is in order.
    Skip,
    /// End the import: a file that must be there is missing.
    Fail,
}

/// The relationship files in the order they are imported.
pub open spec fn schema_relationship_files() -> Seq<(Seq<char>, Seq<char>, Seq<char>, Seq<char>, bool)> {
    seq![
        ("DIRECTORY_RELATIONSHIPS"@, "directory_to_directory_relationships.parquet"@, "DirectoryNode"@, "DirectoryNode"@, false),
        ("DIRECTORY_RELATIONSHIPS"@, "directory_to_file_relationships.parquet"@, "DirectoryNode"@, "FileNode"@, false),
        ("FILE_RELATIONSHIPS"@, "file_relationships.parquet"@, "FileNode"@, "DefinitionNode"@, true),
        ("DEFINITION_RELATIONSHIPS"@, "definition_relationships.parquet"@, "DefinitionNode"@, "DefinitionNode"@, true),
    ]
}

/// What happens to a relationship file: the directory files are imported
/// when present and their failures tolerated; the others are imported when
/// present, and when missing they are skipped on reindexing and end the
/// import otherwise.
pub open spec fn import_action(mode: SchemaManagerImportMode, required: bool, exists: bool) -> RelationshipImportAction {
    if !required {
        if exists { RelationshipImportAction::ImportTolerant } else { RelationshipImportAction::Skip }
    } else if exists {
        RelationshipImportAction::ImportRequired
    } else if mode == SchemaManagerImportMode::Reindexing {
        RelationshipImportAction::Skip
    } else {
        RelationshipImportAction::Fail
    }
}

/// Node data files and the tables they fill, in import order.
pub open spec fn schema_node_files() -> Seq<(Seq<char>, Seq<char>)> {
    seq![
        ("DirectoryNode"@, "directories.parquet"@),
        ("FileNode"@, "files.parquet"@),
        ("DefinitionNode"@, "definitions.parquet"@),
    ]
}


/// One step of importing exported data: the table, the file, the end
/// tables of relationship rows, and what to do.
pub struct ImportStep {
    pub table_name: String,
    pub file_path: String,
    pub from_table: Option<String>,
    pub to_table: Option<String>,
    pub action: RelationshipImportAction,
}

/// A step by value.
pub type StepView = (Seq<char>, Seq<char>, Option<Seq<char>>, Option<Seq<char>>, RelationshipImportAction);

pub open spec fn opt_text(o: Option<String>) -> Option<Seq<char>> {
    match o {
        Some(s) => Some(s@),
        None => None,
    }
}

pub open spec fn step_view(s: ImportStep) -> StepView {
    (s.table_name@, s.file_path@, opt_text(s.from_table), opt_text(s.to_table), s.action)
}

/// The step for node file `k`: imported when present, skipped when not.
pub open spec fn node_step(dir: Seq<char>, k: int, exists: bool) -> StepView {
    let f = schema_node_files()[k];
    (
        f.0,
        joined_path(dir, f.1),
        None,
        None,
        if exists { RelationshipImportAction::ImportRequired } else { RelationshipImportAction::Skip },
    )
}

/// The step for relationship file `k`.
pub open spec fn relationship_step(dir: Seq<char>, mode: SchemaManagerImportMode, k: int, exists: bool) -> StepView {
    let f = schema_relationship_files()[k];
    (f.0, joined_path(dir, f.1), Some(f.2), Some(f.3), import_action(mode, f.4, exists))
}

/// The steps of an import from `dir`: the node files, then the
/// relationship files up to and including the first that ends the import.
pub open spec fn import_steps_view(
    dir: Seq<char>,
    mode: SchemaManagerImportMode,
    node_exists: Seq<bool>,
    rel_exists: Seq<bool>,
) -> Seq<StepView> {
    let nodes = seq![node_step(dir, 0, node_exists[0]), node_step(dir, 1, node_exists[1]), node_step(dir, 2, node_exists[2])];
    let rels = seq![
        relationship_step(dir, mode, 0, rel_exists[0]),
        relationship_step(dir, mode, 1, rel_exists[1]),
        relationship_step(dir, mode, 2, rel_exists[2]),
        relationship_step(dir, mode, 3, rel_exists[3]),
    ];
    nodes + (if rels[2].4 == RelationshipImportAction::Fail { rels.take(3) } else { rels })
}

/// The message of a missing relationship file.
pub open spec fn missing_file_text(path: Seq<char>) -> Seq<char> {
    "Relationship file not found: "@ + path
}

/// The message of a missing export directory.
pub open spec fn missing_dir_text(dir: Seq<char>) -> Seq<char> {
    "Parquet directory not found: "@ + dir
}

/// Counts that describe the database.
#[derive(Debug, Clone)]
pub struct SchemaStats {
    pub total_tables: usize,
    pub node_tables: usize,
    pub relationship_tables: usize,
    pub total_nodes: usize,
    pub total_relationships: usize,
    pub table_names: Vec<String>,
}

/// The report of the schema counts.
pub open spec fn schema_stats_text(s: SchemaStats) -> Seq<char> {
    "Schema Stats: "@ + decimal_text(s.total_tables as nat) + " tables ("@ + decimal_text(s.node_tables as nat)
        + " node, "@ + decimal_text(s.relationship_tables as nat) + " rel), "@ + decimal_text(s.total_nodes as nat)
        + " nodes, "@ + decimal_text(s.total_relationships as nat) + " relationships\nTables: "@
        + join_texts(texts_of(s.table_names@), ", "@)
}

impl SchemaStats {
    /// The report of the counts, one line of numbers and one of table names.
    pub fn to_string(&self) -> (r: String)
        ensures
            r@ == schema_stats_text(*self),
    {
        let mut out = String::from_str("Schema Stats: ");
        push_u64(&mut out, self.total_tables as u64);
        out.append(" tables (");
        push_u64(&mut out, self.node_tables as u64);
        out.append(" node, ");
        push_u64(&mut out, self.relationship_tables as u64);
        out.append(" rel), ");
        push_u64(&mut out, self.total_nodes as u64);
        out.append(" nodes, ");
        push_u64(&mut out, self.total_relationships as u64);
        out.append(" relationships\nTables: ");
        let names = join_strings(&self.table_names, ", ");
        out.append(names.as_str());
        out
    }
}

/// Creates the schema and decides how exported data is imported.
pub struct SchemaManager;

impl SchemaManager {
    pub fn new() -> (m: Self) {
        SchemaManager
    }

    /// Whether every table that marks an existing schema is among `table_names`.
    pub fn schema_exists(&self, table_names: &Vec<String>) -> (r: bool)
        ensures
            r == schema_present(texts_of(table_names@)),
    {
        let required = vec!["DirectoryNode", "FileNode", "DefinitionNode"];
        let mut k: usize = 0;
        while k < required.len()
            invariant
                k <= 3,
                required@.len() == 3,
                forall|j: int| 0 <= j < 3 ==> (#[trigger] required@[j])@ == required_tables()[j],
                forall|j: int| 0 <= j < k ==> texts_of(table_names@).contains(#[trigger] required_tables()[j]),
            decreases 3 - k,
        {
            let mut found = false;
            let mut i: usize = 0;
            while i < table_names.len()
                invariant
                    k < 3,
                    required@.len() == 3,
                    i <= table_names@.len(),
                    found ==> texts_of(table_names@).contains(required_tables()[k as int]),
                    !found ==> forall|j: int| 0 <= j < i ==> table_names@[j]@ != required_tables()[k as int],
                    forall|j: int| 0 <= j < 3 ==> (#[trigger] required@[j])@ == required_tables()[j],
                decreases table_names@.len() - i,
            {
                if !found && crate::text::str_eq(table_names[i].as_str(), required[k]) {
                    found = true;
                    assert(texts_of(table_names@)[i as int] == required_tables()[k as int]);
                }
                i = i + 1;
            }
            if !found {
                proof {
                    assert forall|j: int| 0 <= j < texts_of(table_names@).len() implies texts_of(table_names@)[j]
                        != required_tables()[k as int] by {
                        assert(texts_of(table_names@)[j] == table_names@[j]@);
                    }
                    assert(!texts_of(table_names@).contains(required_tables()[k as int]));
                    assert(!schema_present(texts_of(table_names@)));
                }
                return false;
            }
            k = k + 1;
        }
        true
    }

    /// The statements that create the schema: node tables, then
    /// relationship tables.
    pub fn schema_statements(&self) -> (r: Vec<String>)
        ensures
            texts_of(r@) == schema_node_statements() + schema_relationship_statements(),
    {
        let nodes = self.node_tables();
        let rels = self.relationship_tables();
        let mut out: Vec<String> = Vec::new();
        let mut i: usize = 0;
        assert(nodes@.len() == nodes@.map_values(|t: NodeTable| node_table_view(t)).len());
        while i < nodes.len()
            invariant
                nodes@.map_values(|t: NodeTable| node_table_view(t)) == schema_node_tables(),
                nodes@.len() == 3,
                schema_node_statements().len() == 3,
                i <= nodes@.len(),
                texts_of(out@) == schema_node_statements().take(i as int),
            decreases nodes@.len() - i,
        {
            let s = self.node_table_statement(&nodes[i]);
            let ghost before = out@;
            out.push(s);
            proof {
                assert(node_table_view(nodes@[i as int]) == schema_node_tables()[i as int]);
                assert(s@ == schema_node_statements()[i as int]);
                assert(texts_of(out@) =~= texts_of(before).push(s@));
                assert(schema_node_statements().take(i + 1) =~= schema_node_statements().take(i as int).push(schema_node_statements()[i as int]));
                assert(texts_of(out@) =~= schema_node_statements().take(i + 1));
            }
            i = i + 1;
        }
        let mut j: usize = 0;
        while j < rels.len()
            invariant
                rels@.len() == 3,
                forall|k: int| 0 <= k < 3 ==> rel_table_text(#[trigger] rels@[k]) == Some(schema_relationship_statements()[k]),
                j <= 3,
                schema_node_statements().len() == 3,
                texts_of(out@) == schema_node_statements() + schema_relationship_statements().take(j as int),
            decreases 3 - j,
        {
            match self.relationship_table_statement(&rels[j]) {
                Ok(s) => {
                    let ghost before = out@;
                    out.push(s);
                    proof {
                        assert(s@ == schema_relationship_statements()[j as int]);
                        assert(texts_of(out@) =~= texts_of(before).push(s@));
                        assert(texts_of(out@) =~= schema_node_statements() + schema_relationship_statements().take(j + 1));
                    }
                },
                Err(_) => {
                    proof {
                        assert(rel_table_text(rels@[j as int]) is Some);
                    }
                },
            }
            j = j + 1;
        }
        assert(schema_relationship_statements().take(3) =~= schema_relationship_statements());
        out
    }

    /// The statements to run against a database that has the tables
    /// `existing_tables`: none when the schema is there, else the whole schema.
    pub fn initialize_schema(&self, existing_tables: &Vec<String>) -> (r: Vec<String>)
        ensures
            texts_of(r@) == (if schema_present(texts_of(existing_tables@)) {
                Seq::<Seq<char>>::empty()
            } else {
                schema_node_statements() + schema_relationship_statements()
            }),
    {
        if self.schema_exists(existing_tables) {
            let v: Vec<String> = Vec::new();
            assert(texts_of(v@) =~= Seq::<Seq<char>>::empty());
            v
        } else {
            self.schema_statements()
        }
    }

    /// The names of the node files, in import order.
    pub fn node_file_names(&self) -> (v: Vec<String>)
        ensures
            texts_of(v@) == schema_node_files().map_values(|f: (Seq<char>, Seq<char>)| f.1),
    {
        let v = vec![
            String::from_str("directories.parquet"),
            String::from_str("files.parquet"),
            String::from_str("definitions.parquet"),
        ];
        proof {
            assert(texts_of(v@) =~= schema_node_files().map_values(|f: (Seq<char>, Seq<char>)| f.1));
        }
        v
    }

    /// The names of the relationship files, in import order.
    pub fn relationship_file_names(&self) -> (v: Vec<String>)
        ensures
            texts_of(v@) == schema_relationship_files().map_values(
                |f: (Seq<char>, Seq<char>, Seq<char>, Seq<char>, bool)| f.1,
            ),
    {
        let v = vec![
            String::from_str("directory_to_directory_relationships.parquet"),
            String::from_str("directory_to_file_relationships.parquet"),
            String::from_str("file_relationships.parquet"),
            String::from_str("definition_relationships.parquet"),
        ];
        proof {
            assert(texts_of(v@) =~= schema_relationship_files().map_values(
                |f: (Seq<char>, Seq<char>, Seq<char>, Seq<char>, bool)| f.1,
            ));
        }
        v
    }

    /// The steps of importing the files exported to `parquet_dir`, given
    /// which of the node files and relationship files are present (in the
    /// orders of `schema_node_files` and `schema_relationship_files`); an
    /// error when the directory is missing. A `Fail` step carries the
    /// missing file's path, and ends the list.
    pub fn import_graph_data(
        &self,
        parquet_dir: &str,
        dir_exists: bool,
        node_exists: &Vec<bool>,
        rel_exists: &Vec<bool>,
        mode: SchemaManagerImportMode,
    ) -> (r: Result<Vec<ImportStep>, DatabaseError>)
        requires
            node_exists@.len() == 3,
            rel_exists@.len() == 4,
        ensures
            match r {
                Ok(steps) => dir_exists && steps@.map_values(|s: ImportStep| step_view(s))
                    == import_steps_view(parquet_dir@, mode, node_exists@, rel_exists@),
                Err(e) => !dir_exists && (e matches DatabaseError::NotFound(m) && m@ == missing_dir_text(parquet_dir@)),
            },
    {
        if !dir_exists {
            let mut m = String::from_str("Parquet directory not found: ");
            m.append(parquet_dir);
            return Err(DatabaseError::NotFound(m));
        }
        let node_files = vec![("DirectoryNode", "directories.parquet"), ("FileNode", "files.parquet"), ("DefinitionNode", "definitions.parquet")];
        let rel_files = vec![
            ("DIRECTORY_RELATIONSHIPS", "directory_to_directory_relationships.parquet", "DirectoryNode", "DirectoryNode", false),
            ("DIRECTORY_RELATIONSHIPS", "directory_to_file_relationships.parquet", "DirectoryNode", "FileNode", false),
            ("FILE_RELATIONSHIPS", "file_relationships.parquet", "FileNode", "DefinitionNode", true),
            ("DEFINITION_RELATIONSHIPS", "definition_relationships.parquet", "DefinitionNode", "DefinitionNode", true),
        ];
        let ghost expected = import_steps_view(parquet_dir@, mode, node_exists@, rel_exists@);
        let ghost node_part = seq![
            node_step(parquet_dir@, 0, node_exists@[0]),
            node_step(parquet_dir@, 1, node_exists@[1]),
            node_step(parquet_dir@, 2, node_exists@[2]),
        ];
        let ghost rel_part = seq![
            relationship_step(parquet_dir@, mode, 0, rel_exists@[0]),
            relationship_step(parquet_dir@, mode, 1, rel_exists@[1]),
            relationship_step(parquet_dir@, mode, 2, rel_exists@[2]),
            relationship_step(parquet_dir@, mode, 3, rel_exists@[3]),
        ];
        assert(expected == node_part + (if rel_part[2].4 == RelationshipImportAction::Fail { rel_part.take(3) } else { rel_part }));
        assert(Seq::new(3, |j: int| node_step(parquet_dir@, j, node_exists@[j])) =~= node_part);
        let mut steps: Vec<ImportStep> = Vec::new();
        let mut k: usize = 0;
        while k < 3
            invariant
                node_files@.len() == 3,
                node_exists@.len() == 3,
                forall|j: int| 0 <= j < 3 ==> (#[trigger] node_files@[j]).0@ == schema_node_files()[j].0
                    && node_files@[j].1@ == schema_node_files()[j].1,
                k <= 3,
                steps@.map_values(|s: ImportStep| step_view(s))
                    == Seq::new(k as nat, |j: int| node_step(parquet_dir@, j, node_exists@[j])),
            decreases 3 - k,
        {
            let action = if node_exists[k] { RelationshipImportAction::ImportRequired } else { RelationshipImportAction::Skip };
            let step = ImportStep {
                table_name: String::from_str(node_files[k].0),
                file_path: join_path(parquet_dir, node_files[k].1),
                from_table: None,
                to_table: None,
                action,
            };
            let ghost before = steps@;
            proof {
                assert(node_files@[k as int].0@ == schema_node_files()[k as int].0);
                assert(step_view(step) == node_step(parquet_dir@, k as int, node_exists@[k as int]));
            }
            steps.push(step);
            proof {
                assert(steps@.map_values(|s: ImportStep| step_view(s))
                    =~= before.map_values(|s: ImportStep| step_view(s)).push(step_view(step)));
                assert(steps@.map_values(|s: ImportStep| step_view(s))
                    =~= Seq::new((k + 1) as nat, |j: int| node_step(parquet_dir@, j, node_exists@[j])));
            }
            k = k + 1;
        }
        let mut q: usize = 0;
        while q < 4
            invariant
                dir_exists,
                rel_files@.len() == 4,
                rel_exists@.len() == 4,
                node_exists@.len() == 3,
                forall|j: int| 0 <= j < 4 ==> (#[trigger] rel_files@[j]).0@ == schema_relationship_files()[j].0
                    && rel_files@[j].1@ == schema_relationship_files()[j].1
                    && rel_files@[j].2@ == schema_relationship_files()[j].2
                    && rel_files@[j].3@ == schema_relationship_files()[j].3
                    && rel_files@[j].4 == schema_relationship_files()[j].4,
                q <= 4,
                q >= 3 ==> import_action(mode, true, rel_exists@[2]) != RelationshipImportAction::Fail,
                rel_part == seq![
                    relationship_step(parquet_dir@, mode, 0, rel_exists@[0]),
                    relationship_step(parquet_dir@, mode, 1, rel_exists@[1]),
                    relationship_step(parquet_dir@, mode, 2, rel_exists@[2]),
                    relationship_step(parquet_dir@, mode, 3, rel_exists@[3]),
                ],
                node_part == Seq::new(3, |j: int| node_step(parquet_dir@, j, node_exists@[j])),
                expected == node_part + (if rel_part[2].4 == RelationshipImportAction::Fail { rel_part.take(3) } else { rel_part }),
                steps@.map_values(|s: ImportStep| step_view(s))
                    == Seq::new(3, |j: int| node_step(parquet_dir@, j, node_exists@[j]))
                    + Seq::new(q as nat, |j: int| relationship_step(parquet_dir@, mode, j, rel_exists@[j])),
            decreases 4 - q,
        {
            let f = rel_files[q];
            let action = self.relationship_import_action(mode, f.4, rel_exists[q]);
            let step = ImportStep {
                table_name: String::from_str(f.0),
                file_path: join_path(parquet_dir, f.1),
                from_table: Some(String::from_str(f.2)),
                to_table: Some(String::from_str(f.3)),
                action,
            };
            let ghost before = steps@;
            proof {
                assert(rel_files@[q as int].0@ == schema_relationship_files()[q as int].0);
                assert(step_view(step) == relationship_step(parquet_dir@, mode, q as int, rel_exists@[q as int]));
            }
            steps.push(step);
            proof {
                assert(steps@.map_values(|s: ImportStep| step_view(s))
                    =~= before.map_values(|s: ImportStep| step_view(s)).push(step_view(step)));
                assert(steps@.map_values(|s: ImportStep| step_view(s))
                    =~= Seq::new(3, |j: int| node_step(parquet_dir@, j, node_exists@[j]))
                    + Seq::new((q + 1) as nat, |j: int| relationship_step(parquet_dir@, mode, j, rel_exists@[j])));
            }
            let ghost qi = q as int;
            q = q + 1;
            if action == RelationshipImportAction::Fail {
                proof {
                    assert(f == rel_files@[qi]);
                    assert(rel_files@[qi].4 == schema_relationship_files()[qi].4);
                    assert(step_view(step).4 == action);
                    if q == 3 {
                        assert(qi == 2);
                        assert(rel_part[2] == relationship_step(parquet_dir@, mode, qi, rel_exists@[qi]));
                        assert(rel_part[2].4 == RelationshipImportAction::Fail);
                        assert(Seq::new(3, |j: int| relationship_step(parquet_dir@, mode, j, rel_exists@[j])) =~= rel_part.take(3));
                    } else {
                        assert(q == 4);
                        assert(rel_part[2].4 != RelationshipImportAction::Fail);
                        assert(Seq::new(4, |j: int| relationship_step(parquet_dir@, mode, j, rel_exists@[j])) =~= rel_part);
                    }
                    assert(steps@.map_values(|s: ImportStep| step_view(s)) =~= expected);
                }
                return Ok(steps);
            }
        }
        proof {
            assert(rel_part[2].4 != RelationshipImportAction::Fail);
            assert(Seq::new(4, |j: int| relationship_step(parquet_dir@, mode, j, rel_exists@[j])) =~= rel_part);
            assert(steps@.map_values(|s: ImportStep| step_view(s)) =~= expected);
        }
        Ok(steps)
    }

    /// What happens to one relationship file at import.
    pub fn relationship_import_action(&self, mode: SchemaManagerImportMode, required: bool, exists: bool) -> (a: RelationshipImportAction)
        ensures
            a == import_action(mode, required, exists),
    {
        if !required {
            if exists { RelationshipImportAction::ImportTolerant } else { RelationshipImportAction::Skip }
        } else if exists {
            RelationshipImportAction::ImportRequired
        } else if mode == SchemaManagerImportMode::Reindexing {
            RelationshipImportAction::Skip
        } else {
            RelationshipImportAction::Fail
        }
    }

    /// The message for a relationship file that must be there and is not.
    pub fn missing_relationship_file_message(&self, path: &str) -> (m: String)
        ensures
            m@ == missing_file_text(path@),
    {
        let mut m = String::from_str("Relationship file not found: ");
        m.append(path);
        m
    }

    /// The node tables of the schema.
    pub fn node_tables(&self) -> (ts: Vec<NodeTable>)
        ensures
            ts@.map_values(|t: NodeTable| node_table_view(t)) == schema_node_tables(),
    {
        let directory_table = NodeTable {
            name: String::from_str("DirectoryNode"),
            columns: vec![
                column("id", KuzuDataType::UInt32, true),
                column("path", KuzuDataType::String, false),
                column("absolute_path", KuzuDataType::String, false),
                column("repository_name", KuzuDataType::String, false),
                column("name", KuzuDataType::String, false),
            ],
            primary_key: String::from_str("id"),
        };
        let file_table = NodeTable {
            name: String::from_str("FileNode"),
            columns: vec![
                column("id", KuzuDataType::UInt32, true),
                column("path", KuzuDataType::String, false),
                column("absolute_path", KuzuDataType::String, false),
                column("language", KuzuDataType::String, false),
                column("repository_name", KuzuDataType::String, false),
                column("extension", KuzuDataType::String, false),
                column("name", KuzuDataType::String, false),
            ],
            primary_key: String::from_str("id"),
        };
        let definition_table = NodeTable {
            name: String::from_str("DefinitionNode"),
            columns: vec![
                column("id", KuzuDataType::UInt32, true),
                column("fqn", KuzuDataType::String, false),
                column("name", KuzuDataType::String, false),
                column("definition_type", KuzuDataType::String, false),
                column("primary_file_path", KuzuDataType::String, false),
                column("primary_start_byte", KuzuDataType::Int64, false),
                column("primary_end_byte", KuzuDataType::Int64, false),
                column("primary_line_number", KuzuDataType::Int32, false),
                column("total_locations", KuzuDataType::Int32, false),
            ],
            primary_key: String::from_str("id"),
        };
        assert(columns_view(directory_table.columns@) =~= directory_columns());
        assert(columns_view(file_table.columns@) =~= file_columns());
        assert(columns_view(definition_table.columns@) =~= definition_columns());
        let ts = vec![directory_table, file_table, definition_table];
        assert(ts@.map_values(|t: NodeTable| node_table_view(t)) =~= schema_node_tables());
        ts
    }

    /// The relationship tables of the schema.
    pub fn relationship_tables(&self) -> (ts: Vec<RelationshipTable>)
        ensures
            ts@.len() == 3,
            forall|i: int| 0 <= i < 3 ==> rel_table_text(#[trigger] ts@[i]) == Some(schema_relationship_statements()[i]),
    {
        let directory_relationships = RelationshipTable {
            name: String::from_str("DIRECTORY_RELATIONSHIPS"),
            from_table: None,
            to_table: None,
            columns: vec![column("type", KuzuDataType::UInt8, false)],
            from_to_pairs: Some(
                vec![
                    (String::from_str("DirectoryNode"), String::from_str("DirectoryNode")),
                    (String::from_str("DirectoryNode"), String::from_str("FileNode")),
                ],
            ),
        };
        let file_relationships = RelationshipTable {
            name: String::from_str("FILE_RELATIONSHIPS"),
            from_table: Some(String::from_str("FileNode")),
            to_table: Some(String::from_str("DefinitionNode")),
            columns: vec![column("type", KuzuDataType::UInt8, false)],
            from_to_pairs: None,
        };
        let definition_relationships = RelationshipTable {
            name: String::from_str("DEFINITION_RELATIONSHIPS"),
            from_table: Some(String::from_str("DefinitionNode")),
            to_table: Some(String::from_str("DefinitionNode")),
            columns: vec![column("type", KuzuDataType::UInt8, false)],
            from_to_pairs: None,
        };
        proof {
            assert(columns_view(directory_relationships.columns@) =~= seq![("type"@, KuzuDataType::UInt8, false)]);
            assert(columns_view(file_relationships.columns@) =~= seq![("type"@, KuzuDataType::UInt8, false)]);
            assert(columns_view(definition_relationships.columns@) =~= seq![("type"@, KuzuDataType::UInt8, false)]);
            lemma_relationship_statements(directory_relationships, file_relationships, definition_relationships);
        }
        vec![directory_relationships, file_relationships, definition_relationships]
    }

    /// The statement that creates a node table.
    pub fn node_table_statement(&self, table: &NodeTable) -> (s: String)
        ensures
            s@ == node_table_text(table.name@, columns_view(table.columns@)),
    {
        let mut cols: Vec<String> = Vec::new();
        let mut i: usize = 0;
        while i < table.columns.len()
            invariant
                i <= table.columns@.len(),
                texts_of(cols@) == columns_view(table.columns@.take(i as int)).map_values(|c: ColumnView| node_column_text(c)),
            decreases table.columns@.len() - i,
        {
            let c = &table.columns[i];
            let mut text = c.name.clone();
            text.append(" ");
            text.append(c.data_type.as_str());
            if c.is_primary_key {
                text.append(" PRIMARY KEY");
            }
            let ghost before = cols@;
            cols.push(text);
            proof {
                assert(text@ =~= node_column_text(column_view(table.columns@[i as int])));
                assert(texts_of(cols@) =~= texts_of(before).push(text@));
                assert(columns_view(table.columns@.take(i + 1)) =~= columns_view(table.columns@.take(i as int)).push(column_view(table.columns@[i as int])));
                assert(texts_of(cols@) =~= columns_view(table.columns@.take(i + 1)).map_values(|c: ColumnView| node_column_text(c)));
            }
            i = i + 1;
        }
        assert(table.columns@.take(table.columns@.len() as int) =~= table.columns@);
        let mut q = String::from_str("CREATE NODE TABLE IF NOT EXISTS ");
        q.append(table.name.as_str());
        q.append(" (");
        let joined = join_strings(&cols, ", ");
        q.append(joined.as_str());
        q.append(")");
        q
    }

    /// The statement that creates a relationship table; an error when the
    /// table has neither a list of end-table pairs nor both end tables.
    pub fn relationship_table_statement(&self, table: &RelationshipTable) -> (r: Result<String, DatabaseError>)
        ensures
            match r {
                Ok(s) => rel_table_text(*table) == Some(s@),
                Err(e) => rel_table_text(*table) is None && (e matches DatabaseError::InitializationFailed(m)
                    && m@ == missing_ends_text(table.name@)),
            },
    {
        let ends: String = match &table.from_to_pairs {
            Some(pairs) => {
                let mut clauses: Vec<String> = Vec::new();
                let mut i: usize = 0;
                while i < pairs.len()
                    invariant
                        i <= pairs@.len(),
                        texts_of(clauses@) == pairs@.take(i as int).map_values(|p: (String, String)| from_to_text(p.0@, p.1@)),
                    decreases pairs@.len() - i,
                {
                    let mut c = String::from_str("FROM ");
                    c.append(pairs[i].0.as_str());
                    c.append(" TO ");
                    c.append(pairs[i].1.as_str());
                    let ghost before = clauses@;
                    clauses.push(c);
                    proof {
                        assert(c@ =~= from_to_text(pairs@[i as int].0@, pairs@[i as int].1@));
                        assert(texts_of(clauses@) =~= texts_of(before).push(c@));
                        assert(texts_of(clauses@) =~= pairs@.take(i + 1).map_values(|p: (String, String)| from_to_text(p.0@, p.1@)));
                    }
                    i = i + 1;
                }
                assert(pairs@.take(pairs@.len() as int) =~= pairs@);
                join_strings(&clauses, ", ")
            },
            None => match (&table.from_table, &table.to_table) {
                (Some(f), Some(t)) => {
                    let mut c = String::from_str("FROM ");
                    c.append(f.as_str());
                    c.append(" TO ");
                    c.append(t.as_str());
                    c
                },
                _ => {
                    let mut m = String::from_str("RelationshipTable ");
                    m.append(table.name.as_str());
                    m.append(" must have either from_to_pairs or both from_table and to_table specified");
                    return Err(DatabaseError::InitializationFailed(m));
                },
            },
        };
        let mut q = String::from_str("CREATE REL TABLE IF NOT EXISTS ");
        q.append(table.name.as_str());
        q.append(" (");
        q.append(ends.as_str());
        if table.columns.len() > 0 {
            let mut cols: Vec<String> = Vec::new();
            let mut i: usize = 0;
            while i < table.columns.len()
                invariant
                    i <= table.columns@.len(),
                    texts_of(cols@) == columns_view(table.columns@.take(i as int)).map_values(|c: ColumnView| rel_column_text(c)),
                decreases table.columns@.len() - i,
            {
                let c = &table.columns[i];
                let mut text = c.name.clone();
                text.append(" ");
                text.append(c.data_type.as_str());
                let ghost before = cols@;
                cols.push(text);
                proof {
                    assert(text@ =~= rel_column_text(column_view(table.columns@[i as int])));
                    assert(texts_of(cols@) =~= texts_of(before).push(text@));
                    assert(columns_view(table.columns@.take(i + 1)) =~= columns_view(table.columns@.take(i as int)).push(column_view(table.columns@[i as int])));
                    assert(texts_of(cols@) =~= columns_view(table.columns@.take(i + 1)).map_values(|c: ColumnView| rel_column_text(c)));
                }
                i = i + 1;
            }
            assert(table.columns@.take(table.columns@.len() as int) =~= table.columns@);
            q.append(", ");
            let joined = join_strings(&cols, ", ");
            q.append(joined.as_str());
        }
        q.append(")");
        Ok(q)
    }
}

proof fn lemma_relationship_statements(a: RelationshipTable, b: RelationshipTable, c: RelationshipTable)
    requires
        a.name@ == "DIRECTORY_RELATIONSHIPS"@,
        a.from_to_pairs matches Some(p) && p@.len() == 2 && p@[0].0@ == "DirectoryNode"@ && p@[0].1@ == "DirectoryNode"@
            && p@[1].0@ == "DirectoryNode"@ && p@[1].1@ == "FileNode"@,
        columns_view(a.columns@) == seq![("type"@, KuzuDataType::UInt8, false)],
        b.name@ == "FILE_RELATIONSHIPS"@,
        b.from_to_pairs is None,
        b.from_table matches Some(f) && f@ == "FileNode"@,
        b.to_table matches Some(t) && t@ == "DefinitionNode"@,
        columns_view(b.columns@) == seq![("type"@, KuzuDataType::UInt8, false)],
        c.name@ == "DEFINITION_RELATIONSHIPS"@,
        c.from_to_pairs is None,
        c.from_table matches Some(f) && f@ == "DefinitionNode"@,
        c.to_table matches Some(t) && t@ == "DefinitionNode"@,
        columns_view(c.columns@) == seq![("type"@, KuzuDataType::UInt8, false)],
    ensures
        rel_table_text(a) == Some(schema_relationship_statements()[0]),
        rel_table_text(b) == Some(schema_relationship_statements()[1]),
        rel_table_text(c) == Some(schema_relationship_statements()[2]),
{
    reveal_strlit("DIRECTORY_RELATIONSHIPS");
    reveal_strlit("FILE_RELATIONSHIPS");
    reveal_strlit("DEFINITION_RELATIONSHIPS");
    reveal_strlit("DirectoryNode");
    reveal_strlit("FileNode");
    reveal_strlit("DefinitionNode");
    reveal_strlit("type");
    reveal_strlit("UINT8");
    reveal_strlit("FROM ");
    reveal_strlit(" TO ");
    reveal_strlit(", ");
    reveal_strlit(" ");
    reveal_strlit(" (");
    reveal_strlit(")");
    reveal_strlit("CREATE REL TABLE IF NOT EXISTS ");
    reveal_strlit("CREATE REL TABLE IF NOT EXISTS DIRECTORY_RELATIONSHIPS (FROM DirectoryNode TO DirectoryNode, FROM DirectoryNode TO FileNode, type UINT8)");
    reveal_strlit("CREATE REL TABLE IF NOT EXISTS FILE_RELATIONSHIPS (FROM FileNode TO DefinitionNode, type UINT8)");
    reveal_strlit("CREATE REL TABLE IF NOT EXISTS DEFINITION_RELATIONSHIPS (FROM DefinitionNode TO DefinitionNode, type UINT8)");
    reveal_strlit("type UINT8");
    assert(rel_column_text(("type"@, KuzuDataType::UInt8, false)) =~= "type UINT8"@);
    let ca = columns_view(a.columns@).map_values(|c: ColumnView| rel_column_text(c));
    assert(ca =~= seq!["type UINT8"@]);
    assert(join_texts(ca, ", "@) == ca[0]);
    let pa = a.from_to_pairs->0@.map_values(|p: (String, String)| from_to_text(p.0@, p.1@));
    assert(pa.drop_last() =~= seq![pa[0]]);
    assert(join_texts(pa.drop_last(), ", "@) == pa[0]);
    assert(rel_table_text(a).unwrap() =~= schema_relationship_statements()[0]);
    assert(rel_table_text(b).unwrap() =~= schema_relationship_statements()[1]);
    assert(rel_table_text(c).unwrap() =~= schema_relationship_statements()[2]);
}

} // verus!
