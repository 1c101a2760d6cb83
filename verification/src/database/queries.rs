//! The text of the queries sent to the graph database: bulk imports,
//! counts, lookups and deletions.

use vstd::prelude::*;
use crate::database::schema::schema_relationship_files;
use crate::graph::{relationship_code, RelationshipType, RelationshipTypeMapping};
use crate::text::{decimal_text, join_strings, join_texts, push_u64, texts_of};

verus! {

/// The node tables that queries address.
#[derive(Debug, Clone, Copy, PartialEq, Eq, Structural)]
pub enum KuzuNodeType {
    DirectoryNode,
    FileNode,
    DefinitionNode,
}

pub open spec fn node_type_text(t: KuzuNodeType) -> Seq<char> {
    match t {
        KuzuNodeType::DirectoryNode => "DirectoryNode"@,
        KuzuNodeType::FileNode => "FileNode"@,
        KuzuNodeType::DefinitionNode => "DefinitionNode"@,
    }
}

impl KuzuNodeType {
    /// The table name.
    pub fn as_str(&self) -> (s: &'static str)
        ensures
            s@ == node_type_text(*self),
    {
        match self {
            KuzuNodeType::DirectoryNode => "DirectoryNode",
            KuzuNodeType::FileNode => "FileNode",
            KuzuNodeType::DefinitionNode => "DefinitionNode",
        }
    }
}

/// A value in a query's list: text is quoted, a number is written bare.
#[derive(Debug, Clone)]
pub enum QueryValue {
    Text(String),
    Number(u64),
}

pub open spec fn value_text(v: QueryValue) -> Seq<char> {
    match v {
        QueryValue::Text(s) => "'"@ + s@ + "'"@,
        QueryValue::Number(n) => decimal_text(n as nat),
    }
}

/// The values of a list, separated by commas.
pub open spec fn values_text(vs: Seq<QueryValue>) -> Seq<char> {
    join_texts(vs.map_values(|v: QueryValue| value_text(v)), ", "@)
}

/// Paths as quoted values, separated by commas.
pub open spec fn quoted_paths_text(ps: Seq<String>) -> Seq<char> {
    join_texts(ps.map_values(|p: String| "'"@ + p@ + "'"@), ", "@)
}

/// The relationship table that holds relationships of type `t`.
pub open spec fn relationship_label(t: RelationshipType) -> Seq<char> {
    match t {
        RelationshipType::DirContainsDir => "DIRECTORY_RELATIONSHIPS"@,
        RelationshipType::DirContainsFile => "DIRECTORY_RELATIONSHIPS"@,
        RelationshipType::FileDefines => "FILE_RELATIONSHIPS"@,
        _ => "DEFINITION_RELATIONSHIPS"@,
    }
}

/// The kinds of node a relationship of type `t` joins: directories contain
/// directories and files, files define definitions and import symbols,
/// definitions import symbols, and every other type (calls, references and
/// nesting) joins two definitions. The empty type joins nothing.
pub open spec fn relationship_ends(t: RelationshipType) -> Option<(Seq<char>, Seq<char>)> {
    match t {
        RelationshipType::DirContainsDir => Some(("DirectoryNode"@, "DirectoryNode"@)),
        RelationshipType::DirContainsFile => Some(("DirectoryNode"@, "FileNode"@)),
        RelationshipType::FileDefines => Some(("FileNode"@, "DefinitionNode"@)),
        RelationshipType::FileImports => Some(("FileNode"@, "ImportedSymbolNode"@)),
        RelationshipType::DefinesImportedSymbol => Some(("DefinitionNode"@, "ImportedSymbolNode"@)),
        RelationshipType::Empty => None,
        _ => Some(("DefinitionNode"@, "DefinitionNode"@)),
    }
}

/// A relationship is looked for in a table the schema declares, and when
/// the schema declares a table for the kinds of node the relationship
/// joins, it is looked for in that one: directory relationships in
/// `DIRECTORY_RELATIONSHIPS`, file-defines in `FILE_RELATIONSHIPS`, and
/// relationships between definitions in `DEFINITION_RELATIONSHIPS`, which
/// also takes every relationship whose kinds of node have no table of
/// their own.
pub proof fn lemma_relationship_label_is_declared_table(t: RelationshipType)
    ensures
        exists|k: int| 0 <= k < schema_relationship_files().len() && (#[trigger] schema_relationship_files()[k]).0 == relationship_label(t),
        forall|k: int| 0 <= k < schema_relationship_files().len() && (relationship_ends(t) matches Some(e)
            && (#[trigger] schema_relationship_files()[k]).2 == e.0 && schema_relationship_files()[k].3 == e.1)
            ==> relationship_label(t) == schema_relationship_files()[k].0,
        (forall|k: int| 0 <= k < schema_relationship_files().len() ==> !(relationship_ends(t) matches Some(e)
            && (#[trigger] schema_relationship_files()[k]).2 == e.0 && schema_relationship_files()[k].3 == e.1))
            ==> relationship_label(t) == "DEFINITION_RELATIONSHIPS"@,
{
    reveal_strlit("DirectoryNode");
    reveal_strlit("FileNode");
    reveal_strlit("DefinitionNode");
    reveal_strlit("ImportedSymbolNode");
    let fs = schema_relationship_files();
    assert("DirectoryNode"@.len() == 13 && "FileNode"@.len() == 8 && "DefinitionNode"@.len() == 14 && "ImportedSymbolNode"@.len() == 18);
    assert(fs[0].0 == "DIRECTORY_RELATIONSHIPS"@);
    assert(fs[2].0 == "FILE_RELATIONSHIPS"@);
    assert(fs[3].0 == "DEFINITION_RELATIONSHIPS"@);
}

/// The relationship table whose relationships start at nodes of type `t`.
pub open spec fn node_relationship_label(t: KuzuNodeType) -> Seq<char> {
    match t {
        KuzuNodeType::DirectoryNode => "DIRECTORY_RELATIONSHIPS"@,
        KuzuNodeType::FileNode => "FILE_RELATIONSHIPS"@,
        KuzuNodeType::DefinitionNode => "DEFINITION_RELATIONSHIPS"@,
    }
}

/// The bulk import of a file of rows into a table.
pub open spec fn copy_text(table: Seq<char>, path: Seq<char>) -> Seq<char> {
    "COPY "@ + table + " FROM '"@ + path + "'"@
}

/// The options of a relationship import: the end tables that are given.
pub open spec fn copy_options(from: Option<Seq<char>>, to: Option<Seq<char>>) -> Seq<Seq<char>> {
    let a = match from {
        Some(f) => seq!["from='"@ + f + "'"@],
        None => Seq::<Seq<char>>::empty(),
    };
    let b = match to {
        Some(t) => seq!["to='"@ + t + "'"@],
        None => Seq::<Seq<char>>::empty(),
    };
    a + b
}

/// The bulk import of relationship rows, with the end tables as options.
pub open spec fn copy_relationship_text(table: Seq<char>, path: Seq<char>, from: Option<Seq<char>>, to: Option<Seq<char>>) -> Seq<char> {
    let opts = copy_options(from, to);
    copy_text(table, path) + (if opts.len() > 0 { " ("@ + join_texts(opts, ", "@) + ")"@ } else { Seq::<char>::empty() })
}

pub open spec fn opt_view(o: Option<&str>) -> Option<Seq<char>> {
    match o {
        Some(s) => Some(s@),
        None => None,
    }
}

/// The statement that imports the rows of `path` into `table`.
pub fn copy_from_parquet_statement(table_name: &str, absolute_path: &str) -> (q: String)
    ensures
        q@ == copy_text(table_name@, absolute_path@),
{
    let mut q = String::from_str("COPY ");
    q.append(table_name);
    q.append(" FROM '");
    q.append(absolute_path);
    q.append("'");
    q
}

/// The statement that imports the relationship rows of `path` into
/// `table`, naming the end tables that are given.
pub fn copy_relationship_from_parquet_statement(
    table_name: &str,
    absolute_path: &str,
    from_table: Option<&str>,
    to_table: Option<&str>,
) -> (q: String)
    ensures
        q@ == copy_relationship_text(table_name@, absolute_path@, opt_view(from_table), opt_view(to_table)),
{
    let mut q = copy_from_parquet_statement(table_name, absolute_path);
    let mut options: Vec<String> = Vec::new();
    if let Some(from) = from_table {
        let mut o = String::from_str("from='");
        o.append(from);
        o.append("'");
        options.push(o);
    }
    if let Some(to) = to_table {
        let mut o = String::from_str("to='");
        o.append(to);
        o.append("'");
        options.push(o);
    }
    assert(texts_of(options@) =~= copy_options(opt_view(from_table), opt_view(to_table)));
    if options.len() > 0 {
        q.append(" (");
        let joined = join_strings(&options, ", ");
        q.append(joined.as_str());
        q.append(")");
    }
    q
}

/// The query counting the nodes of a table.
pub fn count_nodes_query(node_type: KuzuNodeType) -> (q: String)
    ensures
        q@ == "MATCH (n:"@ + node_type_text(node_type) + ") RETURN COUNT(n)"@,
{
    let mut q = String::from_str("MATCH (n:");
    q.append(node_type.as_str());
    q.append(") RETURN COUNT(n)");
    q
}

/// The table that holds relationships of type `t`.
pub fn relationship_table_of(t: RelationshipType) -> (s: &'static str)
    ensures
        s@ == relationship_label(t),
{
    match t {
        RelationshipType::DirContainsDir => "DIRECTORY_RELATIONSHIPS",
        RelationshipType::DirContainsFile => "DIRECTORY_RELATIONSHIPS",
        RelationshipType::FileDefines => "FILE_RELATIONSHIPS",
        _ => "DEFINITION_RELATIONSHIPS",
    }
}

/// The query counting the distinct node pairs joined by relationships of type `t`.
pub fn count_relationships_of_type_query(t: RelationshipType) -> (q: String)
    ensures
        q@ == "MATCH (from)-[r:"@ + relationship_label(t) + "]->(to) WHERE r.type = "@
            + decimal_text(relationship_code(t) as nat) + " RETURN COUNT(DISTINCT [from, to])"@,
{
    let mut q = String::from_str("MATCH (from)-[r:");
    q.append(relationship_table_of(t));
    q.append("]->(to) WHERE r.type = ");
    let code = RelationshipTypeMapping::new().get_type_id(t);
    push_u64(&mut q, code as u64);
    q.append(" RETURN COUNT(DISTINCT [from, to])");
    q
}

/// The query counting the distinct node pairs joined by the relationships
/// that start at nodes of type `t`.
pub fn count_relationships_of_node_type_query(t: KuzuNodeType) -> (q: String)
    ensures
        q@ == "MATCH (from)-[r:"@ + node_relationship_label(t) + "]->(to) RETURN COUNT(DISTINCT [from, to])"@,
{
    let label = match t {
        KuzuNodeType::DirectoryNode => "DIRECTORY_RELATIONSHIPS",
        KuzuNodeType::FileNode => "FILE_RELATIONSHIPS",
        KuzuNodeType::DefinitionNode => "DEFINITION_RELATIONSHIPS",
    };
    let mut q = String::from_str("MATCH (from)-[r:");
    q.append(label);
    q.append("]->(to) RETURN COUNT(DISTINCT [from, to])");
    q
}

/// The values of a list, separated by commas.
pub fn values_list(values: &Vec<QueryValue>) -> (s: String)
    ensures
        s@ == values_text(values@),
{
    let mut parts: Vec<String> = Vec::new();
    let mut i: usize = 0;
    while i < values.len()
        invariant
            i <= values@.len(),
            texts_of(parts@) == values@.take(i as int).map_values(|v: QueryValue| value_text(v)),
        decreases values@.len() - i,
    {
        let text = match &values[i] {
            QueryValue::Text(s) => {
                let mut t = String::from_str("'");
                t.append(s.as_str());
                t.append("'");
                t
            },
            QueryValue::Number(n) => {
                let mut t = String::new();
                push_u64(&mut t, *n);
                t
            },
        };
        let ghost before = parts@;
        parts.push(text);
        proof {
            assert(text@ =~= value_text(values@[i as int]));
            assert(texts_of(parts@) =~= texts_of(before).push(text@));
            assert(texts_of(parts@) =~= values@.take(i + 1).map_values(|v: QueryValue| value_text(v)));
        }
        i = i + 1;
    }
    assert(values@.take(values@.len() as int) =~= values@);
    join_strings(&parts, ", ")
}

/// Paths as quoted values, separated by commas.
pub fn quoted_paths(paths: &Vec<String>) -> (s: String)
    ensures
        s@ == quoted_paths_text(paths@),
{
    let mut parts: Vec<String> = Vec::new();
    let mut i: usize = 0;
    while i < paths.len()
        invariant
            i <= paths@.len(),
            texts_of(parts@) == paths@.take(i as int).map_values(|p: String| "'"@ + p@ + "'"@),
        decreases paths@.len() - i,
    {
        let mut t = String::from_str("'");
        t.append(paths[i].as_str());
        t.append("'");
        let ghost before = parts@;
        parts.push(t);
        proof {
            assert(texts_of(parts@) =~= texts_of(before).push(t@));
            assert(texts_of(parts@) =~= paths@.take(i + 1).map_values(|p: String| "'"@ + p@ + "'"@));
        }
        i = i + 1;
    }
    assert(paths@.take(paths@.len() as int) =~= paths@);
    join_strings(&parts, ", ")
}

/// The statement deleting the nodes of a table whose `column` holds one of `paths`.
pub fn delete_nodes_by_paths_statement(node_type: KuzuNodeType, column: &str, paths: &Vec<String>) -> (q: String)
    ensures
        q@ == "MATCH (n:"@ + node_type_text(node_type) + ") WHERE n."@ + column@ + " IN ["@
            + quoted_paths_text(paths@) + "] DETACH DELETE n"@,
{
    let mut q = String::from_str("MATCH (n:");
    q.append(node_type.as_str());
    q.append(") WHERE n.");
    q.append(column);
    q.append(" IN [");
    let list = quoted_paths(paths);
    q.append(list.as_str());
    q.append("] DETACH DELETE n");
    q
}

/// The statement deleting the nodes of a table whose `column` holds one of `values`.
pub fn delete_by_statement(node_type: KuzuNodeType, column: &str, values: &Vec<QueryValue>) -> (q: String)
    ensures
        q@ == "MATCH (n:"@ + node_type_text(node_type) + ") WHERE n."@ + column@ + " IN ["@
            + values_text(values@) + "] DETACH DELETE n"@,
{
    let mut q = String::from_str("MATCH (n:");
    q.append(node_type.as_str());
    q.append(") WHERE n.");
    q.append(column);
    q.append(" IN [");
    let list = values_list(values);
    q.append(list.as_str());
    q.append("] DETACH DELETE n");
    q
}

/// The query returning the nodes of a table whose `column` holds one of `values`.
pub fn get_by_query(node_type: KuzuNodeType, column: &str, values: &Vec<QueryValue>) -> (q: String)
    ensures
        q@ == "MATCH (n:"@ + node_type_text(node_type) + ") WHERE n."@ + column@ + " IN ["@
            + values_text(values@) + "] RETURN n"@,
{
    let mut q = String::from_str("MATCH (n:");
    q.append(node_type.as_str());
    q.append(") WHERE n.");
    q.append(column);
    q.append(" IN [");
    let list = values_list(values);
    q.append(list.as_str());
    q.append("] RETURN n");
    q
}

/// The query counting the nodes of a table whose `field` holds one of `values`.
pub fn count_node_by_query(node_type: KuzuNodeType, field: &str, values: &Vec<QueryValue>) -> (q: String)
    ensures
        q@ == "MATCH (n:"@ + node_type_text(node_type) + ") WHERE n."@ + field@ + " IN ["@
            + values_text(values@) + "] RETURN COUNT(n)"@,
{
    let mut q = String::from_str("MATCH (n:");
    q.append(node_type.as_str());
    q.append(") WHERE n.");
    q.append(field);
    q.append(" IN [");
    let list = values_list(values);
    q.append(list.as_str());
    q.append("] RETURN COUNT(n)");
    q
}

/// The query applying an aggregate to a field over a table.
pub fn agg_node_by_query(node_type: KuzuNodeType, agg_func: &str, field: &str) -> (q: String)
    ensures
        q@ == "MATCH (n:"@ + node_type_text(node_type) + ") RETURN "@ + agg_func@ + "(n."@ + field@ + ")"@,
{
    let mut q = String::from_str("MATCH (n:");
    q.append(node_type.as_str());
    q.append(") RETURN ");
    q.append(agg_func);
    q.append("(n.");
    q.append(field);
    q.append(")");
    q
}

/// The query returning every node of a table.
pub fn get_all_query(node_type: KuzuNodeType) -> (q: String)
    ensures
        q@ == "MATCH (n:"@ + node_type_text(node_type) + ") RETURN n"@,
{
    let mut q = String::from_str("MATCH (n:");
    q.append(node_type.as_str());
    q.append(") RETURN n");
    q
}

/// Node counts by table.
#[derive(Debug, Clone, Copy)]
pub struct NodeCounts {
    pub directory_count: u32,
    pub file_count: u32,
    pub definition_count: u32,
    pub imported_symbol_count: u32,
}

/// Relationship counts by table.
#[derive(Debug, Clone, Copy)]
pub struct RelationshipCounts {
    pub directory_relationships: u32,
    pub file_relationships: u32,
    pub definition_relationships: u32,
}

} // verus!
