//! What the export of a graph to columnar files reports and writes: the
//! summary of the files written, the columns of relationship files, and
//! the names of node files.

use vstd::prelude::*;
use crate::analysis::types::{DefinitionNode, DirectoryNode, FileNode, GraphData, ImportedSymbolNode};
use crate::graph::RelationshipKind;
use crate::mutation::utils::{definition_node_key, import_key, NodeIdGenerator, NodeIdsView};
use crate::mutation::types::{ConsolidatedRelationship, ConsolidatedRelationships};
use crate::paths::{join_path, joined_path};
use crate::text::{chars_of, decimal_text, join_strings, join_texts, push_u64, texts_of};

verus! {

/// A span of time: whole seconds and the nanoseconds past them.
#[derive(Debug, Clone, Copy)]
pub struct ElapsedTime {
    pub secs: u64,
    pub nanos: u32,
}

impl ElapsedTime {
    pub open spec fn wf(&self) -> bool {
        self.nanos < 1_000_000_000
    }
}

/// How `{:?}` writes the duration of `secs` seconds and `nanos` nanoseconds.
pub uninterp spec fn duration_debug_text(secs: u64, nanos: u32) -> Seq<char>;

/// Writes a duration as `{:?}` does (`std::time::Duration`'s `Debug`):
/// the text is named `duration_debug_text` of the two numbers and is
/// otherwise left unstated.
#[verifier::external_body]
pub(crate) fn duration_debug(secs: u64, nanos: u32) -> (s: String)
    requires
        nanos < 1_000_000_000,
    ensures
        s@ == duration_debug_text(secs, nanos),
{
    format!("{:?}", std::time::Duration::new(secs, nanos))
}

/// The writer of an export: it puts every file into one output directory.
pub struct WriterService {
    output_directory: String,
}

impl WriterService {
    /// The directory the files go into.
    pub closed spec fn directory(&self) -> Seq<char> {
        self.output_directory@
    }

    /// A writer into `output_directory`.
    pub fn new(output_directory: String) -> (w: Self)
        ensures
            w.directory() == output_directory@,
    {
        WriterService { output_directory }
    }

    /// The directory the files go into.
    pub fn output_directory(&self) -> (d: &str)
        ensures
            d@ == self.directory(),
    {
        self.output_directory.as_str()
    }

    /// The path of the file `name` of the output directory.
    pub fn file_path(&self, name: &str) -> (p: String)
        ensures
            p@ == joined_path(self.directory(), name@),
    {
        join_path(self.output_directory.as_str(), name)
    }
}

/// A file the export wrote.
#[derive(Debug, Clone)]
pub struct WrittenFile {
    pub file_path: String,
    pub file_type: String,
    pub record_count: usize,
    pub file_size_bytes: u64,
}

/// What an export wrote: the files and the counts of each kind of node and
/// relationship.
#[derive(Debug, Clone)]
pub struct WriterResult {
    pub files_written: Vec<WrittenFile>,
    pub total_directories: usize,
    pub total_files: usize,
    pub total_definitions: usize,
    pub total_imported_symbols: usize,
    pub total_directory_relationships: usize,
    pub total_file_definition_relationships: usize,
    pub total_file_imported_symbol_relationships: usize,
    pub total_definition_relationships: usize,
    pub total_definition_imported_symbol_relationships: usize,
    pub writing_duration: ElapsedTime,
}

/// A line of the summary: a label and a count.
pub open spec fn count_line(label: Seq<char>, n: nat) -> Seq<char> {
    "  • "@ + label + ": "@ + decimal_text(n) + "\n"@
}

/// The summary line of one written file.
pub open spec fn written_file_line(f: WrittenFile) -> Seq<char> {
    "    - "@ + f.file_path@ + " ("@ + decimal_text(f.record_count as nat) + " records, "@
        + decimal_text(f.file_size_bytes as nat) + " bytes)\n"@
}

/// The summary of an export.
pub open spec fn summary_text(r: WriterResult) -> Seq<char> {
    "📦 Parquet Writer Summary (completed in "@ + duration_debug_text(r.writing_duration.secs, r.writing_duration.nanos)
        + "):\n"@
        + count_line("Total files written"@, r.files_written@.len())
        + count_line("Directory nodes"@, r.total_directories as nat)
        + count_line("File nodes"@, r.total_files as nat)
        + count_line("Definition nodes"@, r.total_definitions as nat)
        + count_line("Imported symbol nodes"@, r.total_imported_symbols as nat)
        + count_line("Directory relationships"@, r.total_directory_relationships as nat)
        + count_line("File-definition relationships"@, r.total_file_definition_relationships as nat)
        + count_line("File-imported-symbol relationships"@, r.total_file_imported_symbol_relationships as nat)
        + count_line("Definition-definition relationships"@, r.total_definition_relationships as nat)
        + count_line("Definition-imported-symbol relationships"@, r.total_definition_imported_symbol_relationships as nat)
        + (if r.files_written@.len() > 0 {
            "  • Files created:\n"@ + join_texts(r.files_written@.map_values(|f: WrittenFile| written_file_line(f)), ""@)
        } else {
            Seq::<char>::empty()
        })
}

pub(crate) fn push_count_line(out: &mut String, label: &str, n: u64)
    ensures
        final(out)@ == old(out)@ + count_line(label@, n as nat),
{
    out.append("  • ");
    out.append(label);
    out.append(": ");
    push_u64(out, n);
    out.append("\n");
}

impl WriterResult {
    /// The summary of the export, one line per count and one per file.
    pub fn format_summary(&self) -> (s: String)
        requires
            self.writing_duration.wf(),
        ensures
            s@ == summary_text(*self),
    {
        let mut result = String::from_str("📦 Parquet Writer Summary (completed in ");
        let d = duration_debug(self.writing_duration.secs, self.writing_duration.nanos);
        result.append(d.as_str());
        result.append("):\n");
        push_count_line(&mut result, "Total files written", self.files_written.len() as u64);
        push_count_line(&mut result, "Directory nodes", self.total_directories as u64);
        push_count_line(&mut result, "File nodes", self.total_files as u64);
        push_count_line(&mut result, "Definition nodes", self.total_definitions as u64);
        push_count_line(&mut result, "Imported symbol nodes", self.total_imported_symbols as u64);
        push_count_line(&mut result, "Directory relationships", self.total_directory_relationships as u64);
        push_count_line(&mut result, "File-definition relationships", self.total_file_definition_relationships as u64);
        push_count_line(
            &mut result,
            "File-imported-symbol relationships",
            self.total_file_imported_symbol_relationships as u64,
        );
        push_count_line(&mut result, "Definition-definition relationships", self.total_definition_relationships as u64);
        push_count_line(
            &mut result,
            "Definition-imported-symbol relationships",
            self.total_definition_imported_symbol_relationships as u64,
        );
        let ghost head = result@;
        if self.files_written.len() > 0 {
            result.append("  • Files created:\n");
            let mut lines: Vec<String> = Vec::new();
            let mut i: usize = 0;
            while i < self.files_written.len()
                invariant
                    i <= self.files_written@.len(),
                    texts_of(lines@) == self.files_written@.take(i as int).map_values(|f: WrittenFile| written_file_line(f)),
                decreases self.files_written@.len() - i,
            {
                let f = &self.files_written[i];
                let mut line = String::from_str("    - ");
                line.append(f.file_path.as_str());
                line.append(" (");
                push_u64(&mut line, f.record_count as u64);
                line.append(" records, ");
                push_u64(&mut line, f.file_size_bytes);
                line.append(" bytes)\n");
                let ghost before = lines@;
                lines.push(line);
                proof {
                    assert(line@ =~= written_file_line(self.files_written@[i as int]));
                    assert(texts_of(lines@) =~= texts_of(before).push(line@));
                    assert(texts_of(lines@) =~= self.files_written@.take(i + 1).map_values(|f: WrittenFile| written_file_line(f)));
                }
                i = i + 1;
            }
            assert(self.files_written@.take(self.files_written@.len() as int) =~= self.files_written@);
            let all = join_strings(&lines, "");
            result.append(all.as_str());
        }
        result
    }
}

/// The file type of a node file: its name without the `.parquet` suffix.
pub open spec fn file_type_text(name: Seq<char>) -> Seq<char> {
    if name.len() >= 8 && name.subrange(name.len() - 8, name.len() as int) == ".parquet"@ {
        name.subrange(0, name.len() - 8)
    } else {
        name
    }
}

/// The file type of `name.parquet` is `name`.
pub proof fn lemma_file_type_of_parquet(name: Seq<char>)
    ensures
        file_type_text(name + ".parquet"@) == name,
{
    reveal_strlit(".parquet");
    let full = name + ".parquet"@;
    assert(full.subrange(full.len() - 8, full.len() as int) =~= ".parquet"@);
    assert(full.subrange(0, full.len() - 8) =~= name);
}

/// The file type of a node file named `parquet_filename`.
pub fn file_type_for(parquet_filename: &str) -> (s: String)
    ensures
        s@ == file_type_text(parquet_filename@),
{
    let v = chars_of(parquet_filename);
    let n = v.len();
    let suffix = chars_of(".parquet");
    proof {
        reveal_strlit(".parquet");
    }
    if n >= 8 {
        let mut same = true;
        let mut k: usize = 0;
        while k < 8
            invariant
                v@ == parquet_filename@,
                suffix@ == ".parquet"@,
                suffix@.len() == 8,
                n == v@.len(),
                n >= 8,
                k <= 8,
                same <==> forall|j: int| 0 <= j < k ==> v@[n - 8 + j] == suffix@[j],
            decreases 8 - k,
        {
            if v[n - 8 + k] != suffix[k] {
                same = false;
            }
            k = k + 1;
        }
        if same {
            assert(parquet_filename@.subrange(n - 8, n as int) =~= ".parquet"@);
            return String::from_str(parquet_filename.substring_char(0, n - 8));
        } else {
            proof {
                let j = choose|j: int| 0 <= j < 8 && v@[n - 8 + j] != suffix@[j];
                assert(parquet_filename@.subrange(n - 8, n as int)[j] != ".parquet"@[j]);
            }
        }
    }
    String::from_str(parquet_filename)
}

/// The columns of a relationship file: identifiers and type codes, and,
/// for files with locations, the source spans.
pub struct RelationshipColumns {
    pub source_ids: Vec<Option<u32>>,
    pub target_ids: Vec<Option<u32>>,
    pub types: Vec<u8>,
    pub start_bytes: Option<Vec<Option<i64>>>,
    pub end_bytes: Option<Vec<Option<i64>>>,
    pub start_lines: Option<Vec<Option<i32>>>,
    pub end_lines: Option<Vec<Option<i32>>>,
    pub start_cols: Option<Vec<Option<i32>>>,
    pub end_cols: Option<Vec<Option<i32>>>,
}

pub open spec fn wide64(o: Option<usize>) -> Option<i64> {
    match o {
        Some(v) => Some(v as i64),
        None => None,
    }
}

pub open spec fn wide32(o: Option<usize>) -> Option<i32> {
    match o {
        Some(v) => Some(v as i32),
        None => None,
    }
}

/// Each column holds, row by row, the field of the relationship in that
/// row; the span columns are there exactly when `with_location` holds.
pub open spec fn columns_of(c: RelationshipColumns, rels: Seq<ConsolidatedRelationship>, with_location: bool) -> bool {
    &&& c.source_ids@ == rels.map_values(|r: ConsolidatedRelationship| r.source_id)
    &&& c.target_ids@ == rels.map_values(|r: ConsolidatedRelationship| r.target_id)
    &&& c.types@ == rels.map_values(|r: ConsolidatedRelationship| r.relationship_type)
    &&& if with_location {
        &&& c.start_bytes matches Some(v) && v@ == rels.map_values(|r: ConsolidatedRelationship| wide64(r.start_byte))
        &&& c.end_bytes matches Some(v) && v@ == rels.map_values(|r: ConsolidatedRelationship| wide64(r.end_byte))
        &&& c.start_lines matches Some(v) && v@ == rels.map_values(|r: ConsolidatedRelationship| wide32(r.start_line))
        &&& c.end_lines matches Some(v) && v@ == rels.map_values(|r: ConsolidatedRelationship| wide32(r.end_line))
        &&& c.start_cols matches Some(v) && v@ == rels.map_values(|r: ConsolidatedRelationship| wide32(r.start_column))
        &&& c.end_cols matches Some(v) && v@ == rels.map_values(|r: ConsolidatedRelationship| wide32(r.end_column))
    } else {
        &&& c.start_bytes is None
        &&& c.end_bytes is None
        &&& c.start_lines is None
        &&& c.end_lines is None
        &&& c.start_cols is None
        &&& c.end_cols is None
    }
}

fn widen64(o: Option<usize>) -> (r: Option<i64>)
    ensures
        r == wide64(o),
{
    match o {
        Some(v) => Some(v as i64),
        None => None,
    }
}

fn widen32(o: Option<usize>) -> (r: Option<i32>)
    ensures
        r == wide32(o),
{
    match o {
        Some(v) => Some(v as i32),
        None => None,
    }
}

/// The columns of a relationship file holding `relationships`.
pub fn relationship_columns(relationships: &Vec<ConsolidatedRelationship>, with_location: bool) -> (c: RelationshipColumns)
    ensures
        columns_of(c, relationships@, with_location),
{
    let ghost rs = relationships@;
    let mut source_ids: Vec<Option<u32>> = Vec::new();
    let mut target_ids: Vec<Option<u32>> = Vec::new();
    let mut types: Vec<u8> = Vec::new();
    let mut start_bytes: Vec<Option<i64>> = Vec::new();
    let mut end_bytes: Vec<Option<i64>> = Vec::new();
    let mut start_lines: Vec<Option<i32>> = Vec::new();
    let mut end_lines: Vec<Option<i32>> = Vec::new();
    let mut start_cols: Vec<Option<i32>> = Vec::new();
    let mut end_cols: Vec<Option<i32>> = Vec::new();
    let mut i: usize = 0;
    while i < relationships.len()
        invariant
            rs == relationships@,
            i <= rs.len(),
            source_ids@ == rs.take(i as int).map_values(|r: ConsolidatedRelationship| r.source_id),
            target_ids@ == rs.take(i as int).map_values(|r: ConsolidatedRelationship| r.target_id),
            types@ == rs.take(i as int).map_values(|r: ConsolidatedRelationship| r.relationship_type),
            start_bytes@ == rs.take(i as int).map_values(|r: ConsolidatedRelationship| wide64(r.start_byte)),
            end_bytes@ == rs.take(i as int).map_values(|r: ConsolidatedRelationship| wide64(r.end_byte)),
            start_lines@ == rs.take(i as int).map_values(|r: ConsolidatedRelationship| wide32(r.start_line)),
            end_lines@ == rs.take(i as int).map_values(|r: ConsolidatedRelationship| wide32(r.end_line)),
            start_cols@ == rs.take(i as int).map_values(|r: ConsolidatedRelationship| wide32(r.start_column)),
            end_cols@ == rs.take(i as int).map_values(|r: ConsolidatedRelationship| wide32(r.end_column)),
        decreases rs.len() - i,
    {
        let r = relationships[i];
        source_ids.push(r.source_id);
        target_ids.push(r.target_id);
        types.push(r.relationship_type);
        start_bytes.push(widen64(r.start_byte));
        end_bytes.push(widen64(r.end_byte));
        start_lines.push(widen32(r.start_line));
        end_lines.push(widen32(r.end_line));
        start_cols.push(widen32(r.start_column));
        end_cols.push(widen32(r.end_column));
        proof {
            let t = rs.take(i + 1);
            assert(t =~= rs.take(i as int).push(r));
            assert(source_ids@ =~= t.map_values(|r: ConsolidatedRelationship| r.source_id));
            assert(target_ids@ =~= t.map_values(|r: ConsolidatedRelationship| r.target_id));
            assert(types@ =~= t.map_values(|r: ConsolidatedRelationship| r.relationship_type));
            assert(start_bytes@ =~= t.map_values(|r: ConsolidatedRelationship| wide64(r.start_byte)));
            assert(end_bytes@ =~= t.map_values(|r: ConsolidatedRelationship| wide64(r.end_byte)));
            assert(start_lines@ =~= t.map_values(|r: ConsolidatedRelationship| wide32(r.start_line)));
            assert(end_lines@ =~= t.map_values(|r: ConsolidatedRelationship| wide32(r.end_line)));
            assert(start_cols@ =~= t.map_values(|r: ConsolidatedRelationship| wide32(r.start_column)));
            assert(end_cols@ =~= t.map_values(|r: ConsolidatedRelationship| wide32(r.end_column)));
        }
        i = i + 1;
    }
    assert(rs.take(rs.len() as int) =~= rs);
    if with_location {
        RelationshipColumns {
            source_ids,
            target_ids,
            types,
            start_bytes: Some(start_bytes),
            end_bytes: Some(end_bytes),
            start_lines: Some(start_lines),
            end_lines: Some(end_lines),
            start_cols: Some(start_cols),
            end_cols: Some(end_cols),
        }
    } else {
        RelationshipColumns {
            source_ids,
            target_ids,
            types,
            start_bytes: None,
            end_bytes: None,
            start_lines: None,
            end_lines: None,
            start_cols: None,
            end_cols: None,
        }
    }
}

/// Whether relationships of a table are written with their source spans:
/// all but the directory relationships are.
pub fn writes_locations(table_name: &str) -> (r: bool)
    ensures
        r == (table_name@ != "DIRECTORY_RELATIONSHIPS"@),
{
    !crate::text::str_eq(table_name, "DIRECTORY_RELATIONSHIPS")
}

/// Whether `files` are what carrying out the node files `nodes` and then
/// the relationship files `rels` writes: one file each and in that order, a
/// node file with its type and one record per row, a relationship file with
/// one record per relationship.
pub open spec fn written_as_planned(files: Seq<WrittenFile>, nodes: Seq<NodeFileView>, rels: Seq<RelationshipFileView>) -> bool {
    &&& files.len() == nodes.len() + rels.len()
    &&& forall|i: int| 0 <= i < nodes.len() ==> {
        &&& (#[trigger] files[i]).file_type@ == nodes[i].2
        &&& files[i].record_count == nodes[i].3.len()
    }
    &&& forall|k: int| 0 <= k < rels.len() ==> files[nodes.len() + k].record_count == (#[trigger] rels[k]).1
}

/// No planned file is empty: a node file has a row per node of a table that
/// has nodes, a relationship file a record per relationship of a list that
/// has some.
pub proof fn lemma_planned_files_not_empty(g: NodeIdsView, data: GraphData, r: ConsolidatedRelationships)
    ensures
        forall|i: int| 0 <= i < planned_node_files(g, data).len() ==> (#[trigger] planned_node_files(g, data)[i]).3.len() > 0,
        forall|k: int| 0 <= k < planned_relationship_files(r).len() ==> (#[trigger] planned_relationship_files(r)[k]).1 > 0,
{
    let t1 = NodeTableKind::Directories;
    let t2 = NodeTableKind::Files;
    let t3 = NodeTableKind::Definitions;
    let t4 = NodeTableKind::ImportedSymbols;
    let s0 = Seq::<NodeFileView>::empty();
    let s1 = push_when(s0, data.directory_nodes@.len() > 0,
        (t1, node_file_name(t1), file_type_text(node_file_name(t1)), directory_row_ids(g, data.directory_nodes@)));
    let s2 = push_when(s1, data.file_nodes@.len() > 0,
        (t2, node_file_name(t2), file_type_text(node_file_name(t2)), file_row_ids(g, data.file_nodes@)));
    let s3 = push_when(s2, data.definition_nodes@.len() > 0,
        (t3, node_file_name(t3), file_type_text(node_file_name(t3)), definition_row_ids(g, data.definition_nodes@)));
    let s4 = push_when(s3, data.imported_symbol_nodes@.len() > 0,
        (t4, node_file_name(t4), file_type_text(node_file_name(t4)), imported_symbol_row_ids(g, data.imported_symbol_nodes@)));
    assert(s4 == planned_node_files(g, data));
    assert(forall|i: int| 0 <= i < s1.len() ==> (#[trigger] s1[i]).3.len() > 0);
    assert(forall|i: int| 0 <= i < s2.len() ==> (#[trigger] s2[i]).3.len() > 0) by {
        assert forall|i: int| 0 <= i < s2.len() implies (#[trigger] s2[i]).3.len() > 0 by {
            if i < s1.len() { assert(s2[i] == s1[i]); }
        }
    }
    assert(forall|i: int| 0 <= i < s3.len() ==> (#[trigger] s3[i]).3.len() > 0) by {
        assert forall|i: int| 0 <= i < s3.len() implies (#[trigger] s3[i]).3.len() > 0 by {
            if i < s2.len() { assert(s3[i] == s2[i]); }
        }
    }
    assert forall|i: int| 0 <= i < s4.len() implies (#[trigger] s4[i]).3.len() > 0 by {
        if i < s3.len() { assert(s4[i] == s3[i]); }
    }
    let q0 = Seq::<RelationshipFileView>::empty();
    let q1 = push_when(q0, r.directory_to_directory@.len() > 0, (RelationshipKind::DirectoryToDirectory, r.directory_to_directory@.len(), false));
    let q2 = push_when(q1, r.directory_to_file@.len() > 0, (RelationshipKind::DirectoryToFile, r.directory_to_file@.len(), false));
    let q3 = push_when(q2, r.file_to_definition@.len() > 0, (RelationshipKind::FileToDefinition, r.file_to_definition@.len(), true));
    let q4 = push_when(q3, r.file_to_imported_symbol@.len() > 0, (RelationshipKind::FileToImportedSymbol, r.file_to_imported_symbol@.len(), true));
    let q5 = push_when(q4, r.definition_to_definition@.len() > 0, (RelationshipKind::DefinitionToDefinition, r.definition_to_definition@.len(), true));
    let q6 = push_when(q5, r.definition_to_imported_symbol@.len() > 0, (RelationshipKind::DefinitionToImportedSymbol, r.definition_to_imported_symbol@.len(), true));
    assert(q6 == planned_relationship_files(r));
    assert(forall|k: int| 0 <= k < q1.len() ==> (#[trigger] q1[k]).1 > 0);
    assert(forall|k: int| 0 <= k < q2.len() ==> (#[trigger] q2[k]).1 > 0) by {
        assert forall|k: int| 0 <= k < q2.len() implies (#[trigger] q2[k]).1 > 0 by { if k < q1.len() { assert(q2[k] == q1[k]); } }
    }
    assert(forall|k: int| 0 <= k < q3.len() ==> (#[trigger] q3[k]).1 > 0) by {
        assert forall|k: int| 0 <= k < q3.len() implies (#[trigger] q3[k]).1 > 0 by { if k < q2.len() { assert(q3[k] == q2[k]); } }
    }
    assert(forall|k: int| 0 <= k < q4.len() ==> (#[trigger] q4[k]).1 > 0) by {
        assert forall|k: int| 0 <= k < q4.len() implies (#[trigger] q4[k]).1 > 0 by { if k < q3.len() { assert(q4[k] == q3[k]); } }
    }
    assert(forall|k: int| 0 <= k < q5.len() ==> (#[trigger] q5[k]).1 > 0) by {
        assert forall|k: int| 0 <= k < q5.len() implies (#[trigger] q5[k]).1 > 0 by { if k < q4.len() { assert(q5[k] == q4[k]); } }
    }
    assert forall|k: int| 0 <= k < q6.len() implies (#[trigger] q6[k]).1 > 0 by {
        if k < q5.len() { assert(q6[k] == q5[k]); }
    }
}

/// The counts of an export of `graph_data`, numbered by `ids`, whose
/// relationships are `relationships`, with the files written by carrying
/// out its plan and the time it took: no file written is empty.
pub fn writer_result(
    graph_data: &GraphData,
    ids: &NodeIdGenerator,
    relationships: &ConsolidatedRelationships,
    files_written: Vec<WrittenFile>,
    writing_duration: ElapsedTime,
) -> (r: WriterResult)
    requires
        relationships.directory_to_directory@.len() + relationships.directory_to_file@.len() <= usize::MAX,
        written_as_planned(files_written@, planned_node_files(ids@, *graph_data), planned_relationship_files(*relationships)),
    ensures
        r.files_written@ == files_written@,
        forall|i: int| 0 <= i < r.files_written@.len() ==> (#[trigger] r.files_written@[i]).record_count > 0,
        r.total_directories == graph_data.directory_nodes@.len(),
        r.total_files == graph_data.file_nodes@.len(),
        r.total_definitions == graph_data.definition_nodes@.len(),
        r.total_imported_symbols == graph_data.imported_symbol_nodes@.len(),
        r.total_directory_relationships == relationships.directory_to_directory@.len()
            + relationships.directory_to_file@.len(),
        r.total_file_definition_relationships == relationships.file_to_definition@.len(),
        r.total_file_imported_symbol_relationships == relationships.file_to_imported_symbol@.len(),
        r.total_definition_relationships == relationships.definition_to_definition@.len(),
        r.total_definition_imported_symbol_relationships == relationships.definition_to_imported_symbol@.len(),
        r.writing_duration == writing_duration,
{
    proof {
        let nodes = planned_node_files(ids@, *graph_data);
        let rels = planned_relationship_files(*relationships);
        lemma_planned_files_not_empty(ids@, *graph_data, *relationships);
        assert forall|i: int| 0 <= i < files_written@.len() implies (#[trigger] files_written@[i]).record_count > 0 by {
            if i < nodes.len() {
                assert(nodes[i].3.len() > 0);
            } else {
                let k = i - nodes.len();
                assert(rels[k].1 > 0);
            }
        }
    }
    WriterResult {
        files_written,
        total_directories: graph_data.directory_nodes.len(),
        total_files: graph_data.file_nodes.len(),
        total_definitions: graph_data.definition_nodes.len(),
        total_imported_symbols: graph_data.imported_symbol_nodes.len(),
        total_directory_relationships: relationships.directory_to_directory.len() + relationships.directory_to_file.len(),
        total_file_definition_relationships: relationships.file_to_definition.len(),
        total_file_imported_symbol_relationships: relationships.file_to_imported_symbol.len(),
        total_definition_relationships: relationships.definition_to_definition.len(),
        total_definition_imported_symbol_relationships: relationships.definition_to_imported_symbol.len(),
        writing_duration,
    }
}

/// The node tables an export writes.
#[derive(Debug, Clone, Copy, PartialEq, Eq, Structural)]
pub enum NodeTableKind {
    Directories,
    Files,
    Definitions,
    ImportedSymbols,
}

/// The file a node table is written to.
pub open spec fn node_file_name(t: NodeTableKind) -> Seq<char> {
    match t {
        NodeTableKind::Directories => "directories.parquet"@,
        NodeTableKind::Files => "files.parquet"@,
        NodeTableKind::Definitions => "definitions.parquet"@,
        NodeTableKind::ImportedSymbols => "imported_symbols.parquet"@,
    }
}

/// A node file to write: the table, the file's name and type, and the
/// identifier of each row in order.
pub struct PlannedNodeFile {
    pub table: NodeTableKind,
    pub file_name: String,
    pub file_type: String,
    pub ids: Vec<u32>,
}

/// A relationship file to write: the list it holds, its number of rows,
/// and whether the rows carry their source spans.
#[derive(Debug, Clone, Copy)]
pub struct PlannedRelationshipFile {
    pub kind: RelationshipKind,
    pub record_count: usize,
    pub with_location: bool,
}

/// What an export writes: the node files and the relationship files.
pub struct WritePlan {
    pub node_files: Vec<PlannedNodeFile>,
    pub relationship_files: Vec<PlannedRelationshipFile>,
}

/// The identifier of a key, or 0 when it has none.
pub open spec fn id_or_zero<K>(m: Map<K, u32>, k: K) -> u32 {
    if m.contains_key(k) { m[k] } else { 0 }
}

pub open spec fn directory_row_ids(g: NodeIdsView, ns: Seq<DirectoryNode>) -> Seq<u32> {
    ns.map_values(|n: DirectoryNode| id_or_zero(g.directories, n.path@))
}

pub open spec fn file_row_ids(g: NodeIdsView, ns: Seq<FileNode>) -> Seq<u32> {
    ns.map_values(|n: FileNode| id_or_zero(g.files, n.path@))
}

pub open spec fn definition_row_ids(g: NodeIdsView, ns: Seq<DefinitionNode>) -> Seq<u32> {
    ns.map_values(|n: DefinitionNode| id_or_zero(g.definitions, definition_node_key(n.location)))
}

pub open spec fn imported_symbol_row_ids(g: NodeIdsView, ns: Seq<ImportedSymbolNode>) -> Seq<u32> {
    ns.map_values(|n: ImportedSymbolNode| id_or_zero(g.imported_symbols, import_key(n.location)))
}

/// A node file by value.
pub type NodeFileView = (NodeTableKind, Seq<char>, Seq<char>, Seq<u32>);

pub open spec fn node_file_view(f: PlannedNodeFile) -> NodeFileView {
    (f.table, f.file_name@, f.file_type@, f.ids@)
}

/// `s` with `x` added when `keep` holds.
pub open spec fn push_when<T>(s: Seq<T>, keep: bool, x: T) -> Seq<T> {
    if keep { s.push(x) } else { s }
}

/// The node files of an export: one per table that has rows, in the order
/// directories, files, definitions, imported symbols, each row numbered by
/// the identifier of its node, or 0 when it has none.
pub open spec fn planned_node_files(g: NodeIdsView, data: GraphData) -> Seq<NodeFileView> {
    let t1 = NodeTableKind::Directories;
    let t2 = NodeTableKind::Files;
    let t3 = NodeTableKind::Definitions;
    let t4 = NodeTableKind::ImportedSymbols;
    push_when(
        push_when(
            push_when(
                push_when(
                    Seq::empty(),
                    data.directory_nodes@.len() > 0,
                    (t1, node_file_name(t1), file_type_text(node_file_name(t1)), directory_row_ids(g, data.directory_nodes@)),
                ),
                data.file_nodes@.len() > 0,
                (t2, node_file_name(t2), file_type_text(node_file_name(t2)), file_row_ids(g, data.file_nodes@)),
            ),
            data.definition_nodes@.len() > 0,
            (t3, node_file_name(t3), file_type_text(node_file_name(t3)), definition_row_ids(g, data.definition_nodes@)),
        ),
        data.imported_symbol_nodes@.len() > 0,
        (t4, node_file_name(t4), file_type_text(node_file_name(t4)), imported_symbol_row_ids(g, data.imported_symbol_nodes@)),
    )
}

/// A relationship file by value.
pub type RelationshipFileView = (RelationshipKind, nat, bool);

pub open spec fn relationship_file_view(f: PlannedRelationshipFile) -> RelationshipFileView {
    (f.kind, f.record_count as nat, f.with_location)
}

/// The relationship files of an export: one per written list that is not
/// empty, in the order directory to directory, directory to file, file to
/// definition, file to imported symbol, definition to definition,
/// definition to imported symbol; all but the directory ones carry their
/// source spans.
pub open spec fn planned_relationship_files(r: ConsolidatedRelationships) -> Seq<RelationshipFileView> {
    push_when(push_when(push_when(push_when(push_when(push_when(
        Seq::empty(),
        r.directory_to_directory@.len() > 0, (RelationshipKind::DirectoryToDirectory, r.directory_to_directory@.len(), false)),
        r.directory_to_file@.len() > 0, (RelationshipKind::DirectoryToFile, r.directory_to_file@.len(), false)),
        r.file_to_definition@.len() > 0, (RelationshipKind::FileToDefinition, r.file_to_definition@.len(), true)),
        r.file_to_imported_symbol@.len() > 0, (RelationshipKind::FileToImportedSymbol, r.file_to_imported_symbol@.len(), true)),
        r.definition_to_definition@.len() > 0, (RelationshipKind::DefinitionToDefinition, r.definition_to_definition@.len(), true)),
        r.definition_to_imported_symbol@.len() > 0, (RelationshipKind::DefinitionToImportedSymbol, r.definition_to_imported_symbol@.len(), true))
}

fn directory_ids(ids: &NodeIdGenerator, ns: &Vec<DirectoryNode>) -> (v: Vec<u32>)
    ensures
        v@ == directory_row_ids(ids@, ns@),
{
    let mut v: Vec<u32> = Vec::new();
    let mut i: usize = 0;
    while i < ns.len()
        invariant
            i <= ns@.len(),
            v@ == directory_row_ids(ids@, ns@.take(i as int)),
        decreases ns@.len() - i,
    {
        let id = match ids.get_directory_id(ns[i].path.as_str()) { Some(x) => x, None => 0 };
        v.push(id);
        assert(directory_row_ids(ids@, ns@.take(i + 1)) =~= directory_row_ids(ids@, ns@.take(i as int)).push(id));
        i = i + 1;
    }
    assert(ns@.take(ns@.len() as int) =~= ns@);
    v
}

fn file_ids(ids: &NodeIdGenerator, ns: &Vec<FileNode>) -> (v: Vec<u32>)
    ensures
        v@ == file_row_ids(ids@, ns@),
{
    let mut v: Vec<u32> = Vec::new();
    let mut i: usize = 0;
    while i < ns.len()
        invariant
            i <= ns@.len(),
            v@ == file_row_ids(ids@, ns@.take(i as int)),
        decreases ns@.len() - i,
    {
        let id = match ids.get_file_id(ns[i].path.as_str()) { Some(x) => x, None => 0 };
        v.push(id);
        assert(file_row_ids(ids@, ns@.take(i + 1)) =~= file_row_ids(ids@, ns@.take(i as int)).push(id));
        i = i + 1;
    }
    assert(ns@.take(ns@.len() as int) =~= ns@);
    v
}

fn definition_ids(ids: &NodeIdGenerator, ns: &Vec<DefinitionNode>) -> (v: Vec<u32>)
    ensures
        v@ == definition_row_ids(ids@, ns@),
{
    let mut v: Vec<u32> = Vec::new();
    let mut i: usize = 0;
    while i < ns.len()
        invariant
            i <= ns@.len(),
            v@ == definition_row_ids(ids@, ns@.take(i as int)),
        decreases ns@.len() - i,
    {
        let range = ns[i].location.to_range();
        let id = match ids.get_definition_id(ns[i].location.file_path.as_str(), &range) { Some(x) => x, None => 0 };
        v.push(id);
        assert(definition_row_ids(ids@, ns@.take(i + 1)) =~= definition_row_ids(ids@, ns@.take(i as int)).push(id));
        i = i + 1;
    }
    assert(ns@.take(ns@.len() as int) =~= ns@);
    v
}

fn imported_symbol_ids(ids: &NodeIdGenerator, ns: &Vec<ImportedSymbolNode>) -> (v: Vec<u32>)
    ensures
        v@ == imported_symbol_row_ids(ids@, ns@),
{
    let mut v: Vec<u32> = Vec::new();
    let mut i: usize = 0;
    while i < ns.len()
        invariant
            i <= ns@.len(),
            v@ == imported_symbol_row_ids(ids@, ns@.take(i as int)),
        decreases ns@.len() - i,
    {
        let id = match ids.get_imported_symbol_id(&ns[i].location) { Some(x) => x, None => 0 };
        v.push(id);
        assert(imported_symbol_row_ids(ids@, ns@.take(i + 1)) =~= imported_symbol_row_ids(ids@, ns@.take(i as int)).push(id));
        i = i + 1;
    }
    assert(ns@.take(ns@.len() as int) =~= ns@);
    v
}

fn planned_node_file(table: NodeTableKind, name: &str, ids: Vec<u32>) -> (f: PlannedNodeFile)
    requires
        name@ == node_file_name(table),
    ensures
        node_file_view(f) == (table, node_file_name(table), file_type_text(node_file_name(table)), ids@),
{
    PlannedNodeFile { table, file_name: String::from_str(name), file_type: file_type_for(name), ids }
}

fn push_relationship_file(out: &mut Vec<PlannedRelationshipFile>, kind: RelationshipKind, count: usize, with_location: bool)
    ensures
        final(out)@.map_values(|f: PlannedRelationshipFile| relationship_file_view(f))
            == push_when(old(out)@.map_values(|f: PlannedRelationshipFile| relationship_file_view(f)), count > 0, (kind, count as nat, with_location)),
{
    if count > 0 {
        let f = PlannedRelationshipFile { kind, record_count: count, with_location };
        let ghost before = out@;
        out.push(f);
        assert(out@.map_values(|f: PlannedRelationshipFile| relationship_file_view(f))
            =~= before.map_values(|f: PlannedRelationshipFile| relationship_file_view(f)).push(relationship_file_view(f)));
    }
}

/// What exporting `graph_data` with the identifiers of `ids` and the
/// relationships `relationships` writes, as `planned_node_files` and
/// `planned_relationship_files` state.
pub fn write_plan(graph_data: &GraphData, ids: &NodeIdGenerator, relationships: &ConsolidatedRelationships) -> (p: WritePlan)
    ensures
        p.node_files@.map_values(|f: PlannedNodeFile| node_file_view(f)) == planned_node_files(ids@, *graph_data),
        p.relationship_files@.map_values(|f: PlannedRelationshipFile| relationship_file_view(f))
            == planned_relationship_files(*relationships),
{
    proof {
        reveal_strlit("directories.parquet");
        reveal_strlit("files.parquet");
        reveal_strlit("definitions.parquet");
        reveal_strlit("imported_symbols.parquet");
    }
    let mut node_files: Vec<PlannedNodeFile> = Vec::new();
    let ghost g = ids@;
    let ghost d = *graph_data;
    let ghost s0 = node_files@.map_values(|f: PlannedNodeFile| node_file_view(f));
    assert(s0 =~= Seq::<NodeFileView>::empty());
    if graph_data.directory_nodes.len() > 0 {
        let f = planned_node_file(NodeTableKind::Directories, "directories.parquet", directory_ids(ids, &graph_data.directory_nodes));
        let ghost before = node_files@;
        node_files.push(f);
        assert(node_files@.map_values(|f: PlannedNodeFile| node_file_view(f))
            =~= before.map_values(|f: PlannedNodeFile| node_file_view(f)).push(node_file_view(f)));
    }
    if graph_data.file_nodes.len() > 0 {
        let f = planned_node_file(NodeTableKind::Files, "files.parquet", file_ids(ids, &graph_data.file_nodes));
        let ghost before = node_files@;
        node_files.push(f);
        assert(node_files@.map_values(|f: PlannedNodeFile| node_file_view(f))
            =~= before.map_values(|f: PlannedNodeFile| node_file_view(f)).push(node_file_view(f)));
    }
    if graph_data.definition_nodes.len() > 0 {
        let f = planned_node_file(NodeTableKind::Definitions, "definitions.parquet", definition_ids(ids, &graph_data.definition_nodes));
        let ghost before = node_files@;
        node_files.push(f);
        assert(node_files@.map_values(|f: PlannedNodeFile| node_file_view(f))
            =~= before.map_values(|f: PlannedNodeFile| node_file_view(f)).push(node_file_view(f)));
    }
    if graph_data.imported_symbol_nodes.len() > 0 {
        let f = planned_node_file(
            NodeTableKind::ImportedSymbols,
            "imported_symbols.parquet",
            imported_symbol_ids(ids, &graph_data.imported_symbol_nodes),
        );
        let ghost before = node_files@;
        node_files.push(f);
        assert(node_files@.map_values(|f: PlannedNodeFile| node_file_view(f))
            =~= before.map_values(|f: PlannedNodeFile| node_file_view(f)).push(node_file_view(f)));
    }
    let mut rels: Vec<PlannedRelationshipFile> = Vec::new();
    assert(rels@.map_values(|f: PlannedRelationshipFile| relationship_file_view(f)) =~= Seq::<RelationshipFileView>::empty());
    push_relationship_file(&mut rels, RelationshipKind::DirectoryToDirectory, relationships.directory_to_directory.len(), false);
    push_relationship_file(&mut rels, RelationshipKind::DirectoryToFile, relationships.directory_to_file.len(), false);
    push_relationship_file(&mut rels, RelationshipKind::FileToDefinition, relationships.file_to_definition.len(), true);
    push_relationship_file(&mut rels, RelationshipKind::FileToImportedSymbol, relationships.file_to_imported_symbol.len(), true);
    push_relationship_file(&mut rels, RelationshipKind::DefinitionToDefinition, relationships.definition_to_definition.len(), true);
    push_relationship_file(&mut rels, RelationshipKind::DefinitionToImportedSymbol, relationships.definition_to_imported_symbol.len(), true);
    WritePlan { node_files, relationship_files: rels }
}

} // verus!
