//! Filing the definitions that the parser found in one file: each becomes a
//! definition node under its fully qualified name and file path, and the
//! top-level ones are recorded as defined by the file.

use vstd::prelude::*;
use crate::analysis::definition_map::{
    entry_key, entry_keys, key_index, keys_unique, DefinitionEntry, DefinitionMap,
};
use crate::analysis::languages::csharp::{csharp_top_level, CSharpAnalyzer};
use crate::analysis::languages::java::{java_top_level, JavaAnalyzer};
use crate::analysis::languages::kotlin::{kotlin_top_level, KotlinAnalyzer};
use crate::analysis::languages::python::{python_top_level, PythonAnalyzer};
use crate::analysis::languages::typescript::{typescript_top_level, TypeScriptAnalyzer};
use crate::analysis::languages::{fqn_text, fqn_to_string, DefinitionRules};
use crate::analysis::types::{
    DefinitionLocation, DefinitionNode, DefinitionType, FileDefinitionRelationship, FqnPart,
    FqnType, JavaDefinitionType, Range, TypeScriptDefinitionType,
};
use crate::graph::RelationshipType;
use crate::seq_util::filter_map;

verus! {

/// A definition as the parser reports it for one file.
#[derive(Debug, Clone)]
pub struct ParsedDefinition {
    pub name: String,
    pub definition_type: DefinitionType,
    pub fqn: Vec<FqnPart>,
    pub range: Range,
}

/// The fields of a location: file path, byte offsets, lines and columns.
pub type LocationView = (Seq<char>, i64, i64, i32, i32, i32, i32);

pub open spec fn location_view(l: DefinitionLocation) -> LocationView {
    (l.file_path@, l.start_byte, l.end_byte, l.start_line, l.end_line, l.start_col, l.end_col)
}

/// An optional location by value.
pub open spec fn opt_location_view(o: Option<DefinitionLocation>) -> Option<LocationView> {
    match o {
        Some(l) => Some(location_view(l)),
        None => None,
    }
}

/// The location of a span of a file: each number converted as `as`
/// converts it.
pub open spec fn span_location(file_path: Seq<char>, r: Range) -> LocationView {
    (
        file_path,
        r.byte_offset.0 as i64,
        r.byte_offset.1 as i64,
        r.start.line as i32,
        r.end.line as i32,
        r.start.column as i32,
        r.end.column as i32,
    )
}

/// The language and parts of a fully qualified name.
pub open spec fn fqn_view(f: FqnType) -> (DefinitionRules, Seq<FqnPart>) {
    match f {
        FqnType::Ruby(p) => (DefinitionRules::Ruby, p@),
        FqnType::Python(p) => (DefinitionRules::Python, p@),
        FqnType::Kotlin(p) => (DefinitionRules::Kotlin, p@),
        FqnType::Java(p) => (DefinitionRules::Java, p@),
        FqnType::CSharp(p) => (DefinitionRules::CSharp, p@),
        FqnType::TypeScript(p) => (DefinitionRules::TypeScript, p@),
        FqnType::Rust(p) => (DefinitionRules::Rust, p@),
    }
}

/// What an entry of the definition map holds, by value.
pub struct EntryView {
    pub fqn: Seq<char>,
    pub file_path: Seq<char>,
    pub node_fqn: Seq<char>,
    pub name: Seq<char>,
    pub definition_type: DefinitionType,
    pub location: LocationView,
    pub fqn_type: (DefinitionRules, Seq<FqnPart>),
}

pub open spec fn entry_view(e: DefinitionEntry) -> EntryView {
    EntryView {
        fqn: e.fqn@,
        file_path: e.file_path@,
        node_fqn: e.node.fqn@,
        name: e.node.name@,
        definition_type: e.node.definition_type,
        location: location_view(e.node.location),
        fqn_type: fqn_view(e.fqn_type),
    }
}

pub open spec fn entry_views(es: Seq<DefinitionEntry>) -> Seq<EntryView> {
    es.map_values(|e: DefinitionEntry| entry_view(e))
}

pub open spec fn view_key(v: EntryView) -> (Seq<char>, Seq<char>) {
    (v.fqn, v.file_path)
}

/// What a file-defines relationship holds, by value.
pub struct FileDefinitionView {
    pub file_path: Seq<char>,
    pub definition_fqn: Seq<char>,
    pub relationship_type: RelationshipType,
    pub location: LocationView,
}

pub open spec fn file_definition_view(r: FileDefinitionRelationship) -> FileDefinitionView {
    FileDefinitionView {
        file_path: r.file_path@,
        definition_fqn: r.definition_fqn@,
        relationship_type: r.relationship_type,
        location: location_view(r.definition_location),
    }
}

pub open spec fn file_definition_views(rs: Seq<FileDefinitionRelationship>) -> Seq<FileDefinitionView> {
    rs.map_values(|r: FileDefinitionRelationship| file_definition_view(r))
}

/// The rules of the language a definition type belongs to.
pub open spec fn type_rules(t: DefinitionType) -> Option<DefinitionRules> {
    match t {
        DefinitionType::Ruby(_) => Some(DefinitionRules::Ruby),
        DefinitionType::Python(_) => Some(DefinitionRules::Python),
        DefinitionType::Kotlin(_) => Some(DefinitionRules::Kotlin),
        DefinitionType::Java(_) => Some(DefinitionRules::Java),
        DefinitionType::CSharp(_) => Some(DefinitionRules::CSharp),
        DefinitionType::TypeScript(_) => Some(DefinitionRules::TypeScript),
        DefinitionType::Rust(_) => Some(DefinitionRules::Rust),
        DefinitionType::Unsupported => None,
    }
}

/// Whether the rules file a definition of this kind: only definitions of
/// the rules' own language are filed, and of those not Java packages and
/// not TypeScript namespaces.
pub open spec fn kept(rules: DefinitionRules, t: DefinitionType) -> bool {
    type_rules(t) == Some(rules)
        && !(rules == DefinitionRules::Java && t == DefinitionType::Java(JavaDefinitionType::Package))
        && !(rules == DefinitionRules::TypeScript && t == DefinitionType::TypeScript(TypeScriptDefinitionType::Namespace))
}

/// Whether a definition with these name parts is recorded as defined by
/// its file: every Ruby and Rust definition, and the top-level ones of the
/// other languages.
pub open spec fn defines_file(rules: DefinitionRules, parts: Seq<FqnPart>) -> bool {
    match rules {
        DefinitionRules::CSharp => csharp_top_level(parts),
        DefinitionRules::Kotlin => kotlin_top_level(parts),
        DefinitionRules::Java => java_top_level(parts),
        DefinitionRules::Python => python_top_level(parts),
        DefinitionRules::TypeScript => typescript_top_level(parts),
        DefinitionRules::Ruby => true,
        DefinitionRules::Rust => true,
    }
}

/// The entry a parsed definition of file `file_path` is filed as.
pub open spec fn parsed_entry(rules: DefinitionRules, file_path: Seq<char>, d: ParsedDefinition) -> EntryView {
    EntryView {
        fqn: fqn_text(rules, d.fqn@),
        file_path: file_path,
        node_fqn: fqn_text(rules, d.fqn@),
        name: d.name@,
        definition_type: d.definition_type,
        location: span_location(file_path, d.range),
        fqn_type: (rules, d.fqn@),
    }
}

/// Filing one parsed definition: an entry under the same key is replaced
/// (for Rust the first one stays, and the later one is dropped); a
/// definition that files, and that the file defines, adds a relationship.
pub open spec fn process_step(
    rules: DefinitionRules,
    file_path: Seq<char>,
    st: (Seq<EntryView>, Seq<FileDefinitionView>),
    d: ParsedDefinition,
) -> (Seq<EntryView>, Seq<FileDefinitionView>) {
    if !kept(rules, d.definition_type) {
        st
    } else {
        let v = parsed_entry(rules, file_path, d);
        let found = key_index(st.0.map_values(|x: EntryView| view_key(x)), view_key(v));
        if rules == DefinitionRules::Rust && found is Some {
            st
        } else {
            let es = match found {
                Some(i) => st.0.update(i, v),
                None => st.0.push(v),
            };
            let rels = if defines_file(rules, d.fqn@) {
                st.1.push(
                    FileDefinitionView {
                        file_path: file_path,
                        definition_fqn: v.fqn,
                        relationship_type: RelationshipType::FileDefines,
                        location: v.location,
                    },
                )
            } else {
                st.1
            };
            (es, rels)
        }
    }
}

/// Filing the parsed definitions of a file in order.
pub open spec fn processed(
    rules: DefinitionRules,
    file_path: Seq<char>,
    st: (Seq<EntryView>, Seq<FileDefinitionView>),
    defs: Seq<ParsedDefinition>,
) -> (Seq<EntryView>, Seq<FileDefinitionView>)
    decreases defs.len(),
{
    if defs.len() == 0 {
        st
    } else {
        process_step(rules, file_path, processed(rules, file_path, st, defs.drop_last()), defs.last())
    }
}

/// The file-defines relationship a Ruby definition of `file_path` records,
/// when Ruby files it.
pub open spec fn ruby_file_definition(file_path: Seq<char>, d: ParsedDefinition) -> Option<FileDefinitionView> {
    if kept(DefinitionRules::Ruby, d.definition_type) {
        Some(FileDefinitionView {
            file_path: file_path,
            definition_fqn: fqn_text(DefinitionRules::Ruby, d.fqn@),
            relationship_type: RelationshipType::FileDefines,
            location: span_location(file_path, d.range),
        })
    } else {
        None
    }
}

/// Every Ruby definition a file files is recorded as defined by that file,
/// however deeply it is nested (a method `User::name` as well as the class
/// `User`): filing Ruby definitions adds one file-defines relationship per
/// filed definition, in order, with its full name and location.
pub proof fn lemma_ruby_file_defines_every_definition(
    file_path: Seq<char>,
    st: (Seq<EntryView>, Seq<FileDefinitionView>),
    defs: Seq<ParsedDefinition>,
)
    ensures
        processed(DefinitionRules::Ruby, file_path, st, defs).1
            == st.1 + filter_map(defs, |d: ParsedDefinition| ruby_file_definition(file_path, d)),
    decreases defs.len(),
{
    if defs.len() == 0 {
        assert(st.1 + Seq::<FileDefinitionView>::empty() =~= st.1);
    } else {
        lemma_ruby_file_defines_every_definition(file_path, st, defs.drop_last());
        let prev = filter_map(defs.drop_last(), |d: ParsedDefinition| ruby_file_definition(file_path, d));
        match ruby_file_definition(file_path, defs.last()) {
            Some(r) => {
                assert((st.1 + prev).push(r) =~= st.1 + prev.push(r));
            },
            None => {},
        }
    }
}

proof fn lemma_processed_take(
    rules: DefinitionRules,
    file_path: Seq<char>,
    st: (Seq<EntryView>, Seq<FileDefinitionView>),
    defs: Seq<ParsedDefinition>,
    i: int,
)
    requires
        0 <= i < defs.len(),
    ensures
        processed(rules, file_path, st, defs.take(i + 1))
            == process_step(rules, file_path, processed(rules, file_path, st, defs.take(i)), defs[i]),
{
    assert(defs.take(i + 1).drop_last() =~= defs.take(i));
}

proof fn lemma_view_keys(es: Seq<DefinitionEntry>)
    ensures
        entry_views(es).map_values(|x: EntryView| view_key(x)) == entry_keys(es),
{
    assert(entry_views(es).map_values(|x: EntryView| view_key(x)) =~= entry_keys(es));
}

/// A copy of a name part.
pub fn duplicate_part(p: &FqnPart) -> (r: FqnPart)
    ensures
        r == *p,
{
    FqnPart { node_name: p.node_name.clone(), node_type: p.node_type }
}

/// A copy of the parts of a name.
pub fn duplicate_parts(parts: &Vec<FqnPart>) -> (r: Vec<FqnPart>)
    ensures
        r@ == parts@,
{
    let mut out: Vec<FqnPart> = Vec::new();
    let mut i: usize = 0;
    while i < parts.len()
        invariant
            i <= parts@.len(),
            out@ == parts@.take(i as int),
        decreases parts@.len() - i,
    {
        out.push(duplicate_part(&parts[i]));
        proof {
            assert(out@ =~= parts@.take(i + 1));
        }
        i = i + 1;
    }
    assert(parts@.take(parts@.len() as int) =~= parts@);
    out
}

/// The parts of a name, tagged with the rules' language.
pub fn make_fqn(rules: DefinitionRules, parts: Vec<FqnPart>) -> (f: FqnType)
    ensures
        fqn_view(f) == (rules, parts@),
{
    match rules {
        DefinitionRules::Ruby => FqnType::Ruby(parts),
        DefinitionRules::Python => FqnType::Python(parts),
        DefinitionRules::Kotlin => FqnType::Kotlin(parts),
        DefinitionRules::Java => FqnType::Java(parts),
        DefinitionRules::CSharp => FqnType::CSharp(parts),
        DefinitionRules::TypeScript => FqnType::TypeScript(parts),
        DefinitionRules::Rust => FqnType::Rust(parts),
    }
}

/// The location of a span of file `file_path`.
pub fn span_to_location(file_path: &str, range: &Range) -> (l: DefinitionLocation)
    ensures
        location_view(l) == span_location(file_path@, *range),
{
    DefinitionLocation {
        file_path: String::from_str(file_path),
        start_byte: range.byte_offset.0 as i64,
        end_byte: range.byte_offset.1 as i64,
        start_line: range.start.line as i32,
        end_line: range.end.line as i32,
        start_col: range.start.column as i32,
        end_col: range.end.column as i32,
    }
}

fn is_kept(rules: DefinitionRules, t: &DefinitionType) -> (r: bool)
    ensures
        r == kept(rules, *t),
{
    let language = match t {
        DefinitionType::Ruby(_) => Some(DefinitionRules::Ruby),
        DefinitionType::Python(_) => Some(DefinitionRules::Python),
        DefinitionType::Kotlin(_) => Some(DefinitionRules::Kotlin),
        DefinitionType::Java(_) => Some(DefinitionRules::Java),
        DefinitionType::CSharp(_) => Some(DefinitionRules::CSharp),
        DefinitionType::TypeScript(_) => Some(DefinitionRules::TypeScript),
        DefinitionType::Rust(_) => Some(DefinitionRules::Rust),
        DefinitionType::Unsupported => None,
    };
    let same = match language {
        Some(l) => l == rules,
        None => false,
    };
    same && !(rules == DefinitionRules::Java && *t == DefinitionType::Java(JavaDefinitionType::Package))
        && !(rules == DefinitionRules::TypeScript && *t == DefinitionType::TypeScript(TypeScriptDefinitionType::Namespace))
}

fn is_defined_by_file(rules: DefinitionRules, parts: &Vec<FqnPart>) -> (r: bool)
    ensures
        r == defines_file(rules, parts@),
{
    match rules {
        DefinitionRules::CSharp => CSharpAnalyzer::new().is_top_level_definition(parts),
        DefinitionRules::Kotlin => KotlinAnalyzer::new().is_top_level_definition(parts),
        DefinitionRules::Java => JavaAnalyzer::new().is_top_level_definition(parts),
        DefinitionRules::Python => PythonAnalyzer::new().is_top_level_definition(parts),
        DefinitionRules::TypeScript => TypeScriptAnalyzer::new().is_top_level_definition(parts),
        DefinitionRules::Ruby => true,
        DefinitionRules::Rust => true,
    }
}

/// Files each parsed definition of the file `relative_file_path` in the
/// definition map and records the ones the file defines, as `processed`
/// states.
pub fn process_definitions(
    rules: DefinitionRules,
    defs: &Vec<ParsedDefinition>,
    relative_file_path: &str,
    definition_map: &mut DefinitionMap,
    file_definition_relationships: &mut Vec<FileDefinitionRelationship>,
)
    requires
        keys_unique(old(definition_map)@),
    ensures
        keys_unique(final(definition_map)@),
        (entry_views(final(definition_map)@), file_definition_views(final(file_definition_relationships)@))
            == processed(
                rules,
                relative_file_path@,
                (entry_views(old(definition_map)@), file_definition_views(old(file_definition_relationships)@)),
                defs@,
            ),
{
    let ghost start = (entry_views(definition_map@), file_definition_views(file_definition_relationships@));
    let mut i: usize = 0;
    while i < defs.len()
        invariant
            i <= defs@.len(),
            keys_unique(definition_map@),
            (entry_views(definition_map@), file_definition_views(file_definition_relationships@))
                == processed(rules, relative_file_path@, start, defs@.take(i as int)),
        decreases defs@.len() - i,
    {
        proof {
            lemma_processed_take(rules, relative_file_path@, start, defs@, i as int);
            lemma_view_keys(definition_map@);
        }
        let d = &defs[i];
        i = i + 1;
        if !is_kept(rules, &d.definition_type) {
            continue;
        }
        let fqn_string = fqn_to_string(rules, &d.fqn);
        if rules == DefinitionRules::Rust {
            if definition_map.find(fqn_string.as_str(), relative_file_path).is_some() {
                continue;
            }
        }
        let location = span_to_location(relative_file_path, &d.range);
        let node = DefinitionNode::new(fqn_string.clone(), d.name.clone(), d.definition_type, location.duplicate());
        let entry = DefinitionEntry {
            fqn: fqn_string.clone(),
            file_path: String::from_str(relative_file_path),
            node,
            fqn_type: make_fqn(rules, duplicate_parts(&d.fqn)),
        };
        let ghost before = definition_map@;
        proof {
            assert(entry_view(entry) == parsed_entry(rules, relative_file_path@, *d));
            assert(entry_key(entry) == view_key(entry_view(entry)));
        }
        definition_map.insert(entry);
        proof {
            match key_index(entry_keys(before), entry_key(entry)) {
                Some(k) => {
                    assert(entry_views(definition_map@) =~= entry_views(before).update(k, entry_view(entry)));
                },
                None => {
                    assert(entry_views(definition_map@) =~= entry_views(before).push(entry_view(entry)));
                },
            }
        }
        if is_defined_by_file(rules, &d.fqn) {
            let rel = FileDefinitionRelationship {
                file_path: String::from_str(relative_file_path),
                definition_fqn: fqn_string,
                relationship_type: RelationshipType::FileDefines,
                definition_location: location,
            };
            let ghost rels_before = file_definition_relationships@;
            file_definition_relationships.push(rel);
            proof {
                assert(file_definition_views(file_definition_relationships@)
                    =~= file_definition_views(rels_before).push(file_definition_view(rel)));
            }
        }
    }
    proof {
        assert(defs@.take(defs@.len() as int) =~= defs@);
    }
}

} // verus!
