//! Python calls: the relationships a resolved reference adds, from the
//! definition that makes it (or its file) to what it calls.

use vstd::prelude::*;
use crate::analysis::definition_map::{keys_unique, lookup_entry, relationship_view, DefinitionMap, DefinitionRelationshipView};
use crate::analysis::import_map::{
    definition_import_view, file_import_view, import_location_view, span_to_import_location, DefinitionImportView,
    FileImportView,
};
use crate::analysis::import_resolution::{
    resolve_import_chain, resolved_targets, ImportChainMap, ImportDefinitionMap, ImportFileMap, ResolvedTarget,
};
use crate::analysis::languages::definitions::{
    file_definition_view, location_view, span_location, span_to_location, FileDefinitionView, LocationView,
};
use crate::analysis::languages::python::PythonAnalyzer;
use crate::analysis::languages::{fqn_text, fqn_to_string, DefinitionRules};
use crate::analysis::types::{
    DefinitionImportedSymbolRelationship, DefinitionLocation, DefinitionNode, DefinitionRelationship, FileDefinitionRelationship,
    FileImportedSymbolRelationship, FqnPart, Range,
};
use crate::graph::RelationshipType;

verus! {

/// What a Python reference was resolved to.
pub enum TargetResolution {
    /// A definition of the same file, by its name parts.
    Definition { fqn: Vec<FqnPart> },
    /// A symbol imported in the same file, by the span of the import.
    ImportedSymbol(Range),
    /// A chain of names resolved only in part; it adds nothing.
    PartialResolution,
}

/// The relationships references add.
pub struct ReferenceRelationships {
    pub definition_relationships: Vec<DefinitionRelationship>,
    pub definition_imported_symbol_relationships: Vec<DefinitionImportedSymbolRelationship>,
    pub file_definition_relationships: Vec<FileDefinitionRelationship>,
    pub file_import_relationships: Vec<FileImportedSymbolRelationship>,
}

/// The four lists of relationships, by value.
pub type ReferenceViews = (
    Seq<DefinitionRelationshipView>,
    Seq<DefinitionImportView>,
    Seq<FileDefinitionView>,
    Seq<FileImportView>,
);

pub open spec fn reference_views(r: ReferenceRelationships) -> ReferenceViews {
    (
        r.definition_relationships@.map_values(|x: DefinitionRelationship| relationship_view(x)),
        r.definition_imported_symbol_relationships@.map_values(|x: DefinitionImportedSymbolRelationship| definition_import_view(x)),
        r.file_definition_relationships@.map_values(|x: FileDefinitionRelationship| file_definition_view(x)),
        r.file_import_relationships@.map_values(|x: FileImportedSymbolRelationship| file_import_view(x)),
    )
}

/// A call, or one of several possible calls.
pub open spec fn call_type(ambiguous: bool) -> RelationshipType {
    if ambiguous { RelationshipType::AmbiguouslyCalls } else { RelationshipType::Calls }
}

/// The relationship one target of a reference at `site` in `file_path`
/// adds: from the definition `source` that makes the reference, recording
/// the site, or from the file when there is none, to the target.
pub open spec fn reference_step(
    st: ReferenceViews,
    file_path: Seq<char>,
    source: Option<DefinitionNode>,
    t: ResolvedTarget,
    ambiguous: bool,
    site: LocationView,
) -> ReferenceViews {
    match (source, t) {
        (None, ResolvedTarget::Definition(d)) => (st.0, st.1, st.2.push(FileDefinitionView {
            file_path,
            definition_fqn: d.fqn@,
            relationship_type: call_type(ambiguous),
            location: location_view(d.location),
        }), st.3),
        (None, ResolvedTarget::ImportedSymbol(n)) => (st.0, st.1, st.2, st.3.push(
            (file_path, import_location_view(n.location), call_type(ambiguous)),
        )),
        (Some(s), ResolvedTarget::Definition(d)) => (st.0.push(DefinitionRelationshipView {
            from_file_path: s.location.file_path@,
            to_file_path: d.location.file_path@,
            from_definition_fqn: s.fqn@,
            to_definition_fqn: d.fqn@,
            from_location: s.location,
            to_location: d.location,
            relationship_type: call_type(ambiguous),
            source_location: Some(site),
        }), st.1, st.2, st.3),
        (Some(s), ResolvedTarget::ImportedSymbol(n)) => (st.0, st.1.push(
            (file_path, s.fqn@, import_location_view(n.location), call_type(ambiguous), location_view(s.location), Some(site)),
        ), st.2, st.3),
    }
}

/// The relationships the targets add, in order.
pub open spec fn reference_edges(
    st: ReferenceViews,
    file_path: Seq<char>,
    source: Option<DefinitionNode>,
    targets: Seq<ResolvedTarget>,
    ambiguous: bool,
    site: LocationView,
) -> ReferenceViews
    decreases targets.len(),
{
    if targets.len() == 0 {
        st
    } else {
        reference_step(
            reference_edges(st, file_path, source, targets.drop_last(), ambiguous, site),
            file_path, source, targets.last(), ambiguous, site,
        )
    }
}

/// What a resolution stands for: the targets it reaches and whether the
/// calls are ambiguous. A definition counts when it is filed under its
/// name in the file; an imported symbol is followed through its chain, and
/// more than one target makes the calls ambiguous; a partial resolution
/// reaches nothing.
pub open spec fn resolution_targets(
    target: TargetResolution,
    file_path: Seq<char>,
    definitions: Seq<crate::analysis::definition_map::DefinitionEntry>,
    syms: Seq<(crate::analysis::types::ImportedSymbolLocation, Vec<crate::analysis::types::ImportedSymbolNode>)>,
    defs: Seq<(crate::analysis::types::ImportedSymbolLocation, Vec<DefinitionNode>)>,
    files: Seq<(crate::analysis::types::ImportedSymbolLocation, Vec<String>)>,
    is_ambiguous: bool,
) -> (Seq<ResolvedTarget>, bool) {
    match target {
        TargetResolution::Definition { fqn } => match lookup_entry(definitions, fqn_text(DefinitionRules::Python, fqn@), file_path) {
            Some(i) => (seq![ResolvedTarget::Definition(definitions[i].node)], is_ambiguous),
            None => (Seq::empty(), is_ambiguous),
        },
        TargetResolution::ImportedSymbol(range) => match resolved_targets(span_location(file_path, range), syms, defs, files) {
            Some(rs) => (rs, rs.len() > 1 || is_ambiguous),
            None => (Seq::empty(), is_ambiguous),
        },
        TargetResolution::PartialResolution => (Seq::empty(), is_ambiguous),
    }
}

fn duplicate_definition(d: &DefinitionNode) -> (c: DefinitionNode)
    ensures
        c == *d,
{
    DefinitionNode {
        fqn: d.fqn.clone(),
        name: d.name.clone(),
        definition_type: d.definition_type,
        location: d.location.duplicate(),
    }
}

fn call_type_of(ambiguous: bool) -> (t: RelationshipType)
    ensures
        t == call_type(ambiguous),
{
    if ambiguous { RelationshipType::AmbiguouslyCalls } else { RelationshipType::Calls }
}

/// Adds the relationship of one target, as `reference_step` states.
fn add_reference_edge(
    file_path: &str,
    source: &Option<DefinitionNode>,
    t: &ResolvedTarget,
    ambiguous: bool,
    site: &DefinitionLocation,
    rels: &mut ReferenceRelationships,
)
    ensures
        reference_views(*final(rels)) == reference_step(reference_views(*old(rels)), file_path@, *source, *t, ambiguous, location_view(*site)),
{
    let ghost st = reference_views(*rels);
    let ty = call_type_of(ambiguous);
    match (source, t) {
        (None, ResolvedTarget::Definition(d)) => {
            let r = FileDefinitionRelationship {
                file_path: String::from_str(file_path),
                definition_fqn: d.fqn.clone(),
                relationship_type: ty,
                definition_location: d.location.duplicate(),
            };
            let ghost before = rels.file_definition_relationships@;
            rels.file_definition_relationships.push(r);
            assert(rels.file_definition_relationships@.map_values(|x: FileDefinitionRelationship| file_definition_view(x))
                =~= before.map_values(|x: FileDefinitionRelationship| file_definition_view(x)).push(file_definition_view(r)));
        },
        (None, ResolvedTarget::ImportedSymbol(n)) => {
            let r = FileImportedSymbolRelationship {
                file_path: String::from_str(file_path),
                import_location: n.location.duplicate(),
                relationship_type: ty,
            };
            let ghost before = rels.file_import_relationships@;
            rels.file_import_relationships.push(r);
            assert(rels.file_import_relationships@.map_values(|x: FileImportedSymbolRelationship| file_import_view(x))
                =~= before.map_values(|x: FileImportedSymbolRelationship| file_import_view(x)).push(file_import_view(r)));
        },
        (Some(s), ResolvedTarget::Definition(d)) => {
            let r = DefinitionRelationship {
                from_file_path: s.location.file_path.clone(),
                to_file_path: d.location.file_path.clone(),
                from_definition_fqn: s.fqn.clone(),
                to_definition_fqn: d.fqn.clone(),
                from_location: s.location.duplicate(),
                to_location: d.location.duplicate(),
                relationship_type: ty,
                source_location: Some(site.duplicate()),
            };
            let ghost before = rels.definition_relationships@;
            rels.definition_relationships.push(r);
            assert(rels.definition_relationships@.map_values(|x: DefinitionRelationship| relationship_view(x))
                =~= before.map_values(|x: DefinitionRelationship| relationship_view(x)).push(relationship_view(r)));
        },
        (Some(s), ResolvedTarget::ImportedSymbol(n)) => {
            let r = DefinitionImportedSymbolRelationship {
                file_path: String::from_str(file_path),
                definition_fqn: s.fqn.clone(),
                imported_symbol_location: n.location.duplicate(),
                relationship_type: ty,
                definition_location: s.location.duplicate(),
                source_location: Some(site.duplicate()),
            };
            let ghost before = rels.definition_imported_symbol_relationships@;
            rels.definition_imported_symbol_relationships.push(r);
            assert(rels.definition_imported_symbol_relationships@.map_values(|x: DefinitionImportedSymbolRelationship| definition_import_view(x))
                =~= before.map_values(|x: DefinitionImportedSymbolRelationship| definition_import_view(x)).push(definition_import_view(r)));
        },
    }
}

/// Adds the relationships of the targets in order, as `reference_edges`
/// states.
fn add_reference_edges(
    file_path: &str,
    source: &Option<DefinitionNode>,
    targets: &Vec<ResolvedTarget>,
    ambiguous: bool,
    site: &DefinitionLocation,
    rels: &mut ReferenceRelationships,
)
    ensures
        reference_views(*final(rels)) == reference_edges(reference_views(*old(rels)), file_path@, *source, targets@, ambiguous, location_view(*site)),
{
    let ghost st = reference_views(*rels);
    let mut i: usize = 0;
    while i < targets.len()
        invariant
            i <= targets@.len(),
            reference_views(*rels) == reference_edges(st, file_path@, *source, targets@.take(i as int), ambiguous, location_view(*site)),
        decreases targets@.len() - i,
    {
        assert(targets@.take(i + 1).drop_last() =~= targets@.take(i as int));
        add_reference_edge(file_path, source, &targets[i], ambiguous, site, rels);
        i = i + 1;
    }
    assert(targets@.take(targets@.len() as int) =~= targets@);
}

impl PythonAnalyzer {
    /// Adds the call relationships of one reference at `reference_range` in
    /// `file_path`, made by `source_definition` (or by the file when there
    /// is none), to what `resolved_target` reaches, as `resolution_targets`
    /// and `reference_edges` state; a relationship from a definition records
    /// the reference's span as where the call is.
    pub fn process_resolved_target(
        &self,
        resolved_target: &TargetResolution,
        reference_range: &Range,
        file_path: &str,
        source_definition: &Option<DefinitionNode>,
        definition_map: &DefinitionMap,
        rels: &mut ReferenceRelationships,
        imported_symbol_to_imported_symbols: &ImportChainMap,
        imported_symbol_to_definitions: &ImportDefinitionMap,
        imported_symbol_to_files: &ImportFileMap,
        is_ambiguous: bool,
    )
        requires
            keys_unique(definition_map@),
            resolved_target matches TargetResolution::ImportedSymbol(range) ==> resolved_targets(
                span_location(file_path@, *range),
                imported_symbol_to_imported_symbols.entries@,
                imported_symbol_to_definitions.entries@,
                imported_symbol_to_files.entries@,
            ) is Some,
        ensures
            ({
                let (targets, ambiguous) = resolution_targets(
                    *resolved_target,
                    file_path@,
                    definition_map@,
                    imported_symbol_to_imported_symbols.entries@,
                    imported_symbol_to_definitions.entries@,
                    imported_symbol_to_files.entries@,
                    is_ambiguous,
                );
                reference_views(*final(rels)) == reference_edges(
                    reference_views(*old(rels)),
                    file_path@,
                    *source_definition,
                    targets,
                    ambiguous,
                    span_location(file_path@, *reference_range),
                )
            }),
    {
        let site = span_to_location(file_path, reference_range);
        match resolved_target {
            TargetResolution::Definition { fqn } => {
                let name = fqn_to_string(DefinitionRules::Python, fqn);
                match definition_map.find(name.as_str(), file_path) {
                    Some(i) => {
                        let target = duplicate_definition(&definition_map.entry_at(i).node);
                        let targets = vec![ResolvedTarget::Definition(target)];
                        add_reference_edges(file_path, source_definition, &targets, is_ambiguous, &site, rels);
                        assert(targets@ =~= seq![ResolvedTarget::Definition(definition_map@[i as int].node)]);
                    },
                    None => {
                        let targets: Vec<ResolvedTarget> = Vec::new();
                        add_reference_edges(file_path, source_definition, &targets, is_ambiguous, &site, rels);
                        assert(targets@ =~= Seq::<ResolvedTarget>::empty());
                    },
                }
            },
            TargetResolution::ImportedSymbol(range) => {
                let start = span_to_import_location(file_path, range);
                let targets = resolve_import_chain(
                    &start,
                    imported_symbol_to_imported_symbols,
                    imported_symbol_to_definitions,
                    imported_symbol_to_files,
                );
                let ambiguous = targets.len() > 1 || is_ambiguous;
                add_reference_edges(file_path, source_definition, &targets, ambiguous, &site, rels);
            },
            TargetResolution::PartialResolution => {
                let targets: Vec<ResolvedTarget> = Vec::new();
                add_reference_edges(file_path, source_definition, &targets, is_ambiguous, &site, rels);
                assert(targets@ =~= Seq::<ResolvedTarget>::empty());
            },
        }
    }
}

/// What a reference was found to point at.
pub enum ReferenceTarget {
    Resolved(TargetResolution),
    /// Several possible targets; each one is called ambiguously.
    Ambiguous(Vec<TargetResolution>),
    /// Nothing found; it adds nothing.
    Unresolved,
}

/// A Python reference of a file: where it is, the definition it stands
/// in, by its name parts (none at file level), and what it points at.
pub struct PythonReference {
    pub range: Range,
    pub scope: Option<Vec<FqnPart>>,
    pub target: ReferenceTarget,
}

type ChainEntries = Seq<(crate::analysis::types::ImportedSymbolLocation, Vec<crate::analysis::types::ImportedSymbolNode>)>;
type DefinitionEntries = Seq<(crate::analysis::types::ImportedSymbolLocation, Vec<DefinitionNode>)>;
type FileEntries = Seq<(crate::analysis::types::ImportedSymbolLocation, Vec<String>)>;

/// Whether a resolution can be followed: an imported symbol's chain
/// reaches no location that files are filed under.
pub open spec fn followable(t: TargetResolution, file_path: Seq<char>, syms: ChainEntries, defs: DefinitionEntries, files: FileEntries) -> bool {
    t matches TargetResolution::ImportedSymbol(range) ==> resolved_targets(span_location(file_path, range), syms, defs, files) is Some
}

/// Whether every resolution of a reference can be followed.
pub open spec fn reference_followable(r: PythonReference, file_path: Seq<char>, syms: ChainEntries, defs: DefinitionEntries, files: FileEntries) -> bool {
    match r.target {
        ReferenceTarget::Resolved(t) => followable(t, file_path, syms, defs, files),
        ReferenceTarget::Ambiguous(ts) => forall|i: int| 0 <= i < ts@.len() ==> followable(#[trigger] ts@[i], file_path, syms, defs, files),
        ReferenceTarget::Unresolved => true,
    }
}

/// The definition a reference stands in: the one filed under its scope's
/// name in the file, when it has a scope.
pub open spec fn reference_source(definitions: Seq<crate::analysis::definition_map::DefinitionEntry>, scope: Option<Vec<FqnPart>>, file_path: Seq<char>) -> Option<DefinitionNode> {
    match scope {
        Some(s) => match lookup_entry(definitions, fqn_text(DefinitionRules::Python, s@), file_path) {
            Some(i) => Some(definitions[i].node),
            None => None,
        },
        None => None,
    }
}

/// The relationships one resolution adds.
pub open spec fn resolution_edges(
    st: ReferenceViews,
    t: TargetResolution,
    file_path: Seq<char>,
    source: Option<DefinitionNode>,
    definitions: Seq<crate::analysis::definition_map::DefinitionEntry>,
    syms: ChainEntries,
    defs: DefinitionEntries,
    files: FileEntries,
    is_ambiguous: bool,
    site: LocationView,
) -> ReferenceViews {
    let p = resolution_targets(t, file_path, definitions, syms, defs, files, is_ambiguous);
    reference_edges(st, file_path, source, p.0, p.1, site)
}

/// The relationships the possible targets of an ambiguous reference add,
/// each one called ambiguously.
pub open spec fn ambiguous_edges(
    st: ReferenceViews,
    ts: Seq<TargetResolution>,
    file_path: Seq<char>,
    source: Option<DefinitionNode>,
    definitions: Seq<crate::analysis::definition_map::DefinitionEntry>,
    syms: ChainEntries,
    defs: DefinitionEntries,
    files: FileEntries,
    site: LocationView,
) -> ReferenceViews
    decreases ts.len(),
{
    if ts.len() == 0 {
        st
    } else {
        resolution_edges(
            ambiguous_edges(st, ts.drop_last(), file_path, source, definitions, syms, defs, files, site),
            ts.last(), file_path, source, definitions, syms, defs, files, true, site,
        )
    }
}

/// The relationships the references of a file add, in order.
pub open spec fn references_edges(
    st: ReferenceViews,
    refs: Seq<PythonReference>,
    file_path: Seq<char>,
    definitions: Seq<crate::analysis::definition_map::DefinitionEntry>,
    syms: ChainEntries,
    defs: DefinitionEntries,
    files: FileEntries,
) -> ReferenceViews
    decreases refs.len(),
{
    if refs.len() == 0 {
        st
    } else {
        let prev = references_edges(st, refs.drop_last(), file_path, definitions, syms, defs, files);
        let r = refs.last();
        let source = reference_source(definitions, r.scope, file_path);
        let site = span_location(file_path, r.range);
        match r.target {
            ReferenceTarget::Resolved(t) => resolution_edges(prev, t, file_path, source, definitions, syms, defs, files, false, site),
            ReferenceTarget::Ambiguous(ts) => ambiguous_edges(prev, ts@, file_path, source, definitions, syms, defs, files, site),
            ReferenceTarget::Unresolved => prev,
        }
    }
}

impl PythonAnalyzer {
    /// Adds the call relationships of the references of the file
    /// `relative_file_path`, as `references_edges` states: a resolved
    /// reference calls its target, an ambiguous one each of its possible
    /// targets ambiguously, and an unresolved one adds nothing.
    pub fn process_references(
        &self,
        references: &Vec<PythonReference>,
        relative_file_path: &str,
        definition_map: &DefinitionMap,
        rels: &mut ReferenceRelationships,
        imported_symbol_to_imported_symbols: &ImportChainMap,
        imported_symbol_to_definitions: &ImportDefinitionMap,
        imported_symbol_to_files: &ImportFileMap,
    )
        requires
            keys_unique(definition_map@),
            forall|i: int| 0 <= i < references@.len() ==> reference_followable(
                #[trigger] references@[i],
                relative_file_path@,
                imported_symbol_to_imported_symbols.entries@,
                imported_symbol_to_definitions.entries@,
                imported_symbol_to_files.entries@,
            ),
        ensures
            reference_views(*final(rels)) == references_edges(
                reference_views(*old(rels)),
                references@,
                relative_file_path@,
                definition_map@,
                imported_symbol_to_imported_symbols.entries@,
                imported_symbol_to_definitions.entries@,
                imported_symbol_to_files.entries@,
            ),
    {
        let ghost st = reference_views(*rels);
        let ghost syms = imported_symbol_to_imported_symbols.entries@;
        let ghost defs = imported_symbol_to_definitions.entries@;
        let ghost files = imported_symbol_to_files.entries@;
        let mut i: usize = 0;
        while i < references.len()
            invariant
                keys_unique(definition_map@),
                syms == imported_symbol_to_imported_symbols.entries@,
                defs == imported_symbol_to_definitions.entries@,
                files == imported_symbol_to_files.entries@,
                forall|k: int| 0 <= k < references@.len() ==> reference_followable(#[trigger] references@[k], relative_file_path@, syms, defs, files),
                i <= references@.len(),
                reference_views(*rels) == references_edges(st, references@.take(i as int), relative_file_path@, definition_map@, syms, defs, files),
            decreases references@.len() - i,
        {
            assert(references@.take(i + 1).drop_last() =~= references@.take(i as int));
            let r = &references[i];
            assert(reference_followable(references@[i as int], relative_file_path@, syms, defs, files));
            let source: Option<DefinitionNode> = match &r.scope {
                Some(s) => {
                    let name = fqn_to_string(DefinitionRules::Python, s);
                    match definition_map.find(name.as_str(), relative_file_path) {
                        Some(k) => Some(duplicate_definition(&definition_map.entry_at(k).node)),
                        None => None,
                    }
                },
                None => None,
            };
            match &r.target {
                ReferenceTarget::Resolved(t) => {
                    self.process_resolved_target(
                        t, &r.range, relative_file_path, &source, definition_map, rels,
                        imported_symbol_to_imported_symbols, imported_symbol_to_definitions, imported_symbol_to_files, false,
                    );
                },
                ReferenceTarget::Ambiguous(ts) => {
                    let ghost before = reference_views(*rels);
                    let mut j: usize = 0;
                    while j < ts.len()
                        invariant
                            keys_unique(definition_map@),
                            syms == imported_symbol_to_imported_symbols.entries@,
                            defs == imported_symbol_to_definitions.entries@,
                            files == imported_symbol_to_files.entries@,
                            forall|k: int| 0 <= k < ts@.len() ==> followable(#[trigger] ts@[k], relative_file_path@, syms, defs, files),
                            j <= ts@.len(),
                            reference_views(*rels) == ambiguous_edges(
                                before, ts@.take(j as int), relative_file_path@, source, definition_map@, syms, defs, files,
                                span_location(relative_file_path@, r.range),
                            ),
                        decreases ts@.len() - j,
                    {
                        assert(ts@.take(j + 1).drop_last() =~= ts@.take(j as int));
                        assert(followable(ts@[j as int], relative_file_path@, syms, defs, files));
                        self.process_resolved_target(
                            &ts[j], &r.range, relative_file_path, &source, definition_map, rels,
                            imported_symbol_to_imported_symbols, imported_symbol_to_definitions, imported_symbol_to_files, true,
                        );
                        j = j + 1;
                    }
                    assert(ts@.take(ts@.len() as int) =~= ts@);
                },
                ReferenceTarget::Unresolved => {},
            }
            i = i + 1;
        }
        assert(references@.take(references@.len() as int) =~= references@);
    }
}

} // verus!
