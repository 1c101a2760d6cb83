//! Kotlin references: calls and property references between the
//! definitions of one file.

use vstd::prelude::*;
use crate::analysis::definition_map::{
    keys_unique, lookup_entry, relationship_view, DefinitionEntry, DefinitionMap, DefinitionRelationshipView,
};
use crate::analysis::languages::kotlin::KotlinAnalyzer;
use crate::analysis::languages::{fqn_text, fqn_to_string, DefinitionRules};
use crate::analysis::types::{DefinitionNode, DefinitionRelationship, FqnPart};
use crate::graph::RelationshipType;
use crate::seq_util::{filter_map, lemma_filter_map_front};

verus! {

/// How a Kotlin reference uses its target.
#[derive(Debug, Clone, Copy, PartialEq, Eq, Structural)]
pub enum KotlinReferenceKind {
    MethodCall,
    PropertyReference,
}

/// What a Kotlin reference was resolved to.
pub enum KotlinTarget {
    /// A definition, by its name parts.
    Definition(Vec<FqnPart>),
    /// An expression resolved part by part: each part's definition, by its
    /// name parts, or nothing for a part not resolved to a definition.
    Partial(Vec<Option<Vec<FqnPart>>>),
    /// Not resolved to a definition.
    Other,
}

/// A Kotlin reference: the definition it stands in (by its name parts),
/// how it uses its target, and the target.
pub struct KotlinReference {
    pub scope: Option<Vec<FqnPart>>,
    pub kind: KotlinReferenceKind,
    pub target: KotlinTarget,
}

/// The relationship type of a use.
pub open spec fn use_type(k: KotlinReferenceKind) -> RelationshipType {
    match k {
        KotlinReferenceKind::MethodCall => RelationshipType::Calls,
        KotlinReferenceKind::PropertyReference => RelationshipType::PropertyReference,
    }
}

/// The definition filed under the Kotlin name `fqn` in the file.
pub open spec fn kotlin_definition(definitions: Seq<DefinitionEntry>, fqn: Seq<FqnPart>, file_path: Seq<char>) -> Option<DefinitionNode> {
    match lookup_entry(definitions, fqn_text(DefinitionRules::Kotlin, fqn), file_path) {
        Some(i) => Some(definitions[i].node),
        None => None,
    }
}

/// The relationship from `s` to `t` of type `ty`.
pub open spec fn use_view(s: DefinitionNode, t: DefinitionNode, ty: RelationshipType) -> DefinitionRelationshipView {
    DefinitionRelationshipView {
        from_file_path: s.location.file_path@,
        to_file_path: t.location.file_path@,
        from_definition_fqn: s.fqn@,
        to_definition_fqn: t.fqn@,
        from_location: s.location,
        to_location: t.location,
        relationship_type: ty,
        source_location: None,
    }
}

/// The relationships of the parts of a partly resolved expression, up to
/// the first part not resolved to a definition; a part whose definition is
/// not filed adds nothing.
pub open spec fn partial_edges(
    st: Seq<DefinitionRelationshipView>,
    parts: Seq<Option<Vec<FqnPart>>>,
    s: DefinitionNode,
    ty: RelationshipType,
    definitions: Seq<DefinitionEntry>,
    file_path: Seq<char>,
) -> Seq<DefinitionRelationshipView>
    decreases parts.len(),
{
    if parts.len() == 0 {
        st
    } else {
        match parts[0] {
            None => st,
            Some(fqn) => {
                let next = match kotlin_definition(definitions, fqn@, file_path) {
                    Some(t) => st.push(use_view(s, t, ty)),
                    None => st,
                };
                partial_edges(next, parts.skip(1), s, ty, definitions, file_path)
            },
        }
    }
}

/// The relationship a part of a partly resolved expression adds: to its
/// definition when that is filed in the file.
pub open spec fn part_use(
    part: Option<Vec<FqnPart>>,
    s: DefinitionNode,
    ty: RelationshipType,
    definitions: Seq<DefinitionEntry>,
    file_path: Seq<char>,
) -> Option<DefinitionRelationshipView> {
    match part {
        Some(fqn) => match kotlin_definition(definitions, fqn@, file_path) {
            Some(t) => Some(use_view(s, t, ty)),
            None => None,
        },
        None => None,
    }
}

/// The parts of a partly resolved expression that are resolved to
/// definitions come first, up to the first part that is not (`k` of them):
/// each of those parts whose definition is filed in the file adds one use
/// from the source, in order, and a part whose definition is filed
/// elsewhere adds nothing and does not stop the later ones.
pub proof fn lemma_partial_edges_links_filed_parts(
    st: Seq<DefinitionRelationshipView>,
    parts: Seq<Option<Vec<FqnPart>>>,
    s: DefinitionNode,
    ty: RelationshipType,
    definitions: Seq<DefinitionEntry>,
    file_path: Seq<char>,
    k: int,
)
    requires
        0 <= k <= parts.len(),
        k < parts.len() ==> parts[k] is None,
        forall|i: int| 0 <= i < k ==> (#[trigger] parts[i]) is Some,
    ensures
        partial_edges(st, parts, s, ty, definitions, file_path)
            == st + filter_map(parts.take(k), |p: Option<Vec<FqnPart>>| part_use(p, s, ty, definitions, file_path)),
    decreases parts.len(),
{
    let g = |p: Option<Vec<FqnPart>>| part_use(p, s, ty, definitions, file_path);
    if k == 0 {
        assert(parts.take(0) =~= Seq::<Option<Vec<FqnPart>>>::empty());
        assert(st + Seq::<DefinitionRelationshipView>::empty() =~= st);
    } else {
        let fqn = parts[0]->0;
        let next = match kotlin_definition(definitions, fqn@, file_path) {
            Some(t) => st.push(use_view(s, t, ty)),
            None => st,
        };
        let rest = parts.skip(1);
        assert forall|i: int| 0 <= i < k - 1 implies (#[trigger] rest[i]) is Some by {
            assert(rest[i] == parts[i + 1]);
        }
        if k - 1 < rest.len() {
            assert(rest[k - 1] == parts[k]);
        }
        lemma_partial_edges_links_filed_parts(next, rest, s, ty, definitions, file_path, k - 1);
        lemma_filter_map_front(parts.take(k), g);
        assert(parts.take(k)[0] == parts[0]);
        assert(parts.take(k).skip(1) =~= rest.take(k - 1));
        match kotlin_definition(definitions, fqn@, file_path) {
            Some(t) => {
                assert(st.push(use_view(s, t, ty)) + filter_map(rest.take(k - 1), g)
                    =~= st + (seq![use_view(s, t, ty)] + filter_map(rest.take(k - 1), g)));
            },
            None => {},
        }
    }
}

/// The relationships one reference adds: none without a filed source
/// definition; else to its resolved definition, or to the definitions of
/// the parts of a partly resolved expression.
pub open spec fn kotlin_reference_edges(
    st: Seq<DefinitionRelationshipView>,
    r: KotlinReference,
    definitions: Seq<DefinitionEntry>,
    file_path: Seq<char>,
) -> Seq<DefinitionRelationshipView> {
    match r.scope {
        None => st,
        Some(scope) => match kotlin_definition(definitions, scope@, file_path) {
            None => st,
            Some(s) => match r.target {
                KotlinTarget::Definition(fqn) => match kotlin_definition(definitions, fqn@, file_path) {
                    Some(t) => st.push(use_view(s, t, use_type(r.kind))),
                    None => st,
                },
                KotlinTarget::Partial(parts) => partial_edges(st, parts@, s, use_type(r.kind), definitions, file_path),
                KotlinTarget::Other => st,
            },
        },
    }
}

/// The relationships the references add, in order.
pub open spec fn kotlin_references_edges(
    st: Seq<DefinitionRelationshipView>,
    refs: Seq<KotlinReference>,
    definitions: Seq<DefinitionEntry>,
    file_path: Seq<char>,
) -> Seq<DefinitionRelationshipView>
    decreases refs.len(),
{
    if refs.len() == 0 {
        st
    } else {
        kotlin_reference_edges(kotlin_references_edges(st, refs.drop_last(), definitions, file_path), refs.last(), definitions, file_path)
    }
}

fn use_type_of(k: KotlinReferenceKind) -> (t: RelationshipType)
    ensures
        t == use_type(k),
{
    match k {
        KotlinReferenceKind::MethodCall => RelationshipType::Calls,
        KotlinReferenceKind::PropertyReference => RelationshipType::PropertyReference,
    }
}

fn find_kotlin_definition<'a>(definition_map: &'a DefinitionMap, fqn: &Vec<FqnPart>, file_path: &str) -> (r: Option<&'a DefinitionNode>)
    requires
        keys_unique(definition_map@),
    ensures
        match r {
            Some(n) => kotlin_definition(definition_map@, fqn@, file_path@) == Some(*n),
            None => kotlin_definition(definition_map@, fqn@, file_path@) is None,
        },
{
    let name = fqn_to_string(DefinitionRules::Kotlin, fqn);
    match definition_map.find(name.as_str(), file_path) {
        Some(i) => Some(&definition_map.entry_at(i).node),
        None => None,
    }
}

fn push_use(out: &mut Vec<DefinitionRelationship>, s: &DefinitionNode, t: &DefinitionNode, ty: RelationshipType)
    ensures
        final(out)@.map_values(|r: DefinitionRelationship| relationship_view(r))
            == old(out)@.map_values(|r: DefinitionRelationship| relationship_view(r)).push(use_view(*s, *t, ty)),
{
    let r = DefinitionRelationship {
        from_file_path: s.location.file_path.clone(),
        to_file_path: t.location.file_path.clone(),
        from_definition_fqn: s.fqn.clone(),
        to_definition_fqn: t.fqn.clone(),
        from_location: s.location.duplicate(),
        to_location: t.location.duplicate(),
        relationship_type: ty,
        source_location: None,
    };
    let ghost before = out@;
    out.push(r);
    assert(out@.map_values(|r: DefinitionRelationship| relationship_view(r))
        =~= before.map_values(|r: DefinitionRelationship| relationship_view(r)).push(relationship_view(r)));
}

impl KotlinAnalyzer {
    /// Adds the relationships of the references of the file
    /// `relative_file_path`, as `kotlin_references_edges` states.
    pub fn process_references(
        &self,
        references: &Vec<KotlinReference>,
        relative_file_path: &str,
        definition_map: &DefinitionMap,
        definition_relationships: &mut Vec<DefinitionRelationship>,
    )
        requires
            keys_unique(definition_map@),
        ensures
            final(definition_relationships)@.map_values(|r: DefinitionRelationship| relationship_view(r))
                == kotlin_references_edges(
                    old(definition_relationships)@.map_values(|r: DefinitionRelationship| relationship_view(r)),
                    references@,
                    definition_map@,
                    relative_file_path@,
                ),
    {
        let ghost st = definition_relationships@.map_values(|r: DefinitionRelationship| relationship_view(r));
        let mut i: usize = 0;
        while i < references.len()
            invariant
                keys_unique(definition_map@),
                i <= references@.len(),
                definition_relationships@.map_values(|r: DefinitionRelationship| relationship_view(r))
                    == kotlin_references_edges(st, references@.take(i as int), definition_map@, relative_file_path@),
            decreases references@.len() - i,
        {
            assert(references@.take(i + 1).drop_last() =~= references@.take(i as int));
            let r = &references[i];
            i = i + 1;
            let scope = match &r.scope {
                Some(s) => s,
                None => continue,
            };
            let source = match find_kotlin_definition(definition_map, scope, relative_file_path) {
                Some(s) => s,
                None => continue,
            };
            let ty = use_type_of(r.kind);
            match &r.target {
                KotlinTarget::Definition(fqn) => {
                    match find_kotlin_definition(definition_map, fqn, relative_file_path) {
                        Some(t) => push_use(definition_relationships, source, t, ty),
                        None => {},
                    }
                },
                KotlinTarget::Partial(parts) => {
                    let ghost base = definition_relationships@.map_values(|r: DefinitionRelationship| relationship_view(r));
                    let mut j: usize = 0;
                    assert(parts@.skip(0) =~= parts@);
                    while j < parts.len()
                        invariant
                            keys_unique(definition_map@),
                            j <= parts@.len(),
                            forall|m: int| 0 <= m < j ==> (#[trigger] parts@[m]) is Some,
                            partial_edges(base, parts@, *source, ty, definition_map@, relative_file_path@)
                                == partial_edges(
                                    definition_relationships@.map_values(|r: DefinitionRelationship| relationship_view(r)),
                                    parts@.skip(j as int),
                                    *source,
                                    ty,
                                    definition_map@,
                                    relative_file_path@,
                                ),
                        ensures
                            partial_edges(base, parts@, *source, ty, definition_map@, relative_file_path@)
                                == definition_relationships@.map_values(|r: DefinitionRelationship| relationship_view(r)),
                        decreases parts@.len() - j,
                    {
                        assert(parts@.skip(j as int)[0] == parts@[j as int]);
                        assert(parts@.skip(j as int).skip(1) =~= parts@.skip(j + 1));
                        match &parts[j] {
                            None => break,
                            Some(fqn) => {
                                match find_kotlin_definition(definition_map, fqn, relative_file_path) {
                                    Some(t) => push_use(definition_relationships, source, t, ty),
                                    None => {},
                                }
                            },
                        }
                        j = j + 1;
                    }
                },
                KotlinTarget::Other => {},
            }
        }
        assert(references@.take(references@.len() as int) =~= references@);
    }
}

} // verus!
