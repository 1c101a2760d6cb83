use knowledge_indexer::analysis::definition_map::DefinitionMap;
use knowledge_indexer::analysis::import_map::{ImportedSymbolMap, ParsedImport};
use knowledge_indexer::analysis::import_resolution::{
    resolve_import_chain, ImportChainMap, ImportDefinitionMap, ImportFileMap, ResolvedTarget,
};
use knowledge_indexer::analysis::languages::definitions::ParsedDefinition;
use knowledge_indexer::analysis::languages::python::PythonAnalyzer;
use knowledge_indexer::analysis::languages::python_imports::{ImportCandidate, PythonImportKind};
use knowledge_indexer::analysis::languages::python_references::{
    PythonReference, ReferenceRelationships, ReferenceTarget, TargetResolution,
};
use knowledge_indexer::analysis::types::{
    ImportType,
    DefinitionLocation, DefinitionNode, DefinitionType, FqnPart, FqnPartKind, ImportIdentifier,
    ImportedSymbolLocation, ImportedSymbolNode, Position, PythonDefinitionType, Range,
};
use knowledge_indexer::graph::RelationshipType;

fn loc(file: &str, start: i64) -> ImportedSymbolLocation {
    ImportedSymbolLocation {
        file_path: file.to_string(),
        start_byte: start,
        end_byte: start + 5,
        start_line: 0,
        end_line: 0,
        start_col: 0,
        end_col: 5,
    }
}

fn symbol(file: &str, start: i64, name: &str, alias: Option<&str>) -> ImportedSymbolNode {
    ImportedSymbolNode {
        import_type: ImportType::Python("FromImport".to_string()),
        import_path: "m".to_string(),
        identifier: Some(ImportIdentifier { name: name.to_string(), alias: alias.map(|a| a.to_string()) }),
        location: loc(file, start),
    }
}

fn definition(fqn: &str, file: &str, start: i64) -> DefinitionNode {
    DefinitionNode::new(
        fqn.to_string(),
        fqn.to_string(),
        DefinitionType::Python(PythonDefinitionType::Function),
        DefinitionLocation {
            file_path: file.to_string(),
            start_byte: start,
            end_byte: start + 10,
            start_line: 0,
            end_line: 1,
            start_col: 0,
            end_col: 0,
        },
    )
}

fn range(start: usize) -> Range {
    Range::new(Position { line: 0, column: 0 }, Position { line: 0, column: 5 }, (start, start + 5))
}

#[test]
fn import_chains_are_followed_to_their_ends() {
    let mut syms = ImportChainMap::new();
    let mut defs = ImportDefinitionMap::new();
    let files = ImportFileMap::new();
    // a.py:0 re-imports b.py:0, which resolves to f in c.py; a.py:0 also re-imports a terminal symbol.
    syms.insert(loc("a.py", 0), vec![symbol("b.py", 0, "f", None), symbol("x.py", 7, "g", None)]);
    defs.insert(loc("b.py", 0), vec![definition("f", "c.py", 3)]);
    let r = resolve_import_chain(&loc("a.py", 0), &syms, &defs, &files);
    assert_eq!(r.len(), 2);
    match &r[0] {
        ResolvedTarget::Definition(d) => assert_eq!(d.fqn, "f"),
        _ => panic!("expected the definition first"),
    }
    match &r[1] {
        ResolvedTarget::ImportedSymbol(n) => assert_eq!(n.location.file_path, "x.py"),
        _ => panic!("expected the terminal symbol"),
    }
    // A cycle is followed once.
    let mut cyc = ImportChainMap::new();
    cyc.insert(loc("a.py", 0), vec![symbol("b.py", 0, "f", None)]);
    cyc.insert(loc("b.py", 0), vec![symbol("a.py", 0, "f", None)]);
    assert!(resolve_import_chain(&loc("a.py", 0), &cyc, &ImportDefinitionMap::new(), &files).is_empty());
}

#[test]
fn references_become_calls() {
    let analyzer = PythonAnalyzer::new();
    let mut map = DefinitionMap::new();
    let mut file_defs = Vec::new();
    let parsed = vec![ParsedDefinition {
        name: "f".to_string(),
        definition_type: DefinitionType::Python(PythonDefinitionType::Function),
        fqn: vec![FqnPart { node_name: "f".to_string(), node_type: FqnPartKind::Other }],
        range: range(0),
    }];
    analyzer.process_definitions(&parsed, "a.py", &mut map, &mut file_defs);
    let mut rels = ReferenceRelationships {
        definition_relationships: vec![],
        definition_imported_symbol_relationships: vec![],
        file_definition_relationships: vec![],
        file_import_relationships: vec![],
    };
    let target = TargetResolution::Definition {
        fqn: vec![FqnPart { node_name: "f".to_string(), node_type: FqnPartKind::Other }],
    };
    let syms = ImportChainMap::new();
    let defs = ImportDefinitionMap::new();
    let files = ImportFileMap::new();
    analyzer.process_resolved_target(&target, &range(70), "a.py", &None, &map, &mut rels, &syms, &defs, &files, false);
    assert_eq!(rels.file_definition_relationships.len(), 1);
    assert_eq!(rels.file_definition_relationships[0].relationship_type, RelationshipType::Calls);
    assert_eq!(rels.file_definition_relationships[0].definition_fqn, "f");
    // An import that resolves to two targets makes ambiguous calls from the source definition.
    let source = Some(definition("main", "a.py", 40));
    let mut syms2 = ImportChainMap::new();
    syms2.insert(loc("a.py", 20), vec![symbol("y.py", 1, "h", None)]);
    let mut defs2 = ImportDefinitionMap::new();
    defs2.insert(loc("a.py", 20), vec![definition("g", "c.py", 0)]);
    analyzer.process_resolved_target(
        &TargetResolution::ImportedSymbol(range(20)),
        &range(80),
        "a.py",
        &source,
        &map,
        &mut rels,
        &syms2,
        &defs2,
        &files,
        false,
    );
    assert_eq!(rels.definition_imported_symbol_relationships.len(), 1);
    assert_eq!(rels.definition_imported_symbol_relationships[0].relationship_type, RelationshipType::AmbiguouslyCalls);
    assert_eq!(rels.definition_relationships.len(), 1);
    assert_eq!(rels.definition_relationships[0].from_definition_fqn, "main");
    assert_eq!(rels.definition_relationships[0].to_definition_fqn, "g");
    assert_eq!(rels.definition_relationships[0].relationship_type, RelationshipType::AmbiguouslyCalls);
    let site = rels.definition_relationships[0].source_location.as_ref().unwrap();
    assert_eq!((site.file_path.as_str(), site.start_byte, site.end_byte), ("a.py", 80, 85));
    let import_site = rels.definition_imported_symbol_relationships[0].source_location.as_ref().unwrap();
    assert_eq!((import_site.file_path.as_str(), import_site.start_byte), ("a.py", 80));
    analyzer.process_resolved_target(&TargetResolution::PartialResolution, &range(90), "a.py", &None, &map, &mut rels, &syms, &defs, &files, false);
    assert_eq!(rels.file_definition_relationships.len(), 1);
}

#[test]
fn imports_resolve_by_kind() {
    let analyzer = PythonAnalyzer::new();
    let mut map = DefinitionMap::new();
    let mut file_defs = Vec::new();
    let parsed = vec![ParsedDefinition {
        name: "f".to_string(),
        definition_type: DefinitionType::Python(PythonDefinitionType::Function),
        fqn: vec![FqnPart { node_name: "f".to_string(), node_type: FqnPartKind::Other }],
        range: range(0),
    }];
    analyzer.process_definitions(&parsed, "lib.py", &mut map, &mut file_defs);
    let mut ims = ImportedSymbolMap::new();
    let mut file_imports = Vec::new();
    let later = vec![ParsedImport {
        import_type: ImportType::Python("FromImport".to_string()),
        import_path: "other".to_string(),
        identifier: Some(ImportIdentifier { name: "g".to_string(), alias: None }),
        range: range(50),
        scope: None,
    }];
    analyzer.process_imports(&later, "other.py", &mut ims, &mut file_imports);
    let candidates = vec![
        ImportCandidate { node: symbol("main.py", 0, "f", None), kind: PythonImportKind::From, possible_files: vec!["lib.py".to_string()] },
        ImportCandidate { node: symbol("main.py", 10, "os", None), kind: PythonImportKind::Import, possible_files: vec!["os.py".to_string(), "x.py".to_string()] },
        ImportCandidate { node: symbol("main.py", 20, "g", None), kind: PythonImportKind::From, possible_files: vec!["other.py".to_string()] },
        ImportCandidate { node: symbol("main.py", 30, "annotations", None), kind: PythonImportKind::Future, possible_files: vec!["f.py".to_string()] },
    ];
    let mut to_syms = ImportChainMap::new();
    let mut to_defs = ImportDefinitionMap::new();
    let mut to_files = ImportFileMap::new();
    analyzer.resolve_imported_symbols(&candidates, &ims, &map, &mut to_syms, &mut to_defs, &mut to_files);
    assert_eq!(to_files.entries.len(), 1);
    assert_eq!(to_files.entries[0].1, vec!["os.py".to_string()]);
    assert_eq!(to_defs.entries.len(), 2);
    assert_eq!(to_defs.entries[0].1.len(), 1);
    assert_eq!(to_defs.entries[0].1[0].fqn, "f");
    assert_eq!(to_syms.entries.len(), 2);
    assert!(to_syms.entries[0].1.is_empty());
    assert_eq!(to_syms.entries[1].1.len(), 1);
    assert_eq!(to_syms.entries[1].1[0].location.file_path, "other.py");
}

#[test]
fn references_of_a_file_are_processed_in_order() {
    let analyzer = PythonAnalyzer::new();
    let mut map = DefinitionMap::new();
    let mut file_defs = Vec::new();
    let f = FqnPart { node_name: "f".to_string(), node_type: FqnPartKind::Other };
    let g = FqnPart { node_name: "g".to_string(), node_type: FqnPartKind::Other };
    let parsed = vec![
        ParsedDefinition {
            name: "f".to_string(),
            definition_type: DefinitionType::Python(PythonDefinitionType::Function),
            fqn: vec![f.clone()],
            range: range(0),
        },
        ParsedDefinition {
            name: "g".to_string(),
            definition_type: DefinitionType::Python(PythonDefinitionType::Function),
            fqn: vec![g.clone()],
            range: range(30),
        },
    ];
    analyzer.process_definitions(&parsed, "a.py", &mut map, &mut file_defs);
    let refs = vec![
        PythonReference { range: range(35), scope: Some(vec![g.clone()]), target: ReferenceTarget::Resolved(TargetResolution::Definition { fqn: vec![f.clone()] }) },
        PythonReference {
            range: range(5),
            scope: None,
            target: ReferenceTarget::Ambiguous(vec![
                TargetResolution::Definition { fqn: vec![f.clone()] },
                TargetResolution::Definition { fqn: vec![g.clone()] },
            ]),
        },
        PythonReference { range: range(60), scope: None, target: ReferenceTarget::Unresolved },
    ];
    let mut rels = ReferenceRelationships {
        definition_relationships: vec![],
        definition_imported_symbol_relationships: vec![],
        file_definition_relationships: vec![],
        file_import_relationships: vec![],
    };
    analyzer.process_references(&refs, "a.py", &map, &mut rels, &ImportChainMap::new(), &ImportDefinitionMap::new(), &ImportFileMap::new());
    assert_eq!(rels.definition_relationships.len(), 1);
    assert_eq!(rels.definition_relationships[0].from_definition_fqn, "g");
    assert_eq!(rels.definition_relationships[0].source_location.as_ref().unwrap().start_byte, 35);
    assert_eq!(rels.definition_relationships[0].relationship_type, RelationshipType::Calls);
    assert_eq!(rels.file_definition_relationships.len(), 2);
    assert_eq!(rels.file_definition_relationships[1].definition_fqn, "g");
    assert_eq!(rels.file_definition_relationships[1].relationship_type, RelationshipType::AmbiguouslyCalls);
}
