use knowledge_indexer::analysis::types::{
    ImportType,
    ImportIdentifier, ImportedSymbolLocation, ImportedSymbolNode,
    rels_by_kind, ConsolidatedRelationship as PathRelationship,
    DefinitionLocation, DefinitionNode, DefinitionRelationship, DefinitionType, DirectoryNode,
    DirectoryRelationship, FileDefinitionRelationship, FileNode, GraphData, Position, Range,
    RubyDefinitionType,
};
use knowledge_indexer::database::utils::NodeIdGenerator as NameIdGenerator;
use knowledge_indexer::graph::{RelationshipKind, RelationshipType, RelationshipTypeMapping};
use knowledge_indexer::mutation::types::{ConsolidatedRelationship, ConsolidatedRelationships};
use knowledge_indexer::mutation::utils::{GraphMapper, NodeIdGenerator};
use knowledge_indexer::writer::{write_plan, NodeTableKind};

fn location(path: &str, start: i64, end: i64) -> DefinitionLocation {
    DefinitionLocation {
        file_path: path.to_string(),
        start_byte: start,
        end_byte: end,
        start_line: 1,
        end_line: 2,
        start_col: 0,
        end_col: 3,
    }
}

#[test]
fn identifiers_are_stable_and_distinct() {
    let mut ids = NodeIdGenerator::new();
    let a = ids.get_or_assign_directory_id("src");
    let b = ids.get_or_assign_directory_id("src/lib");
    let a2 = ids.get_or_assign_directory_id("src");
    assert_eq!(a, 1);
    assert_eq!(b, 2);
    assert_eq!(a2, a);
    assert_eq!(ids.get_directory_id("src"), Some(1));
    assert_eq!(ids.get_directory_id("other"), None);
    let f = ids.get_or_assign_file_id("src/main.rs");
    assert_eq!(f, 1);
    let r = Range::new(Position { line: 1, column: 0 }, Position { line: 2, column: 3 }, (10, 20));
    let d1 = ids.get_or_assign_definition_id("src/main.rs", &r);
    let d2 = ids.get_or_assign_definition_id("src/main.rs", &r);
    assert_eq!(d1, d2);
    assert_eq!(ids.get_definition_id("src/main.rs", &r), Some(d1));
    ids.clear();
    assert_eq!(ids.get_directory_id("src"), None);
    assert_eq!(ids.next_directory_id, 3);
    assert_eq!(ids.get_or_assign_directory_id("src"), 3);
}

#[test]
fn imported_symbols_are_numbered_by_file_and_bytes() {
    let mut ids = NodeIdGenerator::new();
    let l1 = ImportedSymbolLocation {
        file_path: "a.py".to_string(),
        start_byte: 3,
        end_byte: 9,
        start_line: 1,
        end_line: 1,
        start_col: 0,
        end_col: 6,
    };
    let l2 = ImportedSymbolLocation { start_line: 7, end_col: 2, ..l1.clone() };
    let i = ids.get_or_assign_imported_symbol_id(&l1);
    assert_eq!(ids.get_or_assign_imported_symbol_id(&l2), i);
    let l3 = ImportedSymbolLocation { end_byte: 10, ..l1.clone() };
    assert_ne!(ids.get_or_assign_imported_symbol_id(&l3), i);
}

#[test]
fn export_plan_numbers_rows_and_skips_empty_tables() {
    let mut ids = NodeIdGenerator::new();
    ids.get_or_assign_file_id("b.rb");
    let graph = GraphData {
        directory_nodes: vec![],
        file_nodes: vec![
            FileNode {
                path: "a.rb".to_string(),
                absolute_path: "/r/a.rb".to_string(),
                language: "ruby".to_string(),
                repository_name: "r".to_string(),
                extension: "rb".to_string(),
                name: "a.rb".to_string(),
            },
            FileNode {
                path: "b.rb".to_string(),
                absolute_path: "/r/b.rb".to_string(),
                language: "ruby".to_string(),
                repository_name: "r".to_string(),
                extension: "rb".to_string(),
                name: "b.rb".to_string(),
            },
        ],
        definition_nodes: vec![],
        imported_symbol_nodes: vec![],
        directory_relationships: vec![],
        file_definition_relationships: vec![],
        file_imported_symbol_relationships: vec![],
        definition_relationships: vec![],
        definition_imported_symbol_relationships: vec![],
    };
    let mut rels = ConsolidatedRelationships::default();
    rels.definition_to_definition.push(ConsolidatedRelationship {
        source_id: Some(1),
        target_id: Some(2),
        relationship_type: 12,
        start_byte: None,
        end_byte: None,
        start_line: None,
        end_line: None,
        start_column: None,
        end_column: None,
    });
    let plan = write_plan(&graph, &ids, &rels);
    assert_eq!(plan.node_files.len(), 1);
    assert_eq!(plan.node_files[0].table, NodeTableKind::Files);
    assert_eq!(plan.node_files[0].file_name, "files.parquet");
    assert_eq!(plan.node_files[0].file_type, "files");
    assert_eq!(plan.node_files[0].ids, vec![0, 1]);
    assert_eq!(plan.relationship_files.len(), 1);
    assert_eq!(plan.relationship_files[0].kind, RelationshipKind::DefinitionToDefinition);
    assert_eq!(plan.relationship_files[0].record_count, 1);
    assert!(plan.relationship_files[0].with_location);
}

#[test]
fn name_keyed_identifiers() {
    let mut ids = NameIdGenerator::new();
    let a = ids.get_or_assign_definition_id("A::b", "a.rb");
    let b = ids.get_or_assign_definition_id("A::b", "b.rb");
    let c = ids.get_or_assign_definition_id("A::b", "a.rb");
    assert_eq!(a, c);
    assert_ne!(a, b);
    assert_eq!(ids.get_definition_id("A::b", "b.rb"), Some(b));
}

#[test]
fn relationship_names_and_codes() {
    assert_eq!(RelationshipType::DirContainsDir.as_str(), "DIR_CONTAINS_DIR");
    assert_eq!(RelationshipType::ClassToMethod.as_str(), "CLASS_TO_METHOD");
    assert_eq!(RelationshipType::ModuleToModule.as_str(), "MODULE_TO_MODULE");
    let m = RelationshipTypeMapping::new();
    assert_eq!(m.get_type_id(RelationshipType::DirContainsDir), 0);
    assert_eq!(m.get_type_id(RelationshipType::FileDefines), 2);
    assert_eq!(m.get_type_id(RelationshipType::Empty), 42);
    assert_eq!(RelationshipKind::DirectoryToFile.as_str(), "DIR_CONTAINS_FILE");
    assert_eq!(RelationshipKind::default().as_str(), "EMPTY");
}

#[test]
fn mapping_a_graph_keeps_relationships_with_known_ends() {
    let graph = GraphData {
        directory_nodes: vec![
            DirectoryNode {
                path: "app".to_string(),
                absolute_path: "/r/app".to_string(),
                repository_name: "r".to_string(),
                name: "app".to_string(),
            },
            DirectoryNode {
                path: "app/models".to_string(),
                absolute_path: "/r/app/models".to_string(),
                repository_name: "r".to_string(),
                name: "models".to_string(),
            },
        ],
        file_nodes: vec![FileNode {
            path: "app/models/user.rb".to_string(),
            absolute_path: "/r/app/models/user.rb".to_string(),
            language: "ruby".to_string(),
            repository_name: "r".to_string(),
            extension: "rb".to_string(),
            name: "user.rb".to_string(),
        }],
        definition_nodes: vec![DefinitionNode::new(
            "User".to_string(),
            "User".to_string(),
            DefinitionType::Ruby(RubyDefinitionType::Class),
            location("app/models/user.rb", 0, 40),
        )],
        imported_symbol_nodes: vec![],
        directory_relationships: vec![
            DirectoryRelationship {
                from_path: "app".to_string(),
                to_path: "app/models".to_string(),
                relationship_type: RelationshipType::DirContainsDir,
            },
            DirectoryRelationship {
                from_path: "app/models".to_string(),
                to_path: "app/models/user.rb".to_string(),
                relationship_type: RelationshipType::DirContainsFile,
            },
            DirectoryRelationship {
                from_path: "missing".to_string(),
                to_path: "app".to_string(),
                relationship_type: RelationshipType::DirContainsDir,
            },
        ],
        file_definition_relationships: vec![FileDefinitionRelationship {
            file_path: "app/models/user.rb".to_string(),
            definition_fqn: "User".to_string(),
            relationship_type: RelationshipType::FileDefines,
            definition_location: location("app/models/user.rb", 0, 40),
        }],
        file_imported_symbol_relationships: vec![],
        definition_relationships: vec![DefinitionRelationship {
            from_file_path: "app/models/user.rb".to_string(),
            to_file_path: "app/models/user.rb".to_string(),
            from_definition_fqn: "User".to_string(),
            to_definition_fqn: "User".to_string(),
            from_location: location("app/models/user.rb", 0, 40),
            to_location: location("app/models/user.rb", 0, 40),
            relationship_type: RelationshipType::ClassToClass,
            source_location: None,
        }],
        definition_imported_symbol_relationships: vec![],
    };
    let mut ids = NodeIdGenerator::new();
    let mapping = RelationshipTypeMapping::new();
    let rels = GraphMapper::map_graph_data(&graph, &mut ids, &mapping);
    assert_eq!(rels.directory_to_directory.len(), 1);
    assert_eq!(rels.directory_to_directory[0].source_id, Some(1));
    assert_eq!(rels.directory_to_directory[0].target_id, Some(2));
    assert_eq!(rels.directory_to_directory[0].relationship_type, 0);
    assert_eq!(rels.directory_to_file.len(), 1);
    assert_eq!(rels.directory_to_file[0].target_id, Some(1));
    assert_eq!(rels.file_to_definition.len(), 1);
    assert_eq!(rels.file_to_definition[0].relationship_type, 2);
    assert_eq!(rels.definition_to_definition.len(), 1);
    assert_eq!(rels.definition_to_definition[0].source_id, Some(1));
    assert_eq!(rels.definition_to_definition[0].get_u32_field("target_id"), Some(1));
    assert_eq!(rels.definition_to_definition[0].get_u8_field("type"), Some(12));
    assert_eq!(rels.definition_to_definition[0].get_u32_field("other"), None);
    assert_eq!(ids.get_file_id("app/models/user.rb"), Some(1));
}

#[test]
fn path_relationships_carry_kind_and_ends() {
    let r = PathRelationship::dir_to_file("src".to_string(), "src/a.rb".to_string());
    assert_eq!(r.kind, RelationshipKind::DirectoryToFile);
    assert_eq!(r.source_path.as_deref(), Some("src"));
    assert_eq!(r.target_path.as_deref(), Some("src/a.rb"));
    assert_eq!(r.source_id, None);
    assert_eq!(r.relationship_type, RelationshipType::Empty);
    assert_eq!(r.get_string_field("type"), Some("EMPTY".to_string()));
    assert_eq!(r.get_string_field("target_path"), Some("src/a.rb".to_string()));
    assert_eq!(r.get_string_field("other"), None);
    assert_eq!(r.get_u32_field("source_id"), None);
    assert_eq!(r.get_i64_field("source_end_byte"), Some(0));
    assert_eq!(r.get_i32_field("source_start_col"), Some(0));
    let d = PathRelationship::default();
    assert_eq!(d.kind, RelationshipKind::Empty);
    assert_eq!(d.source_path, None);
    let e = Range::empty();
    assert_eq!(e.byte_offset, (0, 0));
}

#[test]
fn relationships_filtered_by_kind_keep_order() {
    let rels = vec![
        PathRelationship::dir_to_dir("a".to_string(), "a/b".to_string()),
        PathRelationship::file_to_definition("a/x.py".to_string(), "a/x.py".to_string()),
        PathRelationship::dir_to_dir("a/b".to_string(), "a/b/c".to_string()),
        PathRelationship::import_to_file("a/y.py".to_string(), "a/x.py".to_string()),
    ];
    let dirs = rels_by_kind(&rels, RelationshipKind::DirectoryToDirectory);
    assert_eq!(dirs.len(), 2);
    assert_eq!(dirs[0].target_path.as_deref(), Some("a/b"));
    assert_eq!(dirs[1].target_path.as_deref(), Some("a/b/c"));
    assert_eq!(rels_by_kind(&rels, RelationshipKind::ImportedSymbolToFile).len(), 1);
    assert!(rels_by_kind(&rels, RelationshipKind::ImportedSymbolToDefinition).is_empty());
}

#[test]
fn node_rows_expose_their_columns() {
    let d = DirectoryNode {
        path: "src".to_string(),
        absolute_path: "/r/src".to_string(),
        repository_name: "r".to_string(),
        name: "src".to_string(),
    };
    assert_eq!(d.get_string_field("absolute_path"), Some("/r/src".to_string()));
    assert_eq!(d.get_string_field("language"), None);
    assert_eq!(d.get_i32_field("start_line"), None);
    assert_eq!(d.get_id_field("id", |_n: &DirectoryNode| 41), Some(41));
    assert_eq!(d.get_id_field("path", |_n: &DirectoryNode| 41), None);
    let f = FileNode {
        path: "src/a.rb".to_string(),
        absolute_path: "/r/src/a.rb".to_string(),
        language: "ruby".to_string(),
        repository_name: "r".to_string(),
        extension: "rb".to_string(),
        name: "a.rb".to_string(),
    };
    assert_eq!(f.get_string_field("extension"), Some("rb".to_string()));
    assert_eq!(f.get_id_field("id", |n: &FileNode| n.name.len() as u32), Some(4));
    let def = DefinitionNode::new(
        "A::b".to_string(),
        "b".to_string(),
        DefinitionType::Ruby(RubyDefinitionType::Method),
        DefinitionLocation {
            file_path: "src/a.rb".to_string(),
            start_byte: 10,
            end_byte: 30,
            start_line: 2,
            end_line: 4,
            start_col: 1,
            end_col: 5,
        },
    );
    assert_eq!(def.get_string_field("definition_type"), Some("Method".to_string()));
    assert_eq!(def.get_string_field("primary_file_path"), Some("src/a.rb".to_string()));
    assert_eq!(def.get_i32_field("end_line"), Some(4));
    assert_eq!(def.get_i32_field("total_locations"), Some(1));
    assert_eq!(def.get_i64_field("primary_end_byte"), Some(30));
    assert_eq!(def.get_i64_field("start_byte"), None);
}

#[test]
fn imported_symbol_rows_expose_their_columns() {
    let node = ImportedSymbolNode {
        import_type: ImportType::Python("AliasedFromImport".to_string()),
        import_path: "os.path".to_string(),
        identifier: Some(ImportIdentifier { name: "join".to_string(), alias: Some("j".to_string()) }),
        location: ImportedSymbolLocation {
            file_path: "a.py".to_string(),
            start_byte: 3,
            end_byte: 9,
            start_line: 1,
            end_line: 1,
            start_col: 0,
            end_col: 6,
        },
    };
    assert_eq!(node.get_string_field("import_type"), Some("AliasedFromImport".to_string()));
    assert_eq!(node.import_type.as_str(), "AliasedFromImport");
    assert_eq!(node.get_string_field("import_path"), Some("os.path".to_string()));
    assert_eq!(node.get_string_field("name"), Some("join".to_string()));
    assert_eq!(node.get_string_field("alias"), Some("j".to_string()));
    assert_eq!(node.get_string_field("file_path"), Some("a.py".to_string()));
    assert_eq!(node.get_i32_field("end_col"), Some(6));
    assert_eq!(node.get_i64_field("end_byte"), Some(9));
    assert_eq!(node.get_id_field("id", |_n: &ImportedSymbolNode| 5), Some(5));
    let bare = ImportedSymbolNode { identifier: None, ..node };
    assert_eq!(bare.get_string_field("name"), None);
    assert_eq!(bare.get_string_field("alias"), None);
}

#[test]
fn relationship_kinds_have_distinct_names() {
    let kinds = [
        RelationshipKind::DirectoryToDirectory,
        RelationshipKind::DirectoryToFile,
        RelationshipKind::FileToDefinition,
        RelationshipKind::FileToImportedSymbol,
        RelationshipKind::DefinitionToDefinition,
        RelationshipKind::DefinitionToImportedSymbol,
        RelationshipKind::ImportedSymbolToImportedSymbol,
        RelationshipKind::ImportedSymbolToDefinition,
        RelationshipKind::ImportedSymbolToFile,
        RelationshipKind::Empty,
    ];
    for (i, a) in kinds.iter().enumerate() {
        for b in kinds.iter().skip(i + 1) {
            assert_ne!(a.as_str(), b.as_str());
        }
    }
    assert_eq!(RelationshipKind::DefinitionToDefinition.as_str(), "DEFINES_DEFINITION");
}
