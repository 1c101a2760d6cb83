use knowledge_indexer::database::changes::{deleted_definition_ids, generator_after, StoredDefinition};
use knowledge_indexer::database::queries::{
    agg_node_by_query, copy_from_parquet_statement, copy_relationship_from_parquet_statement,
    count_node_by_query, count_nodes_query, count_relationships_of_node_type_query,
    count_relationships_of_type_query, delete_by_statement, delete_nodes_by_paths_statement,
    get_all_query, get_by_query, KuzuNodeType, QueryValue,
};
use knowledge_indexer::database::schema::{
    ColumnDefinition, DatabaseError, KuzuDataType, RelationshipImportAction, RelationshipTable,
    SchemaManager, SchemaManagerImportMode, SchemaStats,
};
use knowledge_indexer::database::DatabaseConfig;
use knowledge_indexer::analysis::types::{DefinitionLocation, DefinitionNode, DefinitionType, RubyDefinitionType};
use knowledge_indexer::graph::RelationshipType;

#[test]
fn node_table_statements() {
    let m = SchemaManager::new();
    let tables = m.node_tables();
    assert_eq!(tables.len(), 3);
    assert_eq!(
        m.node_table_statement(&tables[0]),
        "CREATE NODE TABLE IF NOT EXISTS DirectoryNode (id UINT32 PRIMARY KEY, path STRING, absolute_path STRING, repository_name STRING, name STRING)"
    );
    assert_eq!(tables[2].name, "DefinitionNode");
    assert_eq!(tables[2].columns.len(), 9);
    assert_eq!(tables[2].primary_key, "id");
}

#[test]
fn relationship_table_statements_and_their_error() {
    let m = SchemaManager::new();
    let rels = m.relationship_tables();
    assert_eq!(
        m.relationship_table_statement(&rels[0]).unwrap(),
        "CREATE REL TABLE IF NOT EXISTS DIRECTORY_RELATIONSHIPS (FROM DirectoryNode TO DirectoryNode, FROM DirectoryNode TO FileNode, type UINT8)"
    );
    assert_eq!(
        m.relationship_table_statement(&rels[1]).unwrap(),
        "CREATE REL TABLE IF NOT EXISTS FILE_RELATIONSHIPS (FROM FileNode TO DefinitionNode, type UINT8)"
    );
    let broken = RelationshipTable {
        name: "BROKEN".to_string(),
        from_table: Some("A".to_string()),
        to_table: None,
        columns: vec![],
        from_to_pairs: None,
    };
    match m.relationship_table_statement(&broken) {
        Err(DatabaseError::InitializationFailed(msg)) => assert_eq!(
            msg,
            "RelationshipTable BROKEN must have either from_to_pairs or both from_table and to_table specified"
        ),
        other => panic!("unexpected {other:?}"),
    }
    let no_columns = RelationshipTable {
        name: "R".to_string(),
        from_table: Some("A".to_string()),
        to_table: Some("B".to_string()),
        columns: vec![ColumnDefinition { name: "w".to_string(), data_type: KuzuDataType::Double, is_primary_key: true }],
        from_to_pairs: None,
    };
    assert_eq!(m.relationship_table_statement(&no_columns).unwrap(), "CREATE REL TABLE IF NOT EXISTS R (FROM A TO B, w DOUBLE)");
}

#[test]
fn schema_is_created_only_when_missing() {
    let m = SchemaManager::new();
    let all = m.schema_statements();
    assert_eq!(all.len(), 6);
    let present = vec!["FileNode".to_string(), "DefinitionNode".to_string(), "DirectoryNode".to_string(), "X".to_string()];
    assert!(m.schema_exists(&present));
    assert!(m.initialize_schema(&present).is_empty());
    let partial = vec!["FileNode".to_string()];
    assert!(!m.schema_exists(&partial));
    assert_eq!(m.initialize_schema(&partial), all);
}

#[test]
fn import_steps_by_mode_and_presence() {
    let m = SchemaManager::new();
    let steps = m
        .import_graph_data("out", true, &vec![true, false, true], &vec![true, false, false, true], SchemaManagerImportMode::Indexing)
        .unwrap();
    assert_eq!(steps.len(), 6);
    assert_eq!(steps[0].file_path, "out/directories.parquet");
    assert_eq!(steps[0].action, RelationshipImportAction::ImportRequired);
    assert_eq!(steps[1].action, RelationshipImportAction::Skip);
    assert_eq!(steps[3].action, RelationshipImportAction::ImportTolerant);
    assert_eq!(steps[3].from_table, Some("DirectoryNode".to_string()));
    assert_eq!(steps[4].action, RelationshipImportAction::Skip);
    assert_eq!(steps[5].action, RelationshipImportAction::Fail);
    assert_eq!(steps[5].file_path, "out/file_relationships.parquet");
    assert_eq!(
        m.missing_relationship_file_message(&steps[5].file_path),
        "Relationship file not found: out/file_relationships.parquet"
    );
    let re = m
        .import_graph_data("out/", true, &vec![true, true, true], &vec![true, true, false, false], SchemaManagerImportMode::Reindexing)
        .unwrap();
    assert_eq!(re.len(), 7);
    assert_eq!(re[5].action, RelationshipImportAction::Skip);
    assert_eq!(re[6].file_path, "out/definition_relationships.parquet");
    match m.import_graph_data("gone", false, &vec![true, true, true], &vec![true, true, true, true], SchemaManagerImportMode::Indexing) {
        Err(DatabaseError::NotFound(msg)) => assert_eq!(msg, "Parquet directory not found: gone"),
        _ => panic!("expected a missing directory"),
    }
}

#[test]
fn schema_stats_report() {
    let s = SchemaStats {
        total_tables: 6,
        node_tables: 3,
        relationship_tables: 3,
        total_nodes: 120,
        total_relationships: 45,
        table_names: vec!["DirectoryNode".to_string(), "FileNode".to_string()],
    };
    assert_eq!(
        s.to_string(),
        "Schema Stats: 6 tables (3 node, 3 rel), 120 nodes, 45 relationships\nTables: DirectoryNode, FileNode"
    );
}

#[test]
fn query_texts() {
    assert_eq!(copy_from_parquet_statement("FileNode", "/tmp/files.parquet"), "COPY FileNode FROM '/tmp/files.parquet'");
    assert_eq!(
        copy_relationship_from_parquet_statement("FILE_RELATIONSHIPS", "/tmp/f.parquet", Some("FileNode"), Some("DefinitionNode")),
        "COPY FILE_RELATIONSHIPS FROM '/tmp/f.parquet' (from='FileNode', to='DefinitionNode')"
    );
    assert_eq!(copy_relationship_from_parquet_statement("T", "p", None, Some("B")), "COPY T FROM 'p' (to='B')");
    assert_eq!(copy_relationship_from_parquet_statement("T", "p", None, None), "COPY T FROM 'p'");
    assert_eq!(count_nodes_query(KuzuNodeType::FileNode), "MATCH (n:FileNode) RETURN COUNT(n)");
    assert_eq!(
        count_relationships_of_type_query(RelationshipType::DirContainsFile),
        "MATCH (from)-[r:DIRECTORY_RELATIONSHIPS]->(to) WHERE r.type = 1 RETURN COUNT(DISTINCT [from, to])"
    );
    assert_eq!(
        count_relationships_of_type_query(RelationshipType::ClassToMethod),
        "MATCH (from)-[r:DEFINITION_RELATIONSHIPS]->(to) WHERE r.type = 14 RETURN COUNT(DISTINCT [from, to])"
    );
    assert_eq!(
        count_relationships_of_node_type_query(KuzuNodeType::FileNode),
        "MATCH (from)-[r:FILE_RELATIONSHIPS]->(to) RETURN COUNT(DISTINCT [from, to])"
    );
    assert_eq!(
        delete_nodes_by_paths_statement(KuzuNodeType::DefinitionNode, "primary_file_path", &vec!["a.rb".to_string(), "b.rb".to_string()]),
        "MATCH (n:DefinitionNode) WHERE n.primary_file_path IN ['a.rb', 'b.rb'] DETACH DELETE n"
    );
    let values = vec![QueryValue::Number(3), QueryValue::Text("x".to_string())];
    assert_eq!(delete_by_statement(KuzuNodeType::FileNode, "id", &values), "MATCH (n:FileNode) WHERE n.id IN [3, 'x'] DETACH DELETE n");
    assert_eq!(get_by_query(KuzuNodeType::FileNode, "path", &values), "MATCH (n:FileNode) WHERE n.path IN [3, 'x'] RETURN n");
    assert_eq!(count_node_by_query(KuzuNodeType::DirectoryNode, "path", &vec![]), "MATCH (n:DirectoryNode) WHERE n.path IN [] RETURN COUNT(n)");
    assert_eq!(agg_node_by_query(KuzuNodeType::DefinitionNode, "max", "id"), "MATCH (n:DefinitionNode) RETURN max(n.id)");
    assert_eq!(get_all_query(KuzuNodeType::DirectoryNode), "MATCH (n:DirectoryNode) RETURN n");
    assert_eq!(KuzuDataType::StringArray.as_str(), "STRING[]");
}

#[test]
fn database_configuration_builders() {
    let c = DatabaseConfig::new("db").with_buffer_size(512).with_compression(true).read_only().with_max_size(1024);
    assert_eq!(c.database_path, "db");
    assert_eq!(c.buffer_pool_size, Some(512));
    assert_eq!(c.enable_compression, Some(true));
    assert_eq!(c.read_only, Some(true));
    assert_eq!(c.max_db_size, Some(1024));
}

#[test]
fn reindexing_finds_gone_definitions_and_continues_ids() {
    let loc = |p: &str| DefinitionLocation {
        file_path: p.to_string(),
        start_byte: 0,
        end_byte: 1,
        start_line: 0,
        end_line: 0,
        start_col: 0,
        end_col: 0,
    };
    let current = vec![DefinitionNode::new("A".to_string(), "A".to_string(), DefinitionType::Ruby(RubyDefinitionType::Class), loc("a.rb"))];
    let stored = vec![
        StoredDefinition { id: 7, fqn: "A".to_string(), primary_file_path: "a.rb".to_string() },
        StoredDefinition { id: 8, fqn: "A".to_string(), primary_file_path: "b.rb".to_string() },
        StoredDefinition { id: 9, fqn: "B".to_string(), primary_file_path: "a.rb".to_string() },
    ];
    assert_eq!(deleted_definition_ids(&stored, &current), vec![8, 9]);
    let mut g = generator_after(41, 9, 4);
    assert_eq!(g.get_or_assign_definition_id("x", &knowledge_indexer::analysis::types::Range::new(
        knowledge_indexer::analysis::types::Position { line: 0, column: 0 },
        knowledge_indexer::analysis::types::Position { line: 0, column: 0 },
        (0, 1),
    )), 42);
    assert_eq!(g.get_or_assign_file_id("f"), 10);
    assert_eq!(g.get_or_assign_directory_id("d"), 5);
}

#[test]
fn exported_file_names_in_import_order() {
    let m = SchemaManager::new();
    assert_eq!(m.node_file_names(), vec!["directories.parquet", "files.parquet", "definitions.parquet"]);
    assert_eq!(
        m.relationship_file_names(),
        vec![
            "directory_to_directory_relationships.parquet",
            "directory_to_file_relationships.parquet",
            "file_relationships.parquet",
            "definition_relationships.parquet",
        ]
    );
}

#[test]
fn identifiers_after_stored_maxima_stay_above_them() {
    let mut g = generator_after(7, 3, 2);
    let files: Vec<u32> = ["a", "b", "a", "c"].iter().map(|p| g.get_or_assign_file_id(p)).collect();
    assert_eq!(files, vec![4, 5, 4, 6]);
    assert!(files.iter().all(|&id| id > 3));
    let dirs: Vec<u32> = ["x", "y"].iter().map(|p| g.get_or_assign_directory_id(p)).collect();
    assert!(dirs.iter().all(|&id| id > 2));
}
