use knowledge_indexer::analysis::definition_map::DefinitionMap;
use knowledge_indexer::analysis::import_map::{ImportedSymbolMap, ParsedImport};
use knowledge_indexer::analysis::languages::csharp::{csharp_relationship_type, CSharpAnalyzer};
use knowledge_indexer::analysis::languages::definitions::ParsedDefinition;
use knowledge_indexer::analysis::languages::java::{java_relationship_type, JavaAnalyzer};
use knowledge_indexer::analysis::languages::kotlin::{kotlin_relationship_type, KotlinAnalyzer};
use knowledge_indexer::analysis::languages::kotlin_references::{KotlinReference, KotlinReferenceKind, KotlinTarget};
use knowledge_indexer::analysis::languages::python::{python_relationship_type, PythonAnalyzer};
use knowledge_indexer::analysis::languages::ruby::{ruby_relationship_type, RubyAnalyzer};
use knowledge_indexer::analysis::languages::rust::{rust_relationship_type, RustAnalyzer};
use knowledge_indexer::analysis::languages::typescript::{typescript_relationship_type, TypeScriptAnalyzer};
use knowledge_indexer::analysis::languages::{fqn_to_string, parent_fqn_string, DefinitionRules};
use knowledge_indexer::analysis::types::{
    ImportType,
    CSharpDefinitionType, DefinitionType, FqnPart, FqnPartKind, FqnType, ImportIdentifier,
    JavaDefinitionType, KotlinDefinitionType, Position, PythonDefinitionType, Range,
    RubyDefinitionType, RustDefinitionType, TypeScriptDefinitionType,
};
use knowledge_indexer::graph::RelationshipType;

fn part(name: &str) -> FqnPart {
    FqnPart { node_name: name.to_string(), node_type: FqnPartKind::Other }
}

fn parts(names: &[&str]) -> Vec<FqnPart> {
    names.iter().map(|n| part(n)).collect()
}

fn range(start: usize, end: usize) -> Range {
    Range::new(Position { line: 1, column: 2 }, Position { line: 3, column: 4 }, (start, end))
}

fn def(name: &str, t: DefinitionType, fqn: &[&str], start: usize) -> ParsedDefinition {
    ParsedDefinition { name: name.to_string(), definition_type: t, fqn: parts(fqn), range: range(start, start + 10) }
}

#[test]
fn csharp_rules() {
    type C = CSharpDefinitionType;
    let r = |p, c| csharp_relationship_type(&DefinitionType::CSharp(p), &DefinitionType::CSharp(c));
    assert_eq!(r(C::Class, C::InstanceMethod), Some(RelationshipType::ClassToMethod));
    assert_eq!(r(C::Struct, C::Property), Some(RelationshipType::ClassToProperty));
    assert_eq!(r(C::Class, C::Enum), Some(RelationshipType::ClassToClass));
    assert_eq!(r(C::Interface, C::Indexer), Some(RelationshipType::InterfaceToProperty));
    assert_eq!(r(C::Class, C::Field), None);
    assert_eq!(r(C::Field, C::Class), None);
    assert_eq!(r(C::StaticMethod, C::Lambda), Some(RelationshipType::MethodToLambda));
    assert_eq!(
        csharp_relationship_type(&DefinitionType::CSharp(C::Class), &DefinitionType::Java(JavaDefinitionType::Method)),
        None
    );
}

#[test]
fn kotlin_java_python_typescript_ruby_rust_rules() {
    assert_eq!(
        kotlin_relationship_type(
            &DefinitionType::Kotlin(KotlinDefinitionType::DataClass),
            &DefinitionType::Kotlin(KotlinDefinitionType::EnumEntry)
        ),
        Some(RelationshipType::ClassToEnumEntry)
    );
    assert_eq!(
        java_relationship_type(
            &DefinitionType::Java(JavaDefinitionType::Record),
            &DefinitionType::Java(JavaDefinitionType::Constructor)
        ),
        Some(RelationshipType::ClassToMethod)
    );
    assert_eq!(
        java_relationship_type(
            &DefinitionType::Java(JavaDefinitionType::Package),
            &DefinitionType::Java(JavaDefinitionType::Class)
        ),
        None
    );
    assert_eq!(
        python_relationship_type(
            &DefinitionType::Python(PythonDefinitionType::DecoratedAsyncMethod),
            &DefinitionType::Python(PythonDefinitionType::AsyncFunction)
        ),
        Some(RelationshipType::MethodToFunction)
    );
    assert_eq!(
        typescript_relationship_type(
            &DefinitionType::TypeScript(TypeScriptDefinitionType::Interface),
            &DefinitionType::TypeScript(TypeScriptDefinitionType::NamedArrowFunction)
        ),
        Some(RelationshipType::InterfaceToFunction)
    );
    assert_eq!(
        ruby_relationship_type(
            &DefinitionType::Ruby(RubyDefinitionType::Module),
            &DefinitionType::Ruby(RubyDefinitionType::Module)
        ),
        Some(RelationshipType::ModuleToModule)
    );
    assert_eq!(
        rust_relationship_type(
            &DefinitionType::Rust(RustDefinitionType::Module),
            &DefinitionType::Rust(RustDefinitionType::Function)
        ),
        Some(RelationshipType::ModuleToSingletonMethod)
    );
    assert_eq!(
        rust_relationship_type(
            &DefinitionType::Rust(RustDefinitionType::Struct),
            &DefinitionType::Rust(RustDefinitionType::Method)
        ),
        None
    );
    assert_eq!(
        RubyAnalyzer::get_ruby_scope_relationship(&RubyDefinitionType::Module, &RubyDefinitionType::Lambda),
        Some("NAMESPACE".to_string())
    );
    assert_eq!(
        RubyAnalyzer::get_ruby_scope_relationship(&RubyDefinitionType::Class, &RubyDefinitionType::Method),
        Some("SCOPE".to_string())
    );
    assert_eq!(
        RubyAnalyzer::get_ruby_scope_relationship(&RubyDefinitionType::Lambda, &RubyDefinitionType::Method),
        None
    );
}

#[test]
fn names_and_parent_names() {
    let p = parts(&["pkg.mod", "Klass", "method"]);
    assert_eq!(fqn_to_string(DefinitionRules::Python, &p), "pkg#mod.Klass.method");
    assert_eq!(fqn_to_string(DefinitionRules::Ruby, &p), "pkg.mod::Klass::method");
    assert_eq!(parent_fqn_string(DefinitionRules::Python, &FqnType::Python(p.clone())), Some("pkg#mod.Klass".to_string()));
    assert_eq!(parent_fqn_string(DefinitionRules::TypeScript, &FqnType::TypeScript(p.clone())), Some("pkg.mod::Klass".to_string()));
    assert_eq!(parent_fqn_string(DefinitionRules::Kotlin, &FqnType::Kotlin(parts(&["A"]))), None);
    assert_eq!(parent_fqn_string(DefinitionRules::Kotlin, &FqnType::Java(parts(&["A", "b"]))), None);
    assert_eq!(parent_fqn_string(DefinitionRules::Rust, &FqnType::Rust(parts(&["a", "b"]))), None);
}

#[test]
fn top_level_definitions() {
    let ns = vec![FqnPart { node_name: "App".to_string(), node_type: FqnPartKind::Namespace }, part("Program")];
    assert!(CSharpAnalyzer::new().is_top_level_definition(&ns));
    assert!(!CSharpAnalyzer::new().is_top_level_definition(&parts(&["App", "Program"])));
    let pkg = vec![FqnPart { node_name: "com".to_string(), node_type: FqnPartKind::Package }, part("Main")];
    assert!(KotlinAnalyzer::new().is_top_level_definition(&pkg));
    assert!(JavaAnalyzer::new().is_top_level_definition(&pkg));
    assert!(PythonAnalyzer::new().is_top_level_definition(&parts(&["f"])));
    assert!(!TypeScriptAnalyzer::new().is_top_level_definition(&parts(&["A", "f"])));
}

#[test]
fn kotlin_definitions_and_parent_relationships() {
    let analyzer = KotlinAnalyzer::new();
    let defs = vec![
        def("Outer", DefinitionType::Kotlin(KotlinDefinitionType::Class), &["Outer"], 0),
        def("run", DefinitionType::Kotlin(KotlinDefinitionType::Function), &["Outer", "run"], 20),
        def("x", DefinitionType::Kotlin(KotlinDefinitionType::Property), &["Outer", "run", "x"], 40),
        def("orphan", DefinitionType::Kotlin(KotlinDefinitionType::Function), &["Nowhere", "orphan"], 60),
    ];
    let mut map = DefinitionMap::new();
    let mut file_defs = Vec::new();
    analyzer.process_definitions(&defs, "src/A.kt", &mut map, &mut file_defs);
    assert_eq!(map.len(), 4);
    assert_eq!(file_defs.len(), 1);
    assert_eq!(file_defs[0].definition_fqn, "Outer");
    assert_eq!(file_defs[0].relationship_type, RelationshipType::FileDefines);
    assert_eq!(file_defs[0].definition_location.start_byte, 0);
    assert_eq!(file_defs[0].definition_location.end_line, 3);
    assert_eq!(map.find("Outer.run", "src/A.kt"), Some(1));
    let mut rels = Vec::new();
    analyzer.add_definition_relationships(&map, &mut rels);
    assert_eq!(rels.len(), 2);
    assert_eq!(rels[0].from_definition_fqn, "Outer");
    assert_eq!(rels[0].to_definition_fqn, "Outer.run");
    assert_eq!(rels[0].relationship_type, RelationshipType::ClassToMethod);
    assert_eq!(rels[1].from_definition_fqn, "Outer.run");
    assert_eq!(rels[1].relationship_type, RelationshipType::MethodToProperty);
}

#[test]
fn refiled_definition_replaces_the_earlier_one() {
    let analyzer = PythonAnalyzer::new();
    let defs = vec![
        def("f", DefinitionType::Python(PythonDefinitionType::Function), &["f"], 0),
        def("f", DefinitionType::Python(PythonDefinitionType::AsyncFunction), &["f"], 50),
    ];
    let mut map = DefinitionMap::new();
    let mut file_defs = Vec::new();
    analyzer.process_definitions(&defs, "m.py", &mut map, &mut file_defs);
    assert_eq!(map.len(), 1);
    assert_eq!(map.entry_at(0).node.location.start_byte, 50);
    assert_eq!(file_defs.len(), 2);

    let rust = RustAnalyzer::new();
    let rdefs = vec![
        def("f", DefinitionType::Rust(RustDefinitionType::Function), &["f"], 0),
        def("f", DefinitionType::Rust(RustDefinitionType::Function), &["f"], 50),
    ];
    let mut rmap = DefinitionMap::new();
    let mut rfile_defs = Vec::new();
    rust.process_definitions(&rdefs, "lib.rs", &mut rmap, &mut rfile_defs);
    assert_eq!(rmap.len(), 1);
    assert_eq!(rmap.entry_at(0).node.location.start_byte, 0);
    assert_eq!(rfile_defs.len(), 1);
}

#[test]
fn java_packages_and_typescript_namespaces_are_not_filed() {
    let mut map = DefinitionMap::new();
    let mut file_defs = Vec::new();
    JavaAnalyzer::new().process_definitions(
        &vec![
            def("com.example", DefinitionType::Java(JavaDefinitionType::Package), &["com.example"], 0),
            def("Main", DefinitionType::Java(JavaDefinitionType::Class), &["Main"], 10),
        ],
        "Main.java",
        &mut map,
        &mut file_defs,
    );
    assert_eq!(map.len(), 1);
    let mut map2 = DefinitionMap::new();
    let mut file_defs2 = Vec::new();
    TypeScriptAnalyzer::new().process_definitions(
        &vec![def("NS", DefinitionType::TypeScript(TypeScriptDefinitionType::Namespace), &["NS"], 0)],
        "a.ts",
        &mut map2,
        &mut file_defs2,
    );
    assert_eq!(map2.len(), 0);
    assert_eq!(file_defs2.len(), 0);
}

#[test]
fn rust_nested_relationships_use_the_nearest_related_enclosing_definition() {
    let rust = RustAnalyzer::new();
    let defs = vec![
        def("m", DefinitionType::Rust(RustDefinitionType::Module), &["m"], 0),
        def("S", DefinitionType::Rust(RustDefinitionType::Struct), &["m", "S"], 10),
        def("field", DefinitionType::Rust(RustDefinitionType::Field), &["m", "S", "field"], 20),
        def("imp", DefinitionType::Rust(RustDefinitionType::Method), &["m", "S", "imp"], 30),
    ];
    let mut map = DefinitionMap::new();
    let mut file_defs = Vec::new();
    rust.process_definitions(&defs, "lib.rs", &mut map, &mut file_defs);
    let ims = ImportedSymbolMap::new();
    let mut rels = Vec::new();
    let mut import_rels = Vec::new();
    rust.add_definition_relationships(&map, &ims, &mut rels, &mut import_rels);
    let got: Vec<(String, String, RelationshipType)> =
        rels.iter().map(|r| (r.from_definition_fqn.clone(), r.to_definition_fqn.clone(), r.relationship_type)).collect();
    assert_eq!(
        got,
        vec![
            ("m".to_string(), "m::S".to_string(), RelationshipType::ModuleToSingletonMethod),
            ("m::S".to_string(), "m::S::field".to_string(), RelationshipType::ClassToMethod),
            ("m".to_string(), "m::S::imp".to_string(), RelationshipType::ModuleToSingletonMethod),
        ]
    );
    assert!(import_rels.is_empty());
}

#[test]
fn imports_are_filed_and_related_to_their_scopes() {
    let ts = TypeScriptAnalyzer::new();
    let defs = vec![def("f", DefinitionType::TypeScript(TypeScriptDefinitionType::Function), &["f"], 0)];
    let mut map = DefinitionMap::new();
    let mut file_defs = Vec::new();
    ts.process_definitions(&defs, "a.ts", &mut map, &mut file_defs);
    let imports = vec![
        ParsedImport {
            import_type: ImportType::TypeScript("NamedImport".to_string()),
            import_path: "react".to_string(),
            identifier: Some(ImportIdentifier { name: "useState".to_string(), alias: None }),
            range: range(100, 120),
            scope: Some(parts(&["f"])),
        },
        ParsedImport {
            import_type: ImportType::TypeScript("SideEffectImport".to_string()),
            import_path: "./styles.css".to_string(), identifier: None, range: range(0, 5), scope: None },
        ParsedImport {
            import_type: ImportType::TypeScript("AliasedImport".to_string()),
            import_path: "lodash".to_string(),
            identifier: Some(ImportIdentifier { name: "map".to_string(), alias: Some("m".to_string()) }),
            range: range(130, 140),
            scope: Some(parts(&["f"])),
        },
    ];
    let mut ims = ImportedSymbolMap::new();
    let mut file_imports = Vec::new();
    ts.process_imports(&imports, "a.ts", &mut ims, &mut file_imports);
    assert_eq!(ims.len(), 2);
    assert_eq!(file_imports.len(), 3);
    assert_eq!(file_imports[0].import_location.start_byte, 100);
    let under_f = ims.get("f", "a.ts").unwrap();
    assert_eq!(under_f.len(), 2);
    assert_eq!(under_f[1].import_path, "lodash");
    let mut rels = Vec::new();
    let mut import_rels = Vec::new();
    ts.add_definition_relationships(&map, &ims, &mut rels, &mut import_rels);
    assert_eq!(import_rels.len(), 2);
    assert_eq!(import_rels[0].definition_fqn, "f");
    assert_eq!(import_rels[0].relationship_type, RelationshipType::DefinesImportedSymbol);
    assert_eq!(import_rels[1].imported_symbol_location.start_byte, 130);

    let cs = CSharpAnalyzer::new();
    let cs_imports = vec![
        ParsedImport { import_type: ImportType::CSharp("Using".to_string()), import_path: "System".to_string(), identifier: None, range: range(0, 5), scope: None },
        ParsedImport { import_type: ImportType::CSharp("Using".to_string()), import_path: "System".to_string(), identifier: None, range: range(10, 15), scope: None },
    ];
    let mut cims = ImportedSymbolMap::new();
    let mut cfile = Vec::new();
    cs.process_imports(&cs_imports, "P.cs", &mut cims, &mut cfile);
    assert_eq!(cims.len(), 1);
    let under = cims.get("System", "P.cs").unwrap();
    assert_eq!(under.len(), 1);
    assert_eq!(under[0].location.start_byte, 10);
    assert_eq!(cfile.len(), 2);

    let rs = RustAnalyzer::new();
    let mut rims = ImportedSymbolMap::new();
    let mut rfile = Vec::new();
    rs.process_imports(
        &vec![ParsedImport { import_type: ImportType::Rust("UseDeclaration".to_string()), import_path: "std::fmt".to_string(), identifier: None, range: range(0, 8), scope: None }],
        "lib.rs",
        &mut rims,
        &mut rfile,
    );
    let r = rims.get("", "lib.rs").unwrap();
    assert_eq!(r[0].identifier.as_ref().unwrap().name, "std::fmt");
    assert_eq!(r[0].import_type, ImportType::Rust("UseDeclaration".to_string()));
    assert_eq!(r[0].get_string_field("import_type"), Some("UseDeclaration".to_string()));
}

#[test]
fn analyzers_file_only_their_own_language() {
    let rust = RustAnalyzer::new();
    let defs = vec![def("g", DefinitionType::Python(PythonDefinitionType::Function), &["g"], 0)];
    let mut map = DefinitionMap::new();
    let mut file_defs = Vec::new();
    rust.process_definitions(&defs, "lib.rs", &mut map, &mut file_defs);
    assert_eq!(map.len(), 0);
    assert!(file_defs.is_empty());
    let python = PythonAnalyzer::new();
    python.process_definitions(&defs, "m.py", &mut map, &mut file_defs);
    assert_eq!(map.len(), 1);
    let unsupported = vec![def("h", DefinitionType::Unsupported, &["h"], 0)];
    python.process_definitions(&unsupported, "m.py", &mut map, &mut file_defs);
    assert_eq!(map.len(), 1);
}

#[test]
fn kotlin_references_link_definitions_of_the_file() {
    let analyzer = KotlinAnalyzer::new();
    let defs = vec![
        def("A", DefinitionType::Kotlin(KotlinDefinitionType::Class), &["A"], 0),
        def("run", DefinitionType::Kotlin(KotlinDefinitionType::Function), &["A", "run"], 10),
        def("x", DefinitionType::Kotlin(KotlinDefinitionType::Property), &["A", "x"], 30),
    ];
    let mut map = DefinitionMap::new();
    let mut file_defs = Vec::new();
    analyzer.process_definitions(&defs, "A.kt", &mut map, &mut file_defs);
    let refs = vec![
        KotlinReference {
            scope: Some(parts(&["A", "run"])),
            kind: KotlinReferenceKind::PropertyReference,
            target: KotlinTarget::Definition(parts(&["A", "x"])),
        },
        KotlinReference {
            scope: Some(parts(&["A", "run"])),
            kind: KotlinReferenceKind::MethodCall,
            target: KotlinTarget::Partial(vec![Some(parts(&["A"])), Some(parts(&["B"])), None, Some(parts(&["A", "x"]))]),
        },
        KotlinReference { scope: None, kind: KotlinReferenceKind::MethodCall, target: KotlinTarget::Definition(parts(&["A"])) },
    ];
    let mut rels = Vec::new();
    analyzer.process_references(&refs, "A.kt", &map, &mut rels);
    assert_eq!(rels.len(), 2);
    assert_eq!(rels[0].to_definition_fqn, "A.x");
    assert_eq!(rels[0].relationship_type, RelationshipType::PropertyReference);
    assert_eq!(rels[1].to_definition_fqn, "A");
    assert_eq!(rels[1].relationship_type, RelationshipType::Calls);
}
