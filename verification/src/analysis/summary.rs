//! Counts that summarize an analyzed graph, and their report.

use vstd::prelude::*;
use crate::analysis::types::{
    DefinitionType, GraphData, CSharpDefinitionType, JavaDefinitionType, KotlinDefinitionType, PythonDefinitionType, RubyDefinitionType, RustDefinitionType, TypeScriptDefinitionType,
};
use crate::count_table::{count_of, CountTable};
use crate::graph::relationship_name;
use crate::text::{decimal_text, join_strings, join_texts, lemma_texts_push, push_u64, texts_of};
use crate::writer::{count_line, duration_debug, duration_debug_text, push_count_line, ElapsedTime};

verus! {

/// The name under which a kind of definition is counted and stored: the
/// kind's name within its language.
pub open spec fn definition_type_name(t: DefinitionType) -> Seq<char> {
    match t {
        DefinitionType::Ruby(RubyDefinitionType::Class) => "Class"@,
        DefinitionType::Ruby(RubyDefinitionType::Module) => "Module"@,
        DefinitionType::Ruby(RubyDefinitionType::Method) => "Method"@,
        DefinitionType::Ruby(RubyDefinitionType::SingletonMethod) => "SingletonMethod"@,
        DefinitionType::Ruby(RubyDefinitionType::Lambda) => "Lambda"@,
        DefinitionType::Ruby(RubyDefinitionType::Proc) => "Proc"@,
        DefinitionType::Python(PythonDefinitionType::Class) => "Class"@,
        DefinitionType::Python(PythonDefinitionType::DecoratedClass) => "DecoratedClass"@,
        DefinitionType::Python(PythonDefinitionType::Method) => "Method"@,
        DefinitionType::Python(PythonDefinitionType::AsyncMethod) => "AsyncMethod"@,
        DefinitionType::Python(PythonDefinitionType::DecoratedMethod) => "DecoratedMethod"@,
        DefinitionType::Python(PythonDefinitionType::DecoratedAsyncMethod) => "DecoratedAsyncMethod"@,
        DefinitionType::Python(PythonDefinitionType::Function) => "Function"@,
        DefinitionType::Python(PythonDefinitionType::AsyncFunction) => "AsyncFunction"@,
        DefinitionType::Python(PythonDefinitionType::DecoratedFunction) => "DecoratedFunction"@,
        DefinitionType::Python(PythonDefinitionType::DecoratedAsyncFunction) => "DecoratedAsyncFunction"@,
        DefinitionType::Python(PythonDefinitionType::Lambda) => "Lambda"@,
        DefinitionType::Kotlin(KotlinDefinitionType::Class) => "Class"@,
        DefinitionType::Kotlin(KotlinDefinitionType::DataClass) => "DataClass"@,
        DefinitionType::Kotlin(KotlinDefinitionType::ValueClass) => "ValueClass"@,
        DefinitionType::Kotlin(KotlinDefinitionType::AnnotationClass) => "AnnotationClass"@,
        DefinitionType::Kotlin(KotlinDefinitionType::Object) => "Object"@,
        DefinitionType::Kotlin(KotlinDefinitionType::CompanionObject) => "CompanionObject"@,
        DefinitionType::Kotlin(KotlinDefinitionType::Enum) => "Enum"@,
        DefinitionType::Kotlin(KotlinDefinitionType::Interface) => "Interface"@,
        DefinitionType::Kotlin(KotlinDefinitionType::EnumEntry) => "EnumEntry"@,
        DefinitionType::Kotlin(KotlinDefinitionType::Constructor) => "Constructor"@,
        DefinitionType::Kotlin(KotlinDefinitionType::Function) => "Function"@,
        DefinitionType::Kotlin(KotlinDefinitionType::Property) => "Property"@,
        DefinitionType::Kotlin(KotlinDefinitionType::Lambda) => "Lambda"@,
        DefinitionType::Java(JavaDefinitionType::Package) => "Package"@,
        DefinitionType::Java(JavaDefinitionType::Class) => "Class"@,
        DefinitionType::Java(JavaDefinitionType::Enum) => "Enum"@,
        DefinitionType::Java(JavaDefinitionType::AnnotationDeclaration) => "AnnotationDeclaration"@,
        DefinitionType::Java(JavaDefinitionType::Record) => "Record"@,
        DefinitionType::Java(JavaDefinitionType::Interface) => "Interface"@,
        DefinitionType::Java(JavaDefinitionType::EnumConstant) => "EnumConstant"@,
        DefinitionType::Java(JavaDefinitionType::Method) => "Method"@,
        DefinitionType::Java(JavaDefinitionType::Constructor) => "Constructor"@,
        DefinitionType::Java(JavaDefinitionType::Lambda) => "Lambda"@,
        DefinitionType::CSharp(CSharpDefinitionType::Class) => "Class"@,
        DefinitionType::CSharp(CSharpDefinitionType::Struct) => "Struct"@,
        DefinitionType::CSharp(CSharpDefinitionType::Record) => "Record"@,
        DefinitionType::CSharp(CSharpDefinitionType::Enum) => "Enum"@,
        DefinitionType::CSharp(CSharpDefinitionType::Interface) => "Interface"@,
        DefinitionType::CSharp(CSharpDefinitionType::InstanceMethod) => "InstanceMethod"@,
        DefinitionType::CSharp(CSharpDefinitionType::StaticMethod) => "StaticMethod"@,
        DefinitionType::CSharp(CSharpDefinitionType::ExtensionMethod) => "ExtensionMethod"@,
        DefinitionType::CSharp(CSharpDefinitionType::Property) => "Property"@,
        DefinitionType::CSharp(CSharpDefinitionType::Constructor) => "Constructor"@,
        DefinitionType::CSharp(CSharpDefinitionType::Lambda) => "Lambda"@,
        DefinitionType::CSharp(CSharpDefinitionType::Field) => "Field"@,
        DefinitionType::CSharp(CSharpDefinitionType::Delegate) => "Delegate"@,
        DefinitionType::CSharp(CSharpDefinitionType::Finalizer) => "Finalizer"@,
        DefinitionType::CSharp(CSharpDefinitionType::Operator) => "Operator"@,
        DefinitionType::CSharp(CSharpDefinitionType::Indexer) => "Indexer"@,
        DefinitionType::CSharp(CSharpDefinitionType::Event) => "Event"@,
        DefinitionType::CSharp(CSharpDefinitionType::AnonymousType) => "AnonymousType"@,
        DefinitionType::TypeScript(TypeScriptDefinitionType::Class) => "Class"@,
        DefinitionType::TypeScript(TypeScriptDefinitionType::NamedClassExpression) => "NamedClassExpression"@,
        DefinitionType::TypeScript(TypeScriptDefinitionType::Method) => "Method"@,
        DefinitionType::TypeScript(TypeScriptDefinitionType::Function) => "Function"@,
        DefinitionType::TypeScript(TypeScriptDefinitionType::NamedFunctionExpression) => "NamedFunctionExpression"@,
        DefinitionType::TypeScript(TypeScriptDefinitionType::NamedArrowFunction) => "NamedArrowFunction"@,
        DefinitionType::TypeScript(TypeScriptDefinitionType::NamedGeneratorFunctionExpression) => "NamedGeneratorFunctionExpression"@,
        DefinitionType::TypeScript(TypeScriptDefinitionType::NamedCallExpression) => "NamedCallExpression"@,
        DefinitionType::TypeScript(TypeScriptDefinitionType::Interface) => "Interface"@,
        DefinitionType::TypeScript(TypeScriptDefinitionType::Namespace) => "Namespace"@,
        DefinitionType::Rust(RustDefinitionType::Module) => "Module"@,
        DefinitionType::Rust(RustDefinitionType::Struct) => "Struct"@,
        DefinitionType::Rust(RustDefinitionType::Field) => "Field"@,
        DefinitionType::Rust(RustDefinitionType::Enum) => "Enum"@,
        DefinitionType::Rust(RustDefinitionType::Variant) => "Variant"@,
        DefinitionType::Rust(RustDefinitionType::Trait) => "Trait"@,
        DefinitionType::Rust(RustDefinitionType::Method) => "Method"@,
        DefinitionType::Rust(RustDefinitionType::Impl) => "Impl"@,
        DefinitionType::Rust(RustDefinitionType::AssociatedFunction) => "AssociatedFunction"@,
        DefinitionType::Rust(RustDefinitionType::Union) => "Union"@,
        DefinitionType::Rust(RustDefinitionType::Function) => "Function"@,
        DefinitionType::Unsupported => "unsupported"@,
    }
}

impl DefinitionType {
    /// The name of the kind of definition.
    pub fn as_str(&self) -> (s: &'static str)
        ensures
            s@ == definition_type_name(*self),
    {
        match self {
            DefinitionType::Ruby(RubyDefinitionType::Class) => "Class",
            DefinitionType::Ruby(RubyDefinitionType::Module) => "Module",
            DefinitionType::Ruby(RubyDefinitionType::Method) => "Method",
            DefinitionType::Ruby(RubyDefinitionType::SingletonMethod) => "SingletonMethod",
            DefinitionType::Ruby(RubyDefinitionType::Lambda) => "Lambda",
            DefinitionType::Ruby(RubyDefinitionType::Proc) => "Proc",
            DefinitionType::Python(PythonDefinitionType::Class) => "Class",
            DefinitionType::Python(PythonDefinitionType::DecoratedClass) => "DecoratedClass",
            DefinitionType::Python(PythonDefinitionType::Method) => "Method",
            DefinitionType::Python(PythonDefinitionType::AsyncMethod) => "AsyncMethod",
            DefinitionType::Python(PythonDefinitionType::DecoratedMethod) => "DecoratedMethod",
            DefinitionType::Python(PythonDefinitionType::DecoratedAsyncMethod) => "DecoratedAsyncMethod",
            DefinitionType::Python(PythonDefinitionType::Function) => "Function",
            DefinitionType::Python(PythonDefinitionType::AsyncFunction) => "AsyncFunction",
            DefinitionType::Python(PythonDefinitionType::DecoratedFunction) => "DecoratedFunction",
            DefinitionType::Python(PythonDefinitionType::DecoratedAsyncFunction) => "DecoratedAsyncFunction",
            DefinitionType::Python(PythonDefinitionType::Lambda) => "Lambda",
            DefinitionType::Kotlin(KotlinDefinitionType::Class) => "Class",
            DefinitionType::Kotlin(KotlinDefinitionType::DataClass) => "DataClass",
            DefinitionType::Kotlin(KotlinDefinitionType::ValueClass) => "ValueClass",
            DefinitionType::Kotlin(KotlinDefinitionType::AnnotationClass) => "AnnotationClass",
            DefinitionType::Kotlin(KotlinDefinitionType::Object) => "Object",
            DefinitionType::Kotlin(KotlinDefinitionType::CompanionObject) => "CompanionObject",
            DefinitionType::Kotlin(KotlinDefinitionType::Enum) => "Enum",
            DefinitionType::Kotlin(KotlinDefinitionType::Interface) => "Interface",
            DefinitionType::Kotlin(KotlinDefinitionType::EnumEntry) => "EnumEntry",
            DefinitionType::Kotlin(KotlinDefinitionType::Constructor) => "Constructor",
            DefinitionType::Kotlin(KotlinDefinitionType::Function) => "Function",
            DefinitionType::Kotlin(KotlinDefinitionType::Property) => "Property",
            DefinitionType::Kotlin(KotlinDefinitionType::Lambda) => "Lambda",
            DefinitionType::Java(JavaDefinitionType::Package) => "Package",
            DefinitionType::Java(JavaDefinitionType::Class) => "Class",
            DefinitionType::Java(JavaDefinitionType::Enum) => "Enum",
            DefinitionType::Java(JavaDefinitionType::AnnotationDeclaration) => "AnnotationDeclaration",
            DefinitionType::Java(JavaDefinitionType::Record) => "Record",
            DefinitionType::Java(JavaDefinitionType::Interface) => "Interface",
            DefinitionType::Java(JavaDefinitionType::EnumConstant) => "EnumConstant",
            DefinitionType::Java(JavaDefinitionType::Method) => "Method",
            DefinitionType::Java(JavaDefinitionType::Constructor) => "Constructor",
            DefinitionType::Java(JavaDefinitionType::Lambda) => "Lambda",
            DefinitionType::CSharp(CSharpDefinitionType::Class) => "Class",
            DefinitionType::CSharp(CSharpDefinitionType::Struct) => "Struct",
            DefinitionType::CSharp(CSharpDefinitionType::Record) => "Record",
            DefinitionType::CSharp(CSharpDefinitionType::Enum) => "Enum",
            DefinitionType::CSharp(CSharpDefinitionType::Interface) => "Interface",
            DefinitionType::CSharp(CSharpDefinitionType::InstanceMethod) => "InstanceMethod",
            DefinitionType::CSharp(CSharpDefinitionType::StaticMethod) => "StaticMethod",
            DefinitionType::CSharp(CSharpDefinitionType::ExtensionMethod) => "ExtensionMethod",
            DefinitionType::CSharp(CSharpDefinitionType::Property) => "Property",
            DefinitionType::CSharp(CSharpDefinitionType::Constructor) => "Constructor",
            DefinitionType::CSharp(CSharpDefinitionType::Lambda) => "Lambda",
            DefinitionType::CSharp(CSharpDefinitionType::Field) => "Field",
            DefinitionType::CSharp(CSharpDefinitionType::Delegate) => "Delegate",
            DefinitionType::CSharp(CSharpDefinitionType::Finalizer) => "Finalizer",
            DefinitionType::CSharp(CSharpDefinitionType::Operator) => "Operator",
            DefinitionType::CSharp(CSharpDefinitionType::Indexer) => "Indexer",
            DefinitionType::CSharp(CSharpDefinitionType::Event) => "Event",
            DefinitionType::CSharp(CSharpDefinitionType::AnonymousType) => "AnonymousType",
            DefinitionType::TypeScript(TypeScriptDefinitionType::Class) => "Class",
            DefinitionType::TypeScript(TypeScriptDefinitionType::NamedClassExpression) => "NamedClassExpression",
            DefinitionType::TypeScript(TypeScriptDefinitionType::Method) => "Method",
            DefinitionType::TypeScript(TypeScriptDefinitionType::Function) => "Function",
            DefinitionType::TypeScript(TypeScriptDefinitionType::NamedFunctionExpression) => "NamedFunctionExpression",
            DefinitionType::TypeScript(TypeScriptDefinitionType::NamedArrowFunction) => "NamedArrowFunction",
            DefinitionType::TypeScript(TypeScriptDefinitionType::NamedGeneratorFunctionExpression) => "NamedGeneratorFunctionExpression",
            DefinitionType::TypeScript(TypeScriptDefinitionType::NamedCallExpression) => "NamedCallExpression",
            DefinitionType::TypeScript(TypeScriptDefinitionType::Interface) => "Interface",
            DefinitionType::TypeScript(TypeScriptDefinitionType::Namespace) => "Namespace",
            DefinitionType::Rust(RustDefinitionType::Module) => "Module",
            DefinitionType::Rust(RustDefinitionType::Struct) => "Struct",
            DefinitionType::Rust(RustDefinitionType::Field) => "Field",
            DefinitionType::Rust(RustDefinitionType::Enum) => "Enum",
            DefinitionType::Rust(RustDefinitionType::Variant) => "Variant",
            DefinitionType::Rust(RustDefinitionType::Trait) => "Trait",
            DefinitionType::Rust(RustDefinitionType::Method) => "Method",
            DefinitionType::Rust(RustDefinitionType::Impl) => "Impl",
            DefinitionType::Rust(RustDefinitionType::AssociatedFunction) => "AssociatedFunction",
            DefinitionType::Rust(RustDefinitionType::Union) => "Union",
            DefinitionType::Rust(RustDefinitionType::Function) => "Function",
            DefinitionType::Unsupported => "unsupported",
        }
    }
}

/// The counts of each key in `keys`: each occurrence adds one.
pub open spec fn tally(keys: Seq<Seq<char>>) -> Map<Seq<char>, usize>
    decreases keys.len(),
{
    if keys.len() == 0 {
        Map::empty()
    } else {
        let m = tally(keys.drop_last());
        m.insert(keys.last(), (count_of(m, keys.last()) + 1) as usize)
    }
}

/// Each count of a tally is the number of keys equal to it.
pub proof fn lemma_tally_counts(keys: Seq<Seq<char>>, k: Seq<char>)
    requires
        keys.len() <= usize::MAX,
    ensures
        count_of(tally(keys), k) == keys.filter(|x: Seq<char>| x == k).len(),
    decreases keys.len(),
{
    reveal(Seq::filter);
    if keys.len() > 0 {
        let init = keys.drop_last();
        let last = keys.last();
        lemma_tally_counts(init, k);
        lemma_tally_counts(init, last);
        init.lemma_filter_len(|x: Seq<char>| x == last);
    }
}

/// The languages of the file nodes, in order.
pub open spec fn file_languages(g: GraphData) -> Seq<Seq<char>> {
    g.file_nodes@.map_values(|f: crate::analysis::types::FileNode| f.language@)
}

/// The kind names of the definition nodes, in order.
pub open spec fn definition_kinds(g: GraphData) -> Seq<Seq<char>> {
    g.definition_nodes@.map_values(|d: crate::analysis::types::DefinitionNode| definition_type_name(d.definition_type))
}

/// The type names of all relationships: directory, then file-definition,
/// then definition relationships.
pub open spec fn relationship_kinds(g: GraphData) -> Seq<Seq<char>> {
    g.directory_relationships@.map_values(|r: crate::analysis::types::DirectoryRelationship| relationship_name(r.relationship_type))
        + g.file_definition_relationships@.map_values(
        |r: crate::analysis::types::FileDefinitionRelationship| relationship_name(r.relationship_type),
    ) + g.definition_relationships@.map_values(
        |r: crate::analysis::types::DefinitionRelationship| relationship_name(r.relationship_type),
    )
}

/// Statistics of an analysis.
pub struct AnalysisStats {
    pub total_directories_created: usize,
    pub total_files_analyzed: usize,
    pub total_definitions_created: usize,
    pub total_directory_relationships: usize,
    pub total_file_definition_relationships: usize,
    pub total_definition_relationships: usize,
    pub analysis_duration: ElapsedTime,
    pub files_by_language: CountTable,
    pub definitions_by_type: CountTable,
    pub relationships_by_type: CountTable,
}

/// Counts `keys` into `table`, one by one.
fn count_into(table: &mut CountTable, keys: &Vec<String>)
    requires
        old(table).wf(),
        old(table)@ == Map::<Seq<char>, usize>::empty(),
    ensures
        final(table).wf(),
        final(table)@ == tally(texts_of(keys@)),
{
    let ghost ks = texts_of(keys@);
    let mut i: usize = 0;
    assert(tally(ks.take(0)) =~= Map::<Seq<char>, usize>::empty());
    while i < keys.len()
        invariant
            ks == texts_of(keys@),
            i <= keys@.len(),
            table.wf(),
            table@ == tally(ks.take(i as int)),
            forall|k: Seq<char>| count_of(table@, k) <= i,
        decreases keys@.len() - i,
    {
        let ghost before = table@;
        let k = keys[i].as_str();
        assert(count_of(table@, k@) <= i);
        table.increment(k);
        proof {
            assert(ks.take(i + 1).drop_last() =~= ks.take(i as int));
            assert(ks.take(i + 1).last() == k@);
            assert forall|q: Seq<char>| count_of(table@, q) <= i + 1 by {
                if q != k@ {
                    assert(count_of(table@, q) == count_of(before, q));
                }
            }
        }
        i = i + 1;
    }
    assert(ks.take(keys@.len() as int) =~= ks);
}

impl AnalysisStats {
    /// The statistics of `graph_data`: the number of each kind of node and
    /// relationship, and the counts of files by language, definitions by
    /// kind and relationships by type.
    pub fn from_graph_data(graph_data: &GraphData, analysis_duration: ElapsedTime) -> (s: Self)
        ensures
            s.total_directories_created == graph_data.directory_nodes@.len(),
            s.total_files_analyzed == graph_data.file_nodes@.len(),
            s.total_definitions_created == graph_data.definition_nodes@.len(),
            s.total_directory_relationships == graph_data.directory_relationships@.len(),
            s.total_file_definition_relationships == graph_data.file_definition_relationships@.len(),
            s.total_definition_relationships == graph_data.definition_relationships@.len(),
            s.analysis_duration == analysis_duration,
            s.files_by_language.wf(),
            s.files_by_language@ == tally(file_languages(*graph_data)),
            s.definitions_by_type.wf(),
            s.definitions_by_type@ == tally(definition_kinds(*graph_data)),
            s.relationships_by_type.wf(),
            s.relationships_by_type@ == tally(relationship_kinds(*graph_data)),
    {
        let mut languages: Vec<String> = Vec::new();
        let mut i: usize = 0;
        while i < graph_data.file_nodes.len()
            invariant
                i <= graph_data.file_nodes@.len(),
                texts_of(languages@) == file_languages(*graph_data).take(i as int),
            decreases graph_data.file_nodes@.len() - i,
        {
            let l = graph_data.file_nodes[i].language.clone();
            proof { lemma_texts_push(languages@, l); }
            languages.push(l);
            assert(texts_of(languages@) =~= file_languages(*graph_data).take(i + 1));
            i = i + 1;
        }
        assert(file_languages(*graph_data).take(i as int) =~= file_languages(*graph_data));
        let mut kinds: Vec<String> = Vec::new();
        let mut j: usize = 0;
        while j < graph_data.definition_nodes.len()
            invariant
                j <= graph_data.definition_nodes@.len(),
                texts_of(kinds@) == definition_kinds(*graph_data).take(j as int),
            decreases graph_data.definition_nodes@.len() - j,
        {
            let k = String::from_str(graph_data.definition_nodes[j].definition_type.as_str());
            proof { lemma_texts_push(kinds@, k); }
            kinds.push(k);
            assert(texts_of(kinds@) =~= definition_kinds(*graph_data).take(j + 1));
            j = j + 1;
        }
        assert(definition_kinds(*graph_data).take(j as int) =~= definition_kinds(*graph_data));
        let mut rel_types: Vec<String> = Vec::new();
        let ghost rk = relationship_kinds(*graph_data);
        let ghost n1 = graph_data.directory_relationships@.len();
        let ghost n2 = graph_data.file_definition_relationships@.len();
        let mut a: usize = 0;
        while a < graph_data.directory_relationships.len()
            invariant
                rk == relationship_kinds(*graph_data),
                n1 == graph_data.directory_relationships@.len(),
                a <= n1,
                texts_of(rel_types@) == rk.take(a as int),
            decreases n1 - a,
        {
            let t = String::from_str(graph_data.directory_relationships[a].relationship_type.as_str());
            proof { lemma_texts_push(rel_types@, t); }
            rel_types.push(t);
            assert(rk[a as int] == t@);
            assert(texts_of(rel_types@) =~= rk.take(a + 1));
            a = a + 1;
        }
        let mut b: usize = 0;
        while b < graph_data.file_definition_relationships.len()
            invariant
                rk == relationship_kinds(*graph_data),
                n1 == graph_data.directory_relationships@.len(),
                n2 == graph_data.file_definition_relationships@.len(),
                b <= n2,
                texts_of(rel_types@) == rk.take(n1 + b),
            decreases n2 - b,
        {
            let t = String::from_str(graph_data.file_definition_relationships[b].relationship_type.as_str());
            proof { lemma_texts_push(rel_types@, t); }
            rel_types.push(t);
            assert(rk[n1 + b] == t@);
            assert(texts_of(rel_types@) =~= rk.take(n1 + b + 1));
            b = b + 1;
        }
        let mut c: usize = 0;
        while c < graph_data.definition_relationships.len()
            invariant
                rk == relationship_kinds(*graph_data),
                n1 == graph_data.directory_relationships@.len(),
                n2 == graph_data.file_definition_relationships@.len(),
                c <= graph_data.definition_relationships@.len(),
                texts_of(rel_types@) == rk.take(n1 + n2 + c),
            decreases graph_data.definition_relationships@.len() - c,
        {
            let t = String::from_str(graph_data.definition_relationships[c].relationship_type.as_str());
            proof { lemma_texts_push(rel_types@, t); }
            rel_types.push(t);
            assert(rk[n1 + n2 + c] == t@);
            assert(texts_of(rel_types@) =~= rk.take(n1 + n2 + c + 1));
            c = c + 1;
        }
        assert(rk.take(n1 + n2 + c) =~= rk);
        let mut files_by_language = CountTable::new();
        count_into(&mut files_by_language, &languages);
        let mut definitions_by_type = CountTable::new();
        count_into(&mut definitions_by_type, &kinds);
        let mut relationships_by_type = CountTable::new();
        count_into(&mut relationships_by_type, &rel_types);
        AnalysisStats {
            total_directories_created: graph_data.directory_nodes.len(),
            total_files_analyzed: graph_data.file_nodes.len(),
            total_definitions_created: graph_data.definition_nodes.len(),
            total_directory_relationships: graph_data.directory_relationships.len(),
            total_file_definition_relationships: graph_data.file_definition_relationships.len(),
            total_definition_relationships: graph_data.definition_relationships.len(),
            analysis_duration,
            files_by_language,
            definitions_by_type,
            relationships_by_type,
        }
    }
}

/// The report lines of a table: one per key, in the given order.
pub open spec fn table_lines(keys: Seq<Seq<char>>, m: Map<Seq<char>, usize>) -> Seq<char> {
    join_texts(keys.map_values(|k: Seq<char>| "    - "@ + k + ": "@ + decimal_text(count_of(m, k)) + "\n"@), ""@)
}

/// The report section of a table: its title and its lines, or nothing
/// for an empty table.
pub open spec fn table_section(title: Seq<char>, t: CountTable) -> Seq<char> {
    if t.len_spec() > 0 {
        "  • "@ + title + ":\n"@ + table_lines(t.keys(), t@)
    } else {
        Seq::<char>::empty()
    }
}

/// The report of analysis statistics.
pub open spec fn stats_text(s: AnalysisStats) -> Seq<char> {
    "📊 Analysis Statistics (completed in "@ + duration_debug_text(s.analysis_duration.secs, s.analysis_duration.nanos)
        + "):\n"@
        + count_line("Directories created"@, s.total_directories_created as nat)
        + count_line("Files analyzed"@, s.total_files_analyzed as nat)
        + count_line("Definitions created"@, s.total_definitions_created as nat)
        + count_line("Directory relationships"@, s.total_directory_relationships as nat)
        + count_line("File-definition relationships"@, s.total_file_definition_relationships as nat)
        + count_line("Definition relationships"@, s.total_definition_relationships as nat)
        + table_section("Files by language"@, s.files_by_language)
        + table_section("Definitions by type"@, s.definitions_by_type)
        + table_section("Relationships by type"@, s.relationships_by_type)
}

/// Appends the report section of `t` under `title`.
fn push_table_section(out: &mut String, title: &str, t: &CountTable)
    requires
        t.wf(),
    ensures
        final(out)@ == old(out)@ + table_section(title@, *t),
{
    if t.len() > 0 {
        out.append("  • ");
        out.append(title);
        out.append(":\n");
        let mut lines: Vec<String> = Vec::new();
        let mut i: usize = 0;
        proof { t.lemma_keys(); }
        while i < t.len()
            invariant
                t.wf(),
                i <= t.len_spec(),
                t.keys().len() == t.len_spec(),
                texts_of(lines@) == t.keys().take(i as int).map_values(
                    |k: Seq<char>| "    - "@ + k + ": "@ + decimal_text(count_of(t@, k)) + "\n"@,
                ),
            decreases t.len_spec() - i,
        {
            let key = t.key_at(i);
            let n = t.get(key.as_str());
            let mut line = String::from_str("    - ");
            line.append(key.as_str());
            line.append(": ");
            push_u64(&mut line, n as u64);
            line.append("\n");
            proof { lemma_texts_push(lines@, line); }
            lines.push(line);
            assert(texts_of(lines@) =~= t.keys().take(i + 1).map_values(
                |k: Seq<char>| "    - "@ + k + ": "@ + decimal_text(count_of(t@, k)) + "\n"@,
            ));
            i = i + 1;
        }
        assert(t.keys().take(i as int) =~= t.keys());
        let all = join_strings(&lines, "");
        out.append(all.as_str());
    }
}

impl AnalysisStats {
    /// The report of the statistics: the counts, then the counts by
    /// language, kind of definition and type of relationship.
    pub fn format_stats(&self) -> (r: String)
        requires
            self.analysis_duration.wf(),
            self.files_by_language.wf(),
            self.definitions_by_type.wf(),
            self.relationships_by_type.wf(),
        ensures
            r@ == stats_text(*self),
    {
        let mut result = String::from_str("📊 Analysis Statistics (completed in ");
        let d = duration_debug(self.analysis_duration.secs, self.analysis_duration.nanos);
        result.append(d.as_str());
        result.append("):\n");
        push_count_line(&mut result, "Directories created", self.total_directories_created as u64);
        push_count_line(&mut result, "Files analyzed", self.total_files_analyzed as u64);
        push_count_line(&mut result, "Definitions created", self.total_definitions_created as u64);
        push_count_line(&mut result, "Directory relationships", self.total_directory_relationships as u64);
        push_count_line(&mut result, "File-definition relationships", self.total_file_definition_relationships as u64);
        push_count_line(&mut result, "Definition relationships", self.total_definition_relationships as u64);
        push_table_section(&mut result, "Files by language", &self.files_by_language);
        push_table_section(&mut result, "Definitions by type", &self.definitions_by_type);
        push_table_section(&mut result, "Relationships by type", &self.relationships_by_type);
        result
    }
}

} // verus!
