//! Nodes and relationships of the code graph.

use vstd::prelude::*;
use crate::analysis::summary::definition_type_name;
use crate::graph::{relationship_name, RelationshipKind, RelationshipType};
use crate::text::str_eq;
use crate::seq_util::{filter_map, lemma_filter_map_step};

verus! {

/// Kinds of Ruby definitions.
#[derive(Debug, Clone, Copy, PartialEq, Eq, Structural)]
pub enum RubyDefinitionType {
    Class,
    Module,
    Method,
    SingletonMethod,
    Lambda,
    Proc,
}

/// Kinds of Python definitions.
#[derive(Debug, Clone, Copy, PartialEq, Eq, Structural)]
pub enum PythonDefinitionType {
    Class,
    DecoratedClass,
    Method,
    AsyncMethod,
    DecoratedMethod,
    DecoratedAsyncMethod,
    Function,
    AsyncFunction,
    DecoratedFunction,
    DecoratedAsyncFunction,
    Lambda,
}

/// Kinds of Kotlin definitions.
#[derive(Debug, Clone, Copy, PartialEq, Eq, Structural)]
pub enum KotlinDefinitionType {
    Class,
    DataClass,
    ValueClass,
    AnnotationClass,
    Object,
    CompanionObject,
    Enum,
    Interface,
    EnumEntry,
    Constructor,
    Function,
    Property,
    Lambda,
}

/// Kinds of Java definitions.
#[derive(Debug, Clone, Copy, PartialEq, Eq, Structural)]
pub enum JavaDefinitionType {
    Package,
    Class,
    Enum,
    AnnotationDeclaration,
    Record,
    Interface,
    EnumConstant,
    Method,
    Constructor,
    Lambda,
}

/// Kinds of C# definitions.
#[derive(Debug, Clone, Copy, PartialEq, Eq, Structural)]
pub enum CSharpDefinitionType {
    Class,
    Struct,
    Record,
    Enum,
    Interface,
    InstanceMethod,
    StaticMethod,
    ExtensionMethod,
    Property,
    Constructor,
    Lambda,
    Field,
    Delegate,
    Finalizer,
    Operator,
    Indexer,
    Event,
    AnonymousType,
}

/// Kinds of TypeScript definitions.
#[derive(Debug, Clone, Copy, PartialEq, Eq, Structural)]
pub enum TypeScriptDefinitionType {
    Class,
    NamedClassExpression,
    Method,
    Function,
    NamedFunctionExpression,
    NamedArrowFunction,
    NamedGeneratorFunctionExpression,
    NamedCallExpression,
    Interface,
    Namespace,
}

/// Kinds of Rust definitions.
#[derive(Debug, Clone, Copy, PartialEq, Eq, Structural)]
pub enum RustDefinitionType {
    Module,
    Struct,
    Field,
    Enum,
    Variant,
    Trait,
    Method,
    Impl,
    AssociatedFunction,
    Union,
    Function,
}

/// Represents a language-specific definition type (e.g. class, module, method, etc.)
#[derive(Debug, Clone, Copy, PartialEq, Eq, Structural)]
pub enum DefinitionType {
    Ruby(RubyDefinitionType),
    Python(PythonDefinitionType),
    Kotlin(KotlinDefinitionType),
    Java(JavaDefinitionType),
    CSharp(CSharpDefinitionType),
    TypeScript(TypeScriptDefinitionType),
    Rust(RustDefinitionType),
    Unsupported,
}

/// What a part of a fully qualified name names: a package or namespace,
/// or anything else.
#[derive(Debug, Clone, Copy, PartialEq, Eq, Structural)]
pub enum FqnPartKind {
    Package,
    Namespace,
    Other,
}

/// One part of a fully qualified name.
#[derive(Debug, Clone)]
pub struct FqnPart {
    pub node_name: String,
    pub node_type: FqnPartKind,
}

/// A fully qualified name in the language it belongs to.
#[derive(Debug, Clone)]
pub enum FqnType {
    Ruby(Vec<FqnPart>),
    Python(Vec<FqnPart>),
    Kotlin(Vec<FqnPart>),
    Java(Vec<FqnPart>),
    CSharp(Vec<FqnPart>),
    TypeScript(Vec<FqnPart>),
    Rust(Vec<FqnPart>),
}

/// The names of the parts of a fully qualified name.
pub open spec fn part_names(parts: Seq<FqnPart>) -> Seq<Seq<char>> {
    parts.map_values(|p: FqnPart| p.node_name@)
}

/// A line and column in a source file.
#[derive(Debug, Clone, Copy, PartialEq, Eq, Structural)]
pub struct Position {
    pub line: usize,
    pub column: usize,
}

/// A span of a source file, by line and column and by byte offsets.
#[derive(Debug, Clone, Copy)]
pub struct Range {
    pub start: Position,
    pub end: Position,
    pub byte_offset: (usize, usize),
}

impl Range {
    pub fn new(start: Position, end: Position, byte_offset: (usize, usize)) -> (r: Self)
        ensures
            r == (Range { start, end, byte_offset }),
    {
        Range { start, end, byte_offset }
    }
}

/// The span of a location with the given fields, as a `Range`: each field
/// converted to `usize` as `as` converts it.
pub open spec fn location_range(
    start_byte: i64,
    end_byte: i64,
    start_line: i32,
    end_line: i32,
    start_col: i32,
    end_col: i32,
) -> Range {
    Range {
        start: Position { line: start_line as usize, column: start_col as usize },
        end: Position { line: end_line as usize, column: end_col as usize },
        byte_offset: (start_byte as usize, end_byte as usize),
    }
}

/// Where a definition stands in a file.
#[derive(Debug, Clone)]
pub struct DefinitionLocation {
    pub file_path: String,
    pub start_byte: i64,
    pub end_byte: i64,
    pub start_line: i32,
    pub end_line: i32,
    pub start_col: i32,
    pub end_col: i32,
}

impl DefinitionLocation {
    /// A copy of this location.
    pub fn duplicate(&self) -> (c: Self)
        ensures
            c == *self,
    {
        DefinitionLocation {
            file_path: self.file_path.clone(),
            start_byte: self.start_byte,
            end_byte: self.end_byte,
            start_line: self.start_line,
            end_line: self.end_line,
            start_col: self.start_col,
            end_col: self.end_col,
        }
    }

    pub open spec fn spec_range(&self) -> Range {
        location_range(
            self.start_byte,
            self.end_byte,
            self.start_line,
            self.end_line,
            self.start_col,
            self.end_col,
        )
    }

    /// The span of this location.
    pub fn to_range(&self) -> (r: Range)
        ensures
            r == self.spec_range(),
    {
        Range {
            start: Position { line: self.start_line as usize, column: self.start_col as usize },
            end: Position { line: self.end_line as usize, column: self.end_col as usize },
            byte_offset: (self.start_byte as usize, self.end_byte as usize),
        }
    }
}

/// Where an imported symbol stands in a file.
#[derive(Debug, Clone)]
pub struct ImportedSymbolLocation {
    /// File path where this symbol was imported
    pub file_path: String,
    /// Start byte position in the file
    pub start_byte: i64,
    /// End byte position in the file
    pub end_byte: i64,
    /// Start line number
    pub start_line: i32,
    /// End line number
    pub end_line: i32,
    /// Start column
    pub start_col: i32,
    /// End column
    pub end_col: i32,
}

impl ImportedSymbolLocation {
    /// A copy of this location.
    pub fn duplicate(&self) -> (c: Self)
        ensures
            c == *self,
    {
        ImportedSymbolLocation {
            file_path: self.file_path.clone(),
            start_byte: self.start_byte,
            end_byte: self.end_byte,
            start_line: self.start_line,
            end_line: self.end_line,
            start_col: self.start_col,
            end_col: self.end_col,
        }
    }

    pub open spec fn spec_range(&self) -> Range {
        location_range(
            self.start_byte,
            self.end_byte,
            self.start_line,
            self.end_line,
            self.start_col,
            self.end_col,
        )
    }

    /// The span of this import.
    pub fn range(&self) -> (r: Range)
        ensures
            r == self.spec_range(),
    {
        let start_pos = Position { line: self.start_line as usize, column: self.start_col as usize };
        let end_pos = Position { line: self.end_line as usize, column: self.end_col as usize };
        Range::new(start_pos, end_pos, (self.start_byte as usize, self.end_byte as usize))
    }
}

/// A directory of the repository.
#[derive(Debug, Clone)]
pub struct DirectoryNode {
    /// Relative path from repository root
    pub path: String,
    /// Absolute path on filesystem
    pub absolute_path: String,
    /// Repository name
    pub repository_name: String,
    /// Directory name (last component of path)
    pub name: String,
}

/// A source file of the repository.
#[derive(Debug, Clone)]
pub struct FileNode {
    /// Relative path from repository root
    pub path: String,
    /// Absolute path on filesystem
    pub absolute_path: String,
    /// Programming language detected
    pub language: String,
    /// Repository name
    pub repository_name: String,
    /// File extension
    pub extension: String,
    /// File name (last component of path)
    pub name: String,
}

/// A definition (class, method, function, ...) found in a file.
#[derive(Debug, Clone)]
pub struct DefinitionNode {
    /// Fully qualified name
    pub fqn: String,
    /// Simple name of the definition
    pub name: String,
    /// Type of definition
    pub definition_type: DefinitionType,
    /// Where the definition stands
    pub location: DefinitionLocation,
}

impl DefinitionNode {
    /// Create a new DefinitionNode
    pub fn new(fqn: String, name: String, definition_type: DefinitionType, location: DefinitionLocation) -> (n: Self)
        ensures
            n == (DefinitionNode { fqn, name, definition_type, location }),
    {
        DefinitionNode { fqn, name, definition_type, location }
    }

    /// The file path of the definition.
    pub fn file_path(&self) -> (p: &str)
        ensures
            p@ == self.location.file_path@,
    {
        self.location.file_path.as_str()
    }
}

/// The name brought in by an import, with its alias if it has one.
#[derive(Debug, Clone)]
pub struct ImportIdentifier {
    /// Original name, e.g. "foo" in `from module import foo as bar`
    pub name: String,
    /// Alias, e.g. "bar" in `from module import foo as bar`
    pub alias: Option<String>,
}

/// The kind of an import in the terms of its language, as the parser of
/// that language names it (a plain import, an aliased one, a wildcard, and
/// so on).
#[derive(Debug, Clone, PartialEq, Eq, Hash)]
pub enum ImportType {
    Java(String),
    Kotlin(String),
    Python(String),
    CSharp(String),
    TypeScript(String),
    Rust(String),
}

impl ImportType {
    /// The name of the kind.
    pub open spec fn kind(&self) -> Seq<char> {
        match self {
            ImportType::Java(k) => k@,
            ImportType::Kotlin(k) => k@,
            ImportType::Python(k) => k@,
            ImportType::CSharp(k) => k@,
            ImportType::TypeScript(k) => k@,
            ImportType::Rust(k) => k@,
        }
    }

    /// The name of the kind, whatever the language.
    pub fn as_str(&self) -> (s: &str)
        ensures
            s@ == self.kind(),
    {
        match self {
            ImportType::Java(k) => k.as_str(),
            ImportType::Kotlin(k) => k.as_str(),
            ImportType::Python(k) => k.as_str(),
            ImportType::CSharp(k) => k.as_str(),
            ImportType::TypeScript(k) => k.as_str(),
            ImportType::Rust(k) => k.as_str(),
        }
    }

    /// A copy of the kind.
    pub fn duplicate(&self) -> (c: Self)
        ensures
            c == *self,
    {
        match self {
            ImportType::Java(k) => ImportType::Java(k.clone()),
            ImportType::Kotlin(k) => ImportType::Kotlin(k.clone()),
            ImportType::Python(k) => ImportType::Python(k.clone()),
            ImportType::CSharp(k) => ImportType::CSharp(k.clone()),
            ImportType::TypeScript(k) => ImportType::TypeScript(k.clone()),
            ImportType::Rust(k) => ImportType::Rust(k.clone()),
        }
    }
}

/// A symbol brought in by an import statement.
#[derive(Debug, Clone)]
pub struct ImportedSymbolNode {
    /// The kind of import, in the terms of its language
    pub import_type: ImportType,
    /// The import path as written in the source
    pub import_path: String,
    /// The imported identifier, if the import names one
    pub identifier: Option<ImportIdentifier>,
    /// Location of the enclosing import statement
    pub location: ImportedSymbolLocation,
}

/// A directory containing a directory or a file.
#[derive(Debug, Clone)]
pub struct DirectoryRelationship {
    pub from_path: String,
    pub to_path: String,
    pub relationship_type: RelationshipType,
}

/// A file defining (or calling) a definition.
#[derive(Debug, Clone)]
pub struct FileDefinitionRelationship {
    pub file_path: String,
    pub definition_fqn: String,
    pub relationship_type: RelationshipType,
    pub definition_location: DefinitionLocation,
}

/// A file importing a symbol.
#[derive(Debug, Clone)]
pub struct FileImportedSymbolRelationship {
    pub file_path: String,
    pub import_location: ImportedSymbolLocation,
    pub relationship_type: RelationshipType,
}

/// A definition related to another definition.
#[derive(Debug, Clone)]
pub struct DefinitionRelationship {
    pub from_file_path: String,
    pub to_file_path: String,
    pub from_definition_fqn: String,
    pub to_definition_fqn: String,
    pub from_location: DefinitionLocation,
    pub to_location: DefinitionLocation,
    pub relationship_type: RelationshipType,
    /// Where in the source the relationship was found (a call site), when
    /// it comes from a reference
    pub source_location: Option<DefinitionLocation>,
}

/// A definition related to an imported symbol.
#[derive(Debug, Clone)]
pub struct DefinitionImportedSymbolRelationship {
    pub file_path: String,
    pub definition_fqn: String,
    pub imported_symbol_location: ImportedSymbolLocation,
    pub relationship_type: RelationshipType,
    pub definition_location: DefinitionLocation,
    /// Where in the source the relationship was found (a call site), when
    /// it comes from a reference
    pub source_location: Option<DefinitionLocation>,
}

/// The nodes and relationships of the graph of one repository.
pub struct GraphData {
    pub directory_nodes: Vec<DirectoryNode>,
    pub file_nodes: Vec<FileNode>,
    pub definition_nodes: Vec<DefinitionNode>,
    pub imported_symbol_nodes: Vec<ImportedSymbolNode>,
    pub directory_relationships: Vec<DirectoryRelationship>,
    pub file_definition_relationships: Vec<FileDefinitionRelationship>,
    pub file_imported_symbol_relationships: Vec<FileImportedSymbolRelationship>,
    pub definition_relationships: Vec<DefinitionRelationship>,
    pub definition_imported_symbol_relationships: Vec<DefinitionImportedSymbolRelationship>,
}

} // verus!

verus! {

impl Range {
    /// The span that covers nothing, at the start of a file.
    pub open spec fn spec_empty() -> Range {
        Range { start: Position { line: 0, column: 0 }, end: Position { line: 0, column: 0 }, byte_offset: (0, 0) }
    }

    /// The span that covers nothing, at the start of a file.
    pub fn empty() -> (r: Range)
        ensures
            r == Range::spec_empty(),
    {
        Range { start: Position { line: 0, column: 0 }, end: Position { line: 0, column: 0 }, byte_offset: (0, 0) }
    }
}

/// A relationship of the graph as the analysis records it, before its ends
/// are numbered: the pair of tables it joins, the paths of its ends, and
/// the spans it covers.
#[derive(Debug, Clone)]
pub struct ConsolidatedRelationship {
    pub kind: RelationshipKind,
    pub source_id: Option<u32>,
    pub target_id: Option<u32>,
    pub relationship_type: RelationshipType,
    pub source_path: Option<String>,
    pub target_path: Option<String>,
    pub source_range: Range,
    pub target_range: Range,
    pub source_definition_range: Option<Range>,
    pub target_definition_range: Option<Range>,
}

/// The text of an optional string.
pub open spec fn opt_view(o: Option<String>) -> Option<Seq<char>> {
    match o {
        Some(s) => Some(s@),
        None => None,
    }
}

/// `r` is the relationship of kind `kind` from the node at `from` to the
/// node at `to`, with no numbers, no type and empty spans.
pub open spec fn is_path_relationship(r: ConsolidatedRelationship, kind: RelationshipKind, from: Seq<char>, to: Seq<char>) -> bool {
    &&& r.kind == kind
    &&& r.source_id is None
    &&& r.target_id is None
    &&& r.relationship_type == RelationshipType::Empty
    &&& opt_view(r.source_path) == Some(from)
    &&& opt_view(r.target_path) == Some(to)
    &&& r.source_range == Range::spec_empty()
    &&& r.target_range == Range::spec_empty()
    &&& r.source_definition_range is None
    &&& r.target_definition_range is None
}

impl Default for ConsolidatedRelationship {
    /// The relationship of no kind, with no ends.
    fn default() -> (r: Self)
        ensures
            r.kind == RelationshipKind::Empty,
            r.source_id is None,
            r.target_id is None,
            r.relationship_type == RelationshipType::Empty,
            r.source_path is None,
            r.target_path is None,
            r.source_range == Range::spec_empty(),
            r.target_range == Range::spec_empty(),
            r.source_definition_range is None,
            r.target_definition_range is None,
    {
        ConsolidatedRelationship {
            kind: RelationshipKind::Empty,
            source_id: None,
            target_id: None,
            relationship_type: RelationshipType::Empty,
            source_path: None,
            target_path: None,
            source_range: Range::empty(),
            target_range: Range::empty(),
            source_definition_range: None,
            target_definition_range: None,
        }
    }
}

/// A copy of an optional string.
fn duplicate_text(o: &Option<String>) -> (c: Option<String>)
    ensures
        c == *o,
{
    match o {
        Some(t) => Some(t.clone()),
        None => None,
    }
}

impl ConsolidatedRelationship {
    /// A copy of this relationship.
    pub fn duplicate(&self) -> (c: Self)
        ensures
            c == *self,
    {
        ConsolidatedRelationship {
            kind: self.kind,
            source_id: self.source_id,
            target_id: self.target_id,
            relationship_type: self.relationship_type,
            source_path: duplicate_text(&self.source_path),
            target_path: duplicate_text(&self.target_path),
            source_range: self.source_range,
            target_range: self.target_range,
            source_definition_range: self.source_definition_range,
            target_definition_range: self.target_definition_range,
        }
    }

    /// The relationship of kind `kind` from `from_path` to `to_path`.
    pub fn between(kind: RelationshipKind, from_path: String, to_path: String) -> (r: Self)
        ensures
            is_path_relationship(r, kind, from_path@, to_path@),
    {
        ConsolidatedRelationship {
            kind,
            source_id: None,
            target_id: None,
            relationship_type: RelationshipType::Empty,
            source_path: Some(from_path),
            target_path: Some(to_path),
            source_range: Range::empty(),
            target_range: Range::empty(),
            source_definition_range: None,
            target_definition_range: None,
        }
    }

    /// A directory containing a directory.
    pub fn dir_to_dir(from_path: String, to_path: String) -> (r: Self)
        ensures
            is_path_relationship(r, RelationshipKind::DirectoryToDirectory, from_path@, to_path@),
    {
        Self::between(RelationshipKind::DirectoryToDirectory, from_path, to_path)
    }

    /// A directory containing a file.
    pub fn dir_to_file(from_path: String, to_path: String) -> (r: Self)
        ensures
            is_path_relationship(r, RelationshipKind::DirectoryToFile, from_path@, to_path@),
    {
        Self::between(RelationshipKind::DirectoryToFile, from_path, to_path)
    }

    /// An imported symbol leading to another imported symbol.
    pub fn import_to_import(from_path: String, to_path: String) -> (r: Self)
        ensures
            is_path_relationship(r, RelationshipKind::ImportedSymbolToImportedSymbol, from_path@, to_path@),
    {
        Self::between(RelationshipKind::ImportedSymbolToImportedSymbol, from_path, to_path)
    }

    /// An imported symbol resolved to a definition.
    pub fn import_to_definition(from_path: String, to_path: String) -> (r: Self)
        ensures
            is_path_relationship(r, RelationshipKind::ImportedSymbolToDefinition, from_path@, to_path@),
    {
        Self::between(RelationshipKind::ImportedSymbolToDefinition, from_path, to_path)
    }

    /// An imported symbol resolved to a file.
    pub fn import_to_file(from_path: String, to_path: String) -> (r: Self)
        ensures
            is_path_relationship(r, RelationshipKind::ImportedSymbolToFile, from_path@, to_path@),
    {
        Self::between(RelationshipKind::ImportedSymbolToFile, from_path, to_path)
    }

    /// A definition related to another definition.
    pub fn definition_to_definition(from_path: String, to_path: String) -> (r: Self)
        ensures
            is_path_relationship(r, RelationshipKind::DefinitionToDefinition, from_path@, to_path@),
    {
        Self::between(RelationshipKind::DefinitionToDefinition, from_path, to_path)
    }

    /// A file defining a definition.
    pub fn file_to_definition(from_path: String, to_path: String) -> (r: Self)
        ensures
            is_path_relationship(r, RelationshipKind::FileToDefinition, from_path@, to_path@),
    {
        Self::between(RelationshipKind::FileToDefinition, from_path, to_path)
    }

    /// A file importing a symbol.
    pub fn file_to_imported_symbol(from_path: String, to_path: String) -> (r: Self)
        ensures
            is_path_relationship(r, RelationshipKind::FileToImportedSymbol, from_path@, to_path@),
    {
        Self::between(RelationshipKind::FileToImportedSymbol, from_path, to_path)
    }

    /// A definition that holds an imported symbol.
    pub fn definition_to_imported_symbol(from_path: String, to_path: String) -> (r: Self)
        ensures
            is_path_relationship(r, RelationshipKind::DefinitionToImportedSymbol, from_path@, to_path@),
    {
        Self::between(RelationshipKind::DefinitionToImportedSymbol, from_path, to_path)
    }
}

impl ConsolidatedRelationship {
    /// The number of an end, for the columns `source_id` and `target_id`.
    pub fn get_u32_field(&self, field_name: &str) -> (r: Option<u32>)
        ensures
            r == (if field_name@ == "source_id"@ {
                self.source_id
            } else if field_name@ == "target_id"@ {
                self.target_id
            } else {
                None::<u32>
            }),
    {
        if str_eq(field_name, "source_id") {
            self.source_id
        } else if str_eq(field_name, "target_id") {
            self.target_id
        } else {
            None
        }
    }

    /// The name of the type, for the column `type`, and the paths of the
    /// ends, for `source_path` and `target_path`.
    pub fn get_string_field(&self, field_name: &str) -> (r: Option<String>)
        ensures
            opt_view(r) == (if field_name@ == "type"@ {
                Some(relationship_name(self.relationship_type))
            } else if field_name@ == "source_path"@ {
                opt_view(self.source_path)
            } else if field_name@ == "target_path"@ {
                opt_view(self.target_path)
            } else {
                None::<Seq<char>>
            }),
    {
        if str_eq(field_name, "type") {
            Some(String::from_str(self.relationship_type.as_str()))
        } else if str_eq(field_name, "source_path") {
            duplicate_text(&self.source_path)
        } else if str_eq(field_name, "target_path") {
            duplicate_text(&self.target_path)
        } else {
            None
        }
    }

    /// The byte offsets of the source span, for the columns that hold them.
    pub fn get_i64_field(&self, field_name: &str) -> (r: Option<i64>)
        ensures
            r == (if field_name@ == "source_start_byte"@ {
                Some(self.source_range.byte_offset.0 as i64)
            } else if field_name@ == "source_end_byte"@ {
                Some(self.source_range.byte_offset.1 as i64)
            } else {
                None::<i64>
            }),
    {
        if str_eq(field_name, "source_start_byte") {
            Some(self.source_range.byte_offset.0 as i64)
        } else if str_eq(field_name, "source_end_byte") {
            Some(self.source_range.byte_offset.1 as i64)
        } else {
            None
        }
    }

    /// The lines and columns of the source span, for the columns that hold them.
    pub fn get_i32_field(&self, field_name: &str) -> (r: Option<i32>)
        ensures
            r == (if field_name@ == "source_start_line"@ {
                Some(self.source_range.start.line as i32)
            } else if field_name@ == "source_end_line"@ {
                Some(self.source_range.end.line as i32)
            } else if field_name@ == "source_start_col"@ {
                Some(self.source_range.start.column as i32)
            } else if field_name@ == "source_end_col"@ {
                Some(self.source_range.end.column as i32)
            } else {
                None::<i32>
            }),
    {
        if str_eq(field_name, "source_start_line") {
            Some(self.source_range.start.line as i32)
        } else if str_eq(field_name, "source_end_line") {
            Some(self.source_range.end.line as i32)
        } else if str_eq(field_name, "source_start_col") {
            Some(self.source_range.start.column as i32)
        } else if str_eq(field_name, "source_end_col") {
            Some(self.source_range.end.column as i32)
        } else {
            None
        }
    }
}

/// The relationship itself when it is of kind `kind`.
pub open spec fn of_kind(r: ConsolidatedRelationship, kind: RelationshipKind) -> Option<ConsolidatedRelationship> {
    if r.kind == kind {
        Some(r)
    } else {
        None
    }
}

/// The relationships of kind `kind`, in their order.
pub fn rels_by_kind(relationships: &Vec<ConsolidatedRelationship>, kind: RelationshipKind) -> (out: Vec<ConsolidatedRelationship>)
    ensures
        out@ == filter_map(relationships@, |r: ConsolidatedRelationship| of_kind(r, kind)),
{
    let mut out: Vec<ConsolidatedRelationship> = Vec::new();
    let mut i: usize = 0;
    while i < relationships.len()
        invariant
            i <= relationships@.len(),
            out@ == filter_map(relationships@.take(i as int), |r: ConsolidatedRelationship| of_kind(r, kind)),
        decreases relationships@.len() - i,
    {
        proof {
            lemma_filter_map_step(relationships@, |r: ConsolidatedRelationship| of_kind(r, kind), i as int);
        }
        if relationships[i].kind == kind {
            let r = relationships[i].duplicate();
            out.push(r);
        }
        i = i + 1;
    }
    assert(relationships@.take(relationships@.len() as int) =~= relationships@);
    out
}

} // verus!

verus! {

/// The column `id` of a node holds what `id_callback` gives for the node;
/// no other column is an identifier.
pub open spec fn id_column<N, F: FnOnce(&N) -> u32>(node: &N, field_name: Seq<char>, id_callback: F, r: Option<u32>) -> bool {
    &&& field_name == "id"@ ==> (r matches Some(v) && call_ensures(id_callback, (node,), v))
    &&& field_name != "id"@ ==> r is None
}

impl DirectoryNode {
    /// The text columns of a directory row.
    pub fn get_string_field(&self, field_name: &str) -> (r: Option<String>)
        ensures
            opt_view(r) == (if field_name@ == "path"@ {
                Some(self.path@)
            } else if field_name@ == "absolute_path"@ {
                Some(self.absolute_path@)
            } else if field_name@ == "repository_name"@ {
                Some(self.repository_name@)
            } else if field_name@ == "name"@ {
                Some(self.name@)
            } else {
                None::<Seq<char>>
            }),
    {
        if str_eq(field_name, "path") {
            Some(self.path.clone())
        } else if str_eq(field_name, "absolute_path") {
            Some(self.absolute_path.clone())
        } else if str_eq(field_name, "repository_name") {
            Some(self.repository_name.clone())
        } else if str_eq(field_name, "name") {
            Some(self.name.clone())
        } else {
            None
        }
    }

    /// A directory row has no 32-bit integer columns.
    pub fn get_i32_field(&self, field_name: &str) -> (r: Option<i32>)
        ensures
            r is None,
    {
        None
    }

    /// The identifier column of a directory row, from `id_callback`.
    pub fn get_id_field<F: FnOnce(&Self) -> u32>(&self, field_name: &str, id_callback: F) -> (r: Option<u32>)
        requires
            field_name@ == "id"@ ==> call_requires(id_callback, (self,)),
        ensures
            id_column(self, field_name@, id_callback, r),
    {
        if str_eq(field_name, "id") {
            Some(id_callback(self))
        } else {
            None
        }
    }
}

impl FileNode {
    /// The text columns of a file row.
    pub fn get_string_field(&self, field_name: &str) -> (r: Option<String>)
        ensures
            opt_view(r) == (if field_name@ == "path"@ {
                Some(self.path@)
            } else if field_name@ == "absolute_path"@ {
                Some(self.absolute_path@)
            } else if field_name@ == "language"@ {
                Some(self.language@)
            } else if field_name@ == "repository_name"@ {
                Some(self.repository_name@)
            } else if field_name@ == "extension"@ {
                Some(self.extension@)
            } else if field_name@ == "name"@ {
                Some(self.name@)
            } else {
                None::<Seq<char>>
            }),
    {
        if str_eq(field_name, "path") {
            Some(self.path.clone())
        } else if str_eq(field_name, "absolute_path") {
            Some(self.absolute_path.clone())
        } else if str_eq(field_name, "language") {
            Some(self.language.clone())
        } else if str_eq(field_name, "repository_name") {
            Some(self.repository_name.clone())
        } else if str_eq(field_name, "extension") {
            Some(self.extension.clone())
        } else if str_eq(field_name, "name") {
            Some(self.name.clone())
        } else {
            None
        }
    }

    /// The identifier column of a file row, from `id_callback`.
    pub fn get_id_field<F: FnOnce(&Self) -> u32>(&self, field_name: &str, id_callback: F) -> (r: Option<u32>)
        requires
            field_name@ == "id"@ ==> call_requires(id_callback, (self,)),
        ensures
            id_column(self, field_name@, id_callback, r),
    {
        if str_eq(field_name, "id") {
            Some(id_callback(self))
        } else {
            None
        }
    }
}

impl DefinitionNode {
    /// The text columns of a definition row.
    pub fn get_string_field(&self, field_name: &str) -> (r: Option<String>)
        ensures
            opt_view(r) == (if field_name@ == "fqn"@ {
                Some(self.fqn@)
            } else if field_name@ == "name"@ {
                Some(self.name@)
            } else if field_name@ == "definition_type"@ {
                Some(definition_type_name(self.definition_type))
            } else if field_name@ == "primary_file_path"@ {
                Some(self.location.file_path@)
            } else {
                None::<Seq<char>>
            }),
    {
        if str_eq(field_name, "fqn") {
            Some(self.fqn.clone())
        } else if str_eq(field_name, "name") {
            Some(self.name.clone())
        } else if str_eq(field_name, "definition_type") {
            Some(String::from_str(self.definition_type.as_str()))
        } else if str_eq(field_name, "primary_file_path") {
            Some(self.location.file_path.clone())
        } else {
            None
        }
    }

    /// The lines and columns of a definition row, by its span, and the
    /// number of its locations, which is one.
    pub fn get_i32_field(&self, field_name: &str) -> (r: Option<i32>)
        ensures
            r == (if field_name@ == "start_line"@ {
                Some(self.location.spec_range().start.line as i32)
            } else if field_name@ == "end_line"@ {
                Some(self.location.spec_range().end.line as i32)
            } else if field_name@ == "start_col"@ {
                Some(self.location.spec_range().start.column as i32)
            } else if field_name@ == "end_col"@ {
                Some(self.location.spec_range().end.column as i32)
            } else if field_name@ == "total_locations"@ {
                Some(1i32)
            } else {
                None::<i32>
            }),
    {
        let range = self.location.to_range();
        if str_eq(field_name, "start_line") {
            Some(range.start.line as i32)
        } else if str_eq(field_name, "end_line") {
            Some(range.end.line as i32)
        } else if str_eq(field_name, "start_col") {
            Some(range.start.column as i32)
        } else if str_eq(field_name, "end_col") {
            Some(range.end.column as i32)
        } else if str_eq(field_name, "total_locations") {
            Some(1)
        } else {
            None
        }
    }

    /// The byte offsets of a definition row, by its span.
    pub fn get_i64_field(&self, field_name: &str) -> (r: Option<i64>)
        ensures
            r == (if field_name@ == "primary_start_byte"@ {
                Some(self.location.spec_range().byte_offset.0 as i64)
            } else if field_name@ == "primary_end_byte"@ {
                Some(self.location.spec_range().byte_offset.1 as i64)
            } else {
                None::<i64>
            }),
    {
        let range = self.location.to_range();
        if str_eq(field_name, "primary_start_byte") {
            Some(range.byte_offset.0 as i64)
        } else if str_eq(field_name, "primary_end_byte") {
            Some(range.byte_offset.1 as i64)
        } else {
            None
        }
    }

    /// The identifier column of a definition row, from `id_callback`.
    pub fn get_id_field<F: FnOnce(&Self) -> u32>(&self, field_name: &str, id_callback: F) -> (r: Option<u32>)
        requires
            field_name@ == "id"@ ==> call_requires(id_callback, (self,)),
        ensures
            id_column(self, field_name@, id_callback, r),
    {
        if str_eq(field_name, "id") {
            Some(id_callback(self))
        } else {
            None
        }
    }
}

impl ImportedSymbolNode {
    /// A symbol of the given kind, path and identifier, imported at
    /// `location`.
    pub fn new(
        import_type: ImportType,
        import_path: String,
        identifier: Option<ImportIdentifier>,
        location: ImportedSymbolLocation,
    ) -> (n: Self)
        ensures
            n.import_type == import_type,
            n.import_path == import_path,
            n.identifier == identifier,
            n.location == location,
    {
        ImportedSymbolNode { import_type, import_path, identifier, location }
    }

    /// The text columns of an imported-symbol row: the kind of import, the
    /// import path, the name and alias of the identifier when there is one,
    /// and the file.
    pub fn get_string_field(&self, field_name: &str) -> (r: Option<String>)
        ensures
            opt_view(r) == (if field_name@ == "import_type"@ {
                Some(self.import_type.kind())
            } else if field_name@ == "import_path"@ {
                Some(self.import_path@)
            } else if field_name@ == "name"@ {
                match self.identifier { Some(i) => Some(i.name@), None => None::<Seq<char>> }
            } else if field_name@ == "alias"@ {
                match self.identifier { Some(i) => opt_view(i.alias), None => None::<Seq<char>> }
            } else if field_name@ == "file_path"@ {
                Some(self.location.file_path@)
            } else {
                None::<Seq<char>>
            }),
    {
        if str_eq(field_name, "import_type") {
            Some(String::from_str(self.import_type.as_str()))
        } else if str_eq(field_name, "import_path") {
            Some(self.import_path.clone())
        } else if str_eq(field_name, "name") {
            match &self.identifier {
                Some(i) => Some(i.name.clone()),
                None => None,
            }
        } else if str_eq(field_name, "alias") {
            match &self.identifier {
                Some(i) => duplicate_text(&i.alias),
                None => None,
            }
        } else if str_eq(field_name, "file_path") {
            Some(self.location.file_path.clone())
        } else {
            None
        }
    }

    /// The lines and columns of an imported-symbol row.
    pub fn get_i32_field(&self, field_name: &str) -> (r: Option<i32>)
        ensures
            r == (if field_name@ == "start_line"@ {
                Some(self.location.start_line)
            } else if field_name@ == "end_line"@ {
                Some(self.location.end_line)
            } else if field_name@ == "start_col"@ {
                Some(self.location.start_col)
            } else if field_name@ == "end_col"@ {
                Some(self.location.end_col)
            } else {
                None::<i32>
            }),
    {
        if str_eq(field_name, "start_line") {
            Some(self.location.start_line)
        } else if str_eq(field_name, "end_line") {
            Some(self.location.end_line)
        } else if str_eq(field_name, "start_col") {
            Some(self.location.start_col)
        } else if str_eq(field_name, "end_col") {
            Some(self.location.end_col)
        } else {
            None
        }
    }

    /// The byte offsets of an imported-symbol row.
    pub fn get_i64_field(&self, field_name: &str) -> (r: Option<i64>)
        ensures
            r == (if field_name@ == "start_byte"@ {
                Some(self.location.start_byte)
            } else if field_name@ == "end_byte"@ {
                Some(self.location.end_byte)
            } else {
                None::<i64>
            }),
    {
        if str_eq(field_name, "start_byte") {
            Some(self.location.start_byte)
        } else if str_eq(field_name, "end_byte") {
            Some(self.location.end_byte)
        } else {
            None
        }
    }

    /// The identifier column of an imported-symbol row, from `id_callback`.
    pub fn get_id_field<F: FnOnce(&Self) -> u32>(&self, field_name: &str, id_callback: F) -> (r: Option<u32>)
        requires
            field_name@ == "id"@ ==> call_requires(id_callback, (self,)),
        ensures
            id_column(self, field_name@, id_callback, r),
    {
        if str_eq(field_name, "id") {
            Some(id_callback(self))
        } else {
            None
        }
    }
}

} // verus!
