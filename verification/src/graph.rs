//! The relationship types of the code graph and their numeric encoding
//! in the stored relationship tables.

use vstd::prelude::*;

verus! {

/// The kinds of edges in the code graph.
#[derive(Debug, Clone, Copy, PartialEq, Eq, Structural)]
pub enum RelationshipType {
    DirContainsDir,
    DirContainsFile,
    FileDefines,
    FileImports,
    DefinesImportedSymbol,
    Calls,
    AmbiguouslyCalls,
    PropertyReference,
    ModuleToModule,
    ModuleToClass,
    ModuleToMethod,
    ModuleToSingletonMethod,
    ClassToClass,
    ClassToInterface,
    ClassToMethod,
    ClassToSingletonMethod,
    ClassToProperty,
    ClassToConstructor,
    ClassToLambda,
    ClassToProc,
    ClassToEnumEntry,
    InterfaceToInterface,
    InterfaceToClass,
    InterfaceToMethod,
    InterfaceToProperty,
    InterfaceToLambda,
    InterfaceToFunction,
    MethodToMethod,
    MethodToClass,
    MethodToInterface,
    MethodToFunction,
    MethodToProperty,
    MethodToLambda,
    FunctionToFunction,
    FunctionToClass,
    FunctionToLambda,
    LambdaToLambda,
    LambdaToClass,
    LambdaToMethod,
    LambdaToFunction,
    LambdaToProperty,
    LambdaToInterface,
    Empty,
}

/// The name under which a relationship type is stored and reported.
pub open spec fn relationship_name(t: RelationshipType) -> Seq<char> {
    let s: &str = match t {
        RelationshipType::DirContainsDir => "DIR_CONTAINS_DIR",
        RelationshipType::DirContainsFile => "DIR_CONTAINS_FILE",
        RelationshipType::FileDefines => "FILE_DEFINES",
        RelationshipType::FileImports => "FILE_IMPORTS",
        RelationshipType::DefinesImportedSymbol => "DEFINES_IMPORTED_SYMBOL",
        RelationshipType::Calls => "CALLS",
        RelationshipType::AmbiguouslyCalls => "AMBIGUOUSLY_CALLS",
        RelationshipType::PropertyReference => "PROPERTY_REFERENCE",
        RelationshipType::ModuleToModule => "MODULE_TO_MODULE",
        RelationshipType::ModuleToClass => "MODULE_TO_CLASS",
        RelationshipType::ModuleToMethod => "MODULE_TO_METHOD",
        RelationshipType::ModuleToSingletonMethod => "MODULE_TO_SINGLETON_METHOD",
        RelationshipType::ClassToClass => "CLASS_TO_CLASS",
        RelationshipType::ClassToInterface => "CLASS_TO_INTERFACE",
        RelationshipType::ClassToMethod => "CLASS_TO_METHOD",
        RelationshipType::ClassToSingletonMethod => "CLASS_TO_SINGLETON_METHOD",
        RelationshipType::ClassToProperty => "CLASS_TO_PROPERTY",
        RelationshipType::ClassToConstructor => "CLASS_TO_CONSTRUCTOR",
        RelationshipType::ClassToLambda => "CLASS_TO_LAMBDA",
        RelationshipType::ClassToProc => "CLASS_TO_PROC",
        RelationshipType::ClassToEnumEntry => "CLASS_TO_ENUM_ENTRY",
        RelationshipType::InterfaceToInterface => "INTERFACE_TO_INTERFACE",
        RelationshipType::InterfaceToClass => "INTERFACE_TO_CLASS",
        RelationshipType::InterfaceToMethod => "INTERFACE_TO_METHOD",
        RelationshipType::InterfaceToProperty => "INTERFACE_TO_PROPERTY",
        RelationshipType::InterfaceToLambda => "INTERFACE_TO_LAMBDA",
        RelationshipType::InterfaceToFunction => "INTERFACE_TO_FUNCTION",
        RelationshipType::MethodToMethod => "METHOD_TO_METHOD",
        RelationshipType::MethodToClass => "METHOD_TO_CLASS",
        RelationshipType::MethodToInterface => "METHOD_TO_INTERFACE",
        RelationshipType::MethodToFunction => "METHOD_TO_FUNCTION",
        RelationshipType::MethodToProperty => "METHOD_TO_PROPERTY",
        RelationshipType::MethodToLambda => "METHOD_TO_LAMBDA",
        RelationshipType::FunctionToFunction => "FUNCTION_TO_FUNCTION",
        RelationshipType::FunctionToClass => "FUNCTION_TO_CLASS",
        RelationshipType::FunctionToLambda => "FUNCTION_TO_LAMBDA",
        RelationshipType::LambdaToLambda => "LAMBDA_TO_LAMBDA",
        RelationshipType::LambdaToClass => "LAMBDA_TO_CLASS",
        RelationshipType::LambdaToMethod => "LAMBDA_TO_METHOD",
        RelationshipType::LambdaToFunction => "LAMBDA_TO_FUNCTION",
        RelationshipType::LambdaToProperty => "LAMBDA_TO_PROPERTY",
        RelationshipType::LambdaToInterface => "LAMBDA_TO_INTERFACE",
        RelationshipType::Empty => "EMPTY",
    };
    s@
}

/// The numeric code of a relationship type in the relationship tables:
/// its position in the list of types.
pub open spec fn relationship_code(t: RelationshipType) -> u8 {
    match t {
        RelationshipType::DirContainsDir => 0u8,
        RelationshipType::DirContainsFile => 1u8,
        RelationshipType::FileDefines => 2u8,
        RelationshipType::FileImports => 3u8,
        RelationshipType::DefinesImportedSymbol => 4u8,
        RelationshipType::Calls => 5u8,
        RelationshipType::AmbiguouslyCalls => 6u8,
        RelationshipType::PropertyReference => 7u8,
        RelationshipType::ModuleToModule => 8u8,
        RelationshipType::ModuleToClass => 9u8,
        RelationshipType::ModuleToMethod => 10u8,
        RelationshipType::ModuleToSingletonMethod => 11u8,
        RelationshipType::ClassToClass => 12u8,
        RelationshipType::ClassToInterface => 13u8,
        RelationshipType::ClassToMethod => 14u8,
        RelationshipType::ClassToSingletonMethod => 15u8,
        RelationshipType::ClassToProperty => 16u8,
        RelationshipType::ClassToConstructor => 17u8,
        RelationshipType::ClassToLambda => 18u8,
        RelationshipType::ClassToProc => 19u8,
        RelationshipType::ClassToEnumEntry => 20u8,
        RelationshipType::InterfaceToInterface => 21u8,
        RelationshipType::InterfaceToClass => 22u8,
        RelationshipType::InterfaceToMethod => 23u8,
        RelationshipType::InterfaceToProperty => 24u8,
        RelationshipType::InterfaceToLambda => 25u8,
        RelationshipType::InterfaceToFunction => 26u8,
        RelationshipType::MethodToMethod => 27u8,
        RelationshipType::MethodToClass => 28u8,
        RelationshipType::MethodToInterface => 29u8,
        RelationshipType::MethodToFunction => 30u8,
        RelationshipType::MethodToProperty => 31u8,
        RelationshipType::MethodToLambda => 32u8,
        RelationshipType::FunctionToFunction => 33u8,
        RelationshipType::FunctionToClass => 34u8,
        RelationshipType::FunctionToLambda => 35u8,
        RelationshipType::LambdaToLambda => 36u8,
        RelationshipType::LambdaToClass => 37u8,
        RelationshipType::LambdaToMethod => 38u8,
        RelationshipType::LambdaToFunction => 39u8,
        RelationshipType::LambdaToProperty => 40u8,
        RelationshipType::LambdaToInterface => 41u8,
        RelationshipType::Empty => 42u8,
    }
}

impl RelationshipType {
    /// The stored name of this relationship type.
    pub fn as_str(&self) -> (s: &'static str)
        ensures
            s@ == relationship_name(*self),
    {
        match self {
            RelationshipType::DirContainsDir => {
                proof { reveal_strlit("DIR_CONTAINS_DIR"); }
                "DIR_CONTAINS_DIR"
            },
            RelationshipType::DirContainsFile => {
                proof { reveal_strlit("DIR_CONTAINS_FILE"); }
                "DIR_CONTAINS_FILE"
            },
            RelationshipType::FileDefines => {
                proof { reveal_strlit("FILE_DEFINES"); }
                "FILE_DEFINES"
            },
            RelationshipType::FileImports => {
                proof { reveal_strlit("FILE_IMPORTS"); }
                "FILE_IMPORTS"
            },
            RelationshipType::DefinesImportedSymbol => {
                proof { reveal_strlit("DEFINES_IMPORTED_SYMBOL"); }
                "DEFINES_IMPORTED_SYMBOL"
            },
            RelationshipType::Calls => {
                proof { reveal_strlit("CALLS"); }
                "CALLS"
            },
            RelationshipType::AmbiguouslyCalls => {
                proof { reveal_strlit("AMBIGUOUSLY_CALLS"); }
                "AMBIGUOUSLY_CALLS"
            },
            RelationshipType::PropertyReference => {
                proof { reveal_strlit("PROPERTY_REFERENCE"); }
                "PROPERTY_REFERENCE"
            },
            RelationshipType::ModuleToModule => {
                proof { reveal_strlit("MODULE_TO_MODULE"); }
                "MODULE_TO_MODULE"
            },
            RelationshipType::ModuleToClass => {
                proof { reveal_strlit("MODULE_TO_CLASS"); }
                "MODULE_TO_CLASS"
            },
            RelationshipType::ModuleToMethod => {
                proof { reveal_strlit("MODULE_TO_METHOD"); }
                "MODULE_TO_METHOD"
            },
            RelationshipType::ModuleToSingletonMethod => {
                proof { reveal_strlit("MODULE_TO_SINGLETON_METHOD"); }
                "MODULE_TO_SINGLETON_METHOD"
            },
            RelationshipType::ClassToClass => {
                proof { reveal_strlit("CLASS_TO_CLASS"); }
                "CLASS_TO_CLASS"
            },
            RelationshipType::ClassToInterface => {
                proof { reveal_strlit("CLASS_TO_INTERFACE"); }
                "CLASS_TO_INTERFACE"
            },
            RelationshipType::ClassToMethod => {
                proof { reveal_strlit("CLASS_TO_METHOD"); }
                "CLASS_TO_METHOD"
            },
            RelationshipType::ClassToSingletonMethod => {
                proof { reveal_strlit("CLASS_TO_SINGLETON_METHOD"); }
                "CLASS_TO_SINGLETON_METHOD"
            },
            RelationshipType::ClassToProperty => {
                proof { reveal_strlit("CLASS_TO_PROPERTY"); }
                "CLASS_TO_PROPERTY"
            },
            RelationshipType::ClassToConstructor => {
                proof { reveal_strlit("CLASS_TO_CONSTRUCTOR"); }
                "CLASS_TO_CONSTRUCTOR"
            },
            RelationshipType::ClassToLambda => {
                proof { reveal_strlit("CLASS_TO_LAMBDA"); }
                "CLASS_TO_LAMBDA"
            },
            RelationshipType::ClassToProc => {
                proof { reveal_strlit("CLASS_TO_PROC"); }
                "CLASS_TO_PROC"
            },
            RelationshipType::ClassToEnumEntry => {
                proof { reveal_strlit("CLASS_TO_ENUM_ENTRY"); }
                "CLASS_TO_ENUM_ENTRY"
            },
            RelationshipType::InterfaceToInterface => {
                proof { reveal_strlit("INTERFACE_TO_INTERFACE"); }
                "INTERFACE_TO_INTERFACE"
            },
            RelationshipType::InterfaceToClass => {
                proof { reveal_strlit("INTERFACE_TO_CLASS"); }
                "INTERFACE_TO_CLASS"
            },
            RelationshipType::InterfaceToMethod => {
                proof { reveal_strlit("INTERFACE_TO_METHOD"); }
                "INTERFACE_TO_METHOD"
            },
            RelationshipType::InterfaceToProperty => {
                proof { reveal_strlit("INTERFACE_TO_PROPERTY"); }
                "INTERFACE_TO_PROPERTY"
            },
            RelationshipType::InterfaceToLambda => {
                proof { reveal_strlit("INTERFACE_TO_LAMBDA"); }
                "INTERFACE_TO_LAMBDA"
            },
            RelationshipType::InterfaceToFunction => {
                proof { reveal_strlit("INTERFACE_TO_FUNCTION"); }
                "INTERFACE_TO_FUNCTION"
            },
            RelationshipType::MethodToMethod => {
                proof { reveal_strlit("METHOD_TO_METHOD"); }
                "METHOD_TO_METHOD"
            },
            RelationshipType::MethodToClass => {
                proof { reveal_strlit("METHOD_TO_CLASS"); }
                "METHOD_TO_CLASS"
            },
            RelationshipType::MethodToInterface => {
                proof { reveal_strlit("METHOD_TO_INTERFACE"); }
                "METHOD_TO_INTERFACE"
            },
            RelationshipType::MethodToFunction => {
                proof { reveal_strlit("METHOD_TO_FUNCTION"); }
                "METHOD_TO_FUNCTION"
            },
            RelationshipType::MethodToProperty => {
                proof { reveal_strlit("METHOD_TO_PROPERTY"); }
                "METHOD_TO_PROPERTY"
            },
            RelationshipType::MethodToLambda => {
                proof { reveal_strlit("METHOD_TO_LAMBDA"); }
                "METHOD_TO_LAMBDA"
            },
            RelationshipType::FunctionToFunction => {
                proof { reveal_strlit("FUNCTION_TO_FUNCTION"); }
                "FUNCTION_TO_FUNCTION"
            },
            RelationshipType::FunctionToClass => {
                proof { reveal_strlit("FUNCTION_TO_CLASS"); }
                "FUNCTION_TO_CLASS"
            },
            RelationshipType::FunctionToLambda => {
                proof { reveal_strlit("FUNCTION_TO_LAMBDA"); }
                "FUNCTION_TO_LAMBDA"
            },
            RelationshipType::LambdaToLambda => {
                proof { reveal_strlit("LAMBDA_TO_LAMBDA"); }
                "LAMBDA_TO_LAMBDA"
            },
            RelationshipType::LambdaToClass => {
                proof { reveal_strlit("LAMBDA_TO_CLASS"); }
                "LAMBDA_TO_CLASS"
            },
            RelationshipType::LambdaToMethod => {
                proof { reveal_strlit("LAMBDA_TO_METHOD"); }
                "LAMBDA_TO_METHOD"
            },
            RelationshipType::LambdaToFunction => {
                proof { reveal_strlit("LAMBDA_TO_FUNCTION"); }
                "LAMBDA_TO_FUNCTION"
            },
            RelationshipType::LambdaToProperty => {
                proof { reveal_strlit("LAMBDA_TO_PROPERTY"); }
                "LAMBDA_TO_PROPERTY"
            },
            RelationshipType::LambdaToInterface => {
                proof { reveal_strlit("LAMBDA_TO_INTERFACE"); }
                "LAMBDA_TO_INTERFACE"
            },
            RelationshipType::Empty => {
                proof { reveal_strlit("EMPTY"); }
                "EMPTY"
            },
        }
    }
}

/// Assigns numeric codes to relationship types for the relationship tables.
pub struct RelationshipTypeMapping;

impl RelationshipTypeMapping {
    pub fn new() -> (m: Self) {
        RelationshipTypeMapping
    }

    /// The numeric code of `t`.
    pub fn get_type_id(&self, t: RelationshipType) -> (id: u8)
        ensures
            id == relationship_code(t),
    {
        match t {
            RelationshipType::DirContainsDir => 0,
            RelationshipType::DirContainsFile => 1,
            RelationshipType::FileDefines => 2,
            RelationshipType::FileImports => 3,
            RelationshipType::DefinesImportedSymbol => 4,
            RelationshipType::Calls => 5,
            RelationshipType::AmbiguouslyCalls => 6,
            RelationshipType::PropertyReference => 7,
            RelationshipType::ModuleToModule => 8,
            RelationshipType::ModuleToClass => 9,
            RelationshipType::ModuleToMethod => 10,
            RelationshipType::ModuleToSingletonMethod => 11,
            RelationshipType::ClassToClass => 12,
            RelationshipType::ClassToInterface => 13,
            RelationshipType::ClassToMethod => 14,
            RelationshipType::ClassToSingletonMethod => 15,
            RelationshipType::ClassToProperty => 16,
            RelationshipType::ClassToConstructor => 17,
            RelationshipType::ClassToLambda => 18,
            RelationshipType::ClassToProc => 19,
            RelationshipType::ClassToEnumEntry => 20,
            RelationshipType::InterfaceToInterface => 21,
            RelationshipType::InterfaceToClass => 22,
            RelationshipType::InterfaceToMethod => 23,
            RelationshipType::InterfaceToProperty => 24,
            RelationshipType::InterfaceToLambda => 25,
            RelationshipType::InterfaceToFunction => 26,
            RelationshipType::MethodToMethod => 27,
            RelationshipType::MethodToClass => 28,
            RelationshipType::MethodToInterface => 29,
            RelationshipType::MethodToFunction => 30,
            RelationshipType::MethodToProperty => 31,
            RelationshipType::MethodToLambda => 32,
            RelationshipType::FunctionToFunction => 33,
            RelationshipType::FunctionToClass => 34,
            RelationshipType::FunctionToLambda => 35,
            RelationshipType::LambdaToLambda => 36,
            RelationshipType::LambdaToClass => 37,
            RelationshipType::LambdaToMethod => 38,
            RelationshipType::LambdaToFunction => 39,
            RelationshipType::LambdaToProperty => 40,
            RelationshipType::LambdaToInterface => 41,
            RelationshipType::Empty => 42,
        }
    }
}

/// Different relationship types have different codes.
pub proof fn lemma_relationship_code_injective(a: RelationshipType, b: RelationshipType)
    requires
        relationship_code(a) == relationship_code(b),
    ensures
        a == b,
{
}

} // verus!

verus! {

/// The pair of node tables a stored relationship joins.
#[derive(Debug, Clone, Copy, PartialEq, Eq, Structural)]
pub enum RelationshipKind {
    DirectoryToDirectory,
    DirectoryToFile,
    FileToDefinition,
    FileToImportedSymbol,
    DefinitionToDefinition,
    DefinitionToImportedSymbol,
    ImportedSymbolToImportedSymbol,
    ImportedSymbolToDefinition,
    ImportedSymbolToFile,
    Empty,
}

/// The name of a kind of relationship.
pub open spec fn relationship_kind_name(k: RelationshipKind) -> Seq<char> {
    match k {
        RelationshipKind::DirectoryToDirectory => "DIR_CONTAINS_DIR"@,
        RelationshipKind::DirectoryToFile => "DIR_CONTAINS_FILE"@,
        RelationshipKind::FileToDefinition => "FILE_DEFINES"@,
        RelationshipKind::FileToImportedSymbol => "FILE_IMPORTS"@,
        RelationshipKind::DefinitionToDefinition => "DEFINES_DEFINITION"@,
        RelationshipKind::DefinitionToImportedSymbol => "DEFINES_IMPORTED_SYMBOL"@,
        RelationshipKind::ImportedSymbolToImportedSymbol => "IMPORTED_SYMBOL_TO_IMPORTED_SYMBOL"@,
        RelationshipKind::ImportedSymbolToDefinition => "IMPORTED_SYMBOL_TO_DEFINITION"@,
        RelationshipKind::ImportedSymbolToFile => "IMPORTED_SYMBOL_TO_FILE"@,
        RelationshipKind::Empty => "EMPTY"@,
    }
}

/// Distinct kinds have distinct names, so a name tells its kind.
pub proof fn lemma_relationship_kind_names_distinct(k1: RelationshipKind, k2: RelationshipKind)
    ensures
        k1 != k2 ==> relationship_kind_name(k1) != relationship_kind_name(k2),
{
    reveal_strlit("DIR_CONTAINS_DIR");
    reveal_strlit("DIR_CONTAINS_FILE");
    reveal_strlit("FILE_DEFINES");
    reveal_strlit("FILE_IMPORTS");
    reveal_strlit("DEFINES_DEFINITION");
    reveal_strlit("DEFINES_IMPORTED_SYMBOL");
    reveal_strlit("IMPORTED_SYMBOL_TO_IMPORTED_SYMBOL");
    reveal_strlit("IMPORTED_SYMBOL_TO_DEFINITION");
    reveal_strlit("IMPORTED_SYMBOL_TO_FILE");
    reveal_strlit("EMPTY");
    let n1 = relationship_kind_name(k1);
    let n2 = relationship_kind_name(k2);
    if k1 != k2 && n1 == n2 {
        assert(n1.len() == n2.len());
        assert(n1[0] == n2[0]);
        if n1.len() > 5 {
            assert(n1[5] == n2[5]);
        }
    }
}

impl Default for RelationshipKind {
    fn default() -> (k: Self)
        ensures
            k == RelationshipKind::Empty,
    {
        RelationshipKind::Empty
    }
}

impl RelationshipKind {
    /// The name of the kind.
    pub fn as_str(&self) -> (s: &'static str)
        ensures
            s@ == relationship_kind_name(*self),
    {
        match self {
            RelationshipKind::DirectoryToDirectory => "DIR_CONTAINS_DIR",
            RelationshipKind::DirectoryToFile => "DIR_CONTAINS_FILE",
            RelationshipKind::FileToDefinition => "FILE_DEFINES",
            RelationshipKind::FileToImportedSymbol => "FILE_IMPORTS",
            RelationshipKind::DefinitionToDefinition => "DEFINES_DEFINITION",
            RelationshipKind::DefinitionToImportedSymbol => "DEFINES_IMPORTED_SYMBOL",
            RelationshipKind::ImportedSymbolToImportedSymbol => "IMPORTED_SYMBOL_TO_IMPORTED_SYMBOL",
            RelationshipKind::ImportedSymbolToDefinition => "IMPORTED_SYMBOL_TO_DEFINITION",
            RelationshipKind::ImportedSymbolToFile => "IMPORTED_SYMBOL_TO_FILE",
            RelationshipKind::Empty => "EMPTY",
        }
    }
}

} // verus!
