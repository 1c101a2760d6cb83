//! The per-language rules that relate definitions: how a fully qualified
//! name is written, what its parent is called, and which pairs of kinds of
//! definition become graph relationships.

pub mod csharp;
pub mod definitions;
pub mod java;
pub mod kotlin;
pub mod kotlin_references;
pub mod python;
pub mod python_imports;
pub mod python_references;
pub mod ruby;
pub mod rust;
pub mod typescript;

use vstd::prelude::*;
use crate::analysis::definition_map::{join_prefix, joined_prefix};
use crate::analysis::types::{DefinitionType, FqnPart, FqnType};
use crate::graph::RelationshipType;
use crate::analysis::languages::csharp::{csharp_relationship, csharp_relationship_type};
use crate::analysis::languages::java::{java_relationship, java_relationship_type};
use crate::analysis::languages::kotlin::{kotlin_relationship, kotlin_relationship_type};
use crate::analysis::languages::python::{python_relationship, python_relationship_type};
use crate::analysis::languages::ruby::{ruby_relationship, ruby_relationship_type};
use crate::analysis::languages::rust::{rust_relationship, rust_relationship_type};
use crate::analysis::languages::typescript::{typescript_relationship, typescript_relationship_type};

verus! {

/// The language whose rules apply.
#[derive(Debug, Clone, Copy, PartialEq, Eq, Structural)]
pub enum DefinitionRules {
    Ruby,
    Python,
    Kotlin,
    Java,
    CSharp,
    TypeScript,
    Rust,
}

/// The separator between the parts of a fully qualified name.
pub open spec fn rule_separator(rules: DefinitionRules) -> Seq<char> {
    match rules {
        DefinitionRules::Ruby => "::"@,
        DefinitionRules::TypeScript => "::"@,
        DefinitionRules::Rust => "::"@,
        _ => "."@,
    }
}

/// Whether the dots inside a part are written as `#` (Python, where a part
/// may itself be a dotted module name).
pub open spec fn rule_hashes(rules: DefinitionRules) -> bool {
    rules == DefinitionRules::Python
}

/// The parts of `fqn` when it is a name of the rules' language.
pub open spec fn rule_parts(rules: DefinitionRules, fqn: FqnType) -> Option<Seq<FqnPart>> {
    match (rules, fqn) {
        (DefinitionRules::Ruby, FqnType::Ruby(p)) => Some(p@),
        (DefinitionRules::Python, FqnType::Python(p)) => Some(p@),
        (DefinitionRules::Kotlin, FqnType::Kotlin(p)) => Some(p@),
        (DefinitionRules::Java, FqnType::Java(p)) => Some(p@),
        (DefinitionRules::CSharp, FqnType::CSharp(p)) => Some(p@),
        (DefinitionRules::TypeScript, FqnType::TypeScript(p)) => Some(p@),
        (DefinitionRules::Rust, FqnType::Rust(p)) => Some(p@),
        _ => None,
    }
}

/// A fully qualified name as text: its part names joined by the separator.
pub open spec fn fqn_text(rules: DefinitionRules, parts: Seq<FqnPart>) -> Seq<char> {
    joined_prefix(parts, parts.len() as int, rule_separator(rules), rule_hashes(rules))
}

/// The name of the parent: every part but the last, joined; none for a
/// name of one part.
pub open spec fn parent_text(rules: DefinitionRules, parts: Seq<FqnPart>) -> Option<Seq<char>> {
    if parts.len() <= 1 {
        None
    } else {
        Some(joined_prefix(parts, parts.len() - 1, rule_separator(rules), rule_hashes(rules)))
    }
}

/// The name of the parent of `fqn` under the rules; Rust names their
/// parents by a search of their own (see `rust`), so here they have none.
pub open spec fn rule_parent_fqn(rules: DefinitionRules, fqn: FqnType) -> Option<Seq<char>> {
    if rules == DefinitionRules::Rust {
        None
    } else {
        match rule_parts(rules, fqn) {
            Some(parts) => parent_text(rules, parts),
            None => None,
        }
    }
}

/// The relationship the rules draw from a parent of kind `parent` to a
/// child of kind `child`.
pub open spec fn rule_relationship(rules: DefinitionRules, parent: DefinitionType, child: DefinitionType) -> Option<RelationshipType> {
    match rules {
        DefinitionRules::Ruby => ruby_relationship(parent, child),
        DefinitionRules::Python => python_relationship(parent, child),
        DefinitionRules::Kotlin => kotlin_relationship(parent, child),
        DefinitionRules::Java => java_relationship(parent, child),
        DefinitionRules::CSharp => csharp_relationship(parent, child),
        DefinitionRules::TypeScript => typescript_relationship(parent, child),
        DefinitionRules::Rust => rust_relationship(parent, child),
    }
}

/// The separator of the rules' names.
pub fn separator(rules: DefinitionRules) -> (s: &'static str)
    ensures
        s@ == rule_separator(rules),
{
    match rules {
        DefinitionRules::Ruby => "::",
        DefinitionRules::TypeScript => "::",
        DefinitionRules::Rust => "::",
        _ => ".",
    }
}

/// The parts of `fqn` when it is a name of the rules' language.
pub fn fqn_parts(rules: DefinitionRules, fqn: &FqnType) -> (r: Option<&Vec<FqnPart>>)
    ensures
        match r {
            Some(p) => rule_parts(rules, *fqn) == Some(p@),
            None => rule_parts(rules, *fqn) is None,
        },
{
    match rules {
        DefinitionRules::Ruby => match fqn {
            FqnType::Ruby(p) => Some(p),
            _ => None,
        },
        DefinitionRules::Python => match fqn {
            FqnType::Python(p) => Some(p),
            _ => None,
        },
        DefinitionRules::Kotlin => match fqn {
            FqnType::Kotlin(p) => Some(p),
            _ => None,
        },
        DefinitionRules::Java => match fqn {
            FqnType::Java(p) => Some(p),
            _ => None,
        },
        DefinitionRules::CSharp => match fqn {
            FqnType::CSharp(p) => Some(p),
            _ => None,
        },
        DefinitionRules::TypeScript => match fqn {
            FqnType::TypeScript(p) => Some(p),
            _ => None,
        },
        DefinitionRules::Rust => match fqn {
            FqnType::Rust(p) => Some(p),
            _ => None,
        },
    }
}

/// A fully qualified name written out as text.
pub fn fqn_to_string(rules: DefinitionRules, parts: &Vec<FqnPart>) -> (s: String)
    ensures
        s@ == fqn_text(rules, parts@),
{
    join_prefix(parts, parts.len(), separator(rules), rules == DefinitionRules::Python)
}

/// The name of the parent of `fqn` under the rules.
pub fn parent_fqn_string(rules: DefinitionRules, fqn: &FqnType) -> (r: Option<String>)
    ensures
        match r {
            Some(s) => rule_parent_fqn(rules, *fqn) == Some(s@),
            None => rule_parent_fqn(rules, *fqn) is None,
        },
{
    if rules == DefinitionRules::Rust {
        return None;
    }
    match fqn_parts(rules, fqn) {
        Some(parts) => {
            if parts.len() <= 1 {
                None
            } else {
                Some(join_prefix(parts, parts.len() - 1, separator(rules), rules == DefinitionRules::Python))
            }
        },
        None => None,
    }
}

/// The relationship the rules draw from a parent to a child.
pub fn relationship_type_for(rules: DefinitionRules, parent: &DefinitionType, child: &DefinitionType) -> (r: Option<RelationshipType>)
    ensures
        r == rule_relationship(rules, *parent, *child),
{
    match rules {
        DefinitionRules::Ruby => ruby_relationship_type(parent, child),
        DefinitionRules::Python => python_relationship_type(parent, child),
        DefinitionRules::Kotlin => kotlin_relationship_type(parent, child),
        DefinitionRules::Java => java_relationship_type(parent, child),
        DefinitionRules::CSharp => csharp_relationship_type(parent, child),
        DefinitionRules::TypeScript => typescript_relationship_type(parent, child),
        DefinitionRules::Rust => rust_relationship_type(parent, child),
    }
}

} // verus!
