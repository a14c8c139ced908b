//! The C# front end: normalizes trees of the C# grammar onto the UIR.

use vstd::prelude::*;
use crate::cst::{first_child_of_kind, first_child_of_kinds, ts_parse_csharp, csharp_cst, CstNode};
use crate::errors::CoalesceError;
use crate::normalize::cst_to_uir;
use crate::strutil::{replace_char, replaced, str_eq};
use crate::uir::{Language, UIRNode};

verus! {

/// The name the C# front end gives a node of the given kind.
pub open spec fn spec_csharp_name(c: CstNode) -> Option<Seq<char>> {
    let k = c.kind@;
    if k == "compilation_unit"@ {
        Some("csharp_program"@)
    } else if k == "method_declaration"@ || k == "class_declaration"@ || k
        == "interface_declaration"@ || k == "struct_declaration"@ || k == "enum_declaration"@ || k
        == "parameter"@ {
        match first_child_of_kind(c.children@, "identifier"@) {
            Some(ch) => Some(ch.text@),
            None => None,
        }
    } else if k == "constructor_declaration"@ {
        match first_child_of_kind(c.children@, "identifier"@) {
            Some(ch) => Some("ctor_"@ + ch.text@),
            None => Some("constructor"@),
        }
    } else if k == "identifier"@ {
        Some(c.text@)
    } else if k == "namespace_declaration"@ {
        match first_child_of_kinds(c.children@, "qualified_name"@, "identifier"@) {
            Some(ch) => Some("namespace_"@ + ch.text@),
            None => Some("global_namespace"@),
        }
    } else if k == "using_directive"@ {
        match first_child_of_kinds(c.children@, "qualified_name"@, "identifier"@) {
            Some(ch) => Some("using_"@ + replaced(ch.text@, '.', '_')),
            None => Some("unknown_using"@),
        }
    } else {
        None
    }
}

/// Extracts the name the C# front end gives a node.
pub fn csharp_name(c: &CstNode) -> (r: Option<String>)
    ensures
        r.deep_view() == spec_csharp_name(*c),
{
    let k = c.kind.as_str();
    if str_eq(k, "compilation_unit") {
        Some(String::from_str("csharp_program"))
    } else if str_eq(k, "method_declaration") || str_eq(k, "class_declaration") || str_eq(
        k,
        "interface_declaration",
    ) || str_eq(k, "struct_declaration") || str_eq(k, "enum_declaration") || str_eq(
        k,
        "parameter",
    ) {
        match c.find_child("identifier") {
            Some(ch) => Some(ch.text.clone()),
            None => None,
        }
    } else if str_eq(k, "constructor_declaration") {
        match c.find_child("identifier") {
            Some(ch) => {
                let mut s = String::from_str("ctor_");
                s.append(ch.text.as_str());
                Some(s)
            },
            None => Some(String::from_str("constructor")),
        }
    } else if str_eq(k, "identifier") {
        Some(c.text.clone())
    } else if str_eq(k, "namespace_declaration") {
        match c.find_child2("qualified_name", "identifier") {
            Some(ch) => {
                let mut s = String::from_str("namespace_");
                s.append(ch.text.as_str());
                Some(s)
            },
            None => Some(String::from_str("global_namespace")),
        }
    } else if str_eq(k, "using_directive") {
        match c.find_child2("qualified_name", "identifier") {
            Some(ch) => {
                let mut s = String::from_str("using_");
                proof {
                    reveal_strlit("_");
                    assert("_"@ =~= seq!['_']);
                }
                let cleaned = replace_char(ch.text.as_str(), '.', '_', "_");
                s.append(cleaned.as_str());
                Some(s)
            },
            None => Some(String::from_str("unknown_using")),
        }
    } else {
        None
    }
}

/// The C# front end.
pub struct CSharpParser {}

impl CSharpParser {
    /// A new C# front end.
    pub fn new() -> (r: Result<CSharpParser, CoalesceError>)
        ensures
            r is Ok,
    {
        Ok(CSharpParser {  })
    }

    /// Normalizes C# source text onto the UIR. Fails only when the grammar
    /// engine yields no tree at all; otherwise the whole tree is normalized
    /// with syntax-error children skipped.
    pub fn parse(&self, source: &str) -> (r: Result<UIRNode, CoalesceError>)
        ensures
            r is Ok <==> csharp_cst(source@) is Some,
            r matches Ok(u) ==> crate::normalize::uir_of_cst(
                Language::CSharp,
                csharp_cst(source@)->Some_0,
                u,
            ),
            r matches Err(e) ==> e matches CoalesceError::ParseError { message, line, column }
                && message@ == "Failed to parse C# source"@ && line == 0 && column == 0,
    {
        match ts_parse_csharp(source) {
            Some(c) => Ok(cst_to_uir(Language::CSharp, &c)),
            None => Err(
                CoalesceError::ParseError {
                    message: String::from_str("Failed to parse C# source"),
                    line: 0,
                    column: 0,
                },
            ),
        }
    }
}

} // verus!
