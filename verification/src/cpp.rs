//! The C and C++ front end: normalizes trees of the C++ grammar onto the
//! UIR.

use vstd::prelude::*;
use crate::cst::{
    first_child_of_kind, first_child_of_kinds, lemma_found_child_decreases, ts_parse_cpp, cpp_cst,
    CstNode,
};
use crate::errors::CoalesceError;
use crate::normalize::cst_to_uir;
use crate::strutil::str_eq;
use crate::uir::{Language, UIRNode};

verus! {

/// The name of a function node: the first child that is an identifier or a
/// function declarator decides; a declarator is searched recursively.
pub open spec fn spec_cpp_fn_name(c: CstNode) -> Option<Seq<char>>
    decreases c,
    via spec_cpp_fn_name_dec
{
    match first_child_of_kinds(c.children@, "identifier"@, "function_declarator"@) {
        Some(ch) => if ch.kind@ == "identifier"@ {
            Some(ch.text@)
        } else {
            spec_cpp_fn_name(ch)
        },
        None => None,
    }
}

#[via_fn]
proof fn spec_cpp_fn_name_dec(c: CstNode) {
    if first_child_of_kinds(c.children@, "identifier"@, "function_declarator"@) is Some {
        lemma_found_child_decreases(c, "identifier"@, "function_declarator"@);
    }
}

/// The name of a namespace node: `namespace_` before the first identifier
/// child, or a fixed name for an anonymous namespace.
pub open spec fn spec_cpp_namespace_name(c: CstNode) -> Option<Seq<char>> {
    match first_child_of_kind(c.children@, "identifier"@) {
        Some(ch) => Some("namespace_"@ + ch.text@),
        None => Some("anonymous_namespace"@),
    }
}

/// The name the C/C++ front end gives a node of the given kind.
pub open spec fn spec_cpp_name(c: CstNode) -> Option<Seq<char>> {
    let k = c.kind@;
    if k == "translation_unit"@ {
        Some("cpp_program"@)
    } else if k == "function_definition"@ || k == "function_declarator"@ || k
        == "method_definition"@ {
        spec_cpp_fn_name(c)
    } else if k == "parameter_declaration"@ {
        match first_child_of_kind(c.children@, "identifier"@) {
            Some(ch) => Some(ch.text@),
            None => None,
        }
    } else if k == "class_specifier"@ {
        match first_child_of_kinds(c.children@, "type_identifier"@, "identifier"@) {
            Some(ch) => Some(ch.text@),
            None => None,
        }
    } else if k == "identifier"@ {
        Some(c.text@)
    } else if k == "namespace_definition"@ {
        spec_cpp_namespace_name(c)
    } else {
        None
    }
}

/// Extracts the name of a function node, searching declarators recursively.
pub fn cpp_fn_name(c: &CstNode) -> (r: Option<String>)
    ensures
        r.deep_view() == spec_cpp_fn_name(*c),
    decreases *c,
{
    match c.find_child2("identifier", "function_declarator") {
        Some(ch) => {
            if str_eq(ch.kind.as_str(), "identifier") {
                Some(ch.text.clone())
            } else {
                proof {
                    lemma_found_child_decreases(*c, "identifier"@, "function_declarator"@);
                }
                cpp_fn_name(ch)
            }
        },
        None => None,
    }
}

/// Extracts the name the C/C++ front end gives a node.
pub fn cpp_name(c: &CstNode) -> (r: Option<String>)
    ensures
        r.deep_view() == spec_cpp_name(*c),
{
    let k = c.kind.as_str();
    if str_eq(k, "translation_unit") {
        Some(String::from_str("cpp_program"))
    } else if str_eq(k, "function_definition") || str_eq(k, "function_declarator") || str_eq(
        k,
        "method_definition",
    ) {
        cpp_fn_name(c)
    } else if str_eq(k, "parameter_declaration") {
        match c.find_child("identifier") {
            Some(ch) => Some(ch.text.clone()),
            None => None,
        }
    } else if str_eq(k, "class_specifier") {
        match c.find_child2("type_identifier", "identifier") {
            Some(ch) => Some(ch.text.clone()),
            None => None,
        }
    } else if str_eq(k, "identifier") {
        Some(c.text.clone())
    } else if str_eq(k, "namespace_definition") {
        match c.find_child("identifier") {
            Some(ch) => {
                let mut s = String::from_str("namespace_");
                s.append(ch.text.as_str());
                Some(s)
            },
            None => Some(String::from_str("anonymous_namespace")),
        }
    } else {
        None
    }
}

/// The C++ front end; also used for C sources, which the C++ grammar
/// accepts.
pub struct CppParser {}

impl CppParser {
    /// A new C++ front end.
    pub fn new() -> (r: Result<CppParser, CoalesceError>)
        ensures
            r is Ok,
    {
        Ok(CppParser {  })
    }

    /// Normalizes C++ source text onto the UIR. Fails only when the grammar
    /// engine yields no tree at all; otherwise the whole tree is normalized
    /// with syntax-error children skipped.
    pub fn parse(&self, source: &str) -> (r: Result<UIRNode, CoalesceError>)
        ensures
            r is Ok <==> cpp_cst(source@) is Some,
            r matches Ok(u) ==> crate::normalize::uir_of_cst(
                Language::Cpp,
                cpp_cst(source@)->Some_0,
                u,
            ),
            r matches Err(e) ==> e matches CoalesceError::ParseError { message, line, column }
                && message@ == "Failed to parse C++ source"@ && line == 0 && column == 0,
    {
        match ts_parse_cpp(source) {
            Some(c) => Ok(cst_to_uir(Language::Cpp, &c)),
            None => Err(
                CoalesceError::ParseError {
                    message: String::from_str("Failed to parse C++ source"),
                    line: 0,
                    column: 0,
                },
            ),
        }
    }
}

} // verus!
