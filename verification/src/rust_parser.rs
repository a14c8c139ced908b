//! The Rust front end: normalizes trees of the Rust grammar onto the UIR.

use vstd::prelude::*;
use crate::cst::{first_child_of_kind, ts_parse_rust, rust_cst, CstNode};
use crate::errors::CoalesceError;
use crate::normalize::cst_to_uir;
use crate::strutil::str_eq;
use crate::uir::{Language, UIRNode};

verus! {

/// The name the Rust front end gives a node of the given kind.
pub open spec fn spec_rust_name(c: CstNode) -> Option<Seq<char>> {
    let k = c.kind@;
    if k == "source_file"@ {
        Some("rust_program"@)
    } else if k == "function_item"@ || k == "parameter"@ {
        match first_child_of_kind(c.children@, "identifier"@) {
            Some(ch) => Some(ch.text@),
            None => None,
        }
    } else if k == "struct_item"@ || k == "enum_item"@ || k == "trait_item"@ {
        match first_child_of_kind(c.children@, "type_identifier"@) {
            Some(ch) => Some(ch.text@),
            None => None,
        }
    } else if k == "impl_item"@ {
        match first_child_of_kind(c.children@, "type_identifier"@) {
            Some(ch) => Some("impl_"@ + ch.text@),
            None => Some("anonymous_impl"@),
        }
    } else if k == "identifier"@ {
        Some(c.text@)
    } else if k == "mod_item"@ {
        match first_child_of_kind(c.children@, "identifier"@) {
            Some(ch) => Some("mod_"@ + ch.text@),
            None => Some("anonymous_mod"@),
        }
    } else {
        None
    }
}

/// Extracts the name the Rust front end gives a node.
pub fn rust_name(c: &CstNode) -> (r: Option<String>)
    ensures
        r.deep_view() == spec_rust_name(*c),
{
    let k = c.kind.as_str();
    if str_eq(k, "source_file") {
        Some(String::from_str("rust_program"))
    } else if str_eq(k, "function_item") || str_eq(k, "parameter") {
        match c.find_child("identifier") {
            Some(ch) => Some(ch.text.clone()),
            None => None,
        }
    } else if str_eq(k, "struct_item") || str_eq(k, "enum_item") || str_eq(k, "trait_item") {
        match c.find_child("type_identifier") {
            Some(ch) => Some(ch.text.clone()),
            None => None,
        }
    } else if str_eq(k, "impl_item") {
        match c.find_child("type_identifier") {
            Some(ch) => {
                let mut s = String::from_str("impl_");
                s.append(ch.text.as_str());
                Some(s)
            },
            None => Some(String::from_str("anonymous_impl")),
        }
    } else if str_eq(k, "identifier") {
        Some(c.text.clone())
    } else if str_eq(k, "mod_item") {
        match c.find_child("identifier") {
            Some(ch) => {
                let mut s = String::from_str("mod_");
                s.append(ch.text.as_str());
                Some(s)
            },
            None => Some(String::from_str("anonymous_mod")),
        }
    } else {
        None
    }
}

/// The Rust front end.
pub struct RustParser {}

impl RustParser {
    /// A new Rust front end.
    pub fn new() -> (r: Result<RustParser, CoalesceError>)
        ensures
            r is Ok,
    {
        Ok(RustParser {  })
    }

    /// Normalizes Rust source text onto the UIR. Fails only when the
    /// grammar engine yields no tree at all; otherwise the whole tree is
    /// normalized with syntax-error children skipped.
    pub fn parse(&self, source: &str) -> (r: Result<UIRNode, CoalesceError>)
        ensures
            r is Ok <==> rust_cst(source@) is Some,
            r matches Ok(u) ==> crate::normalize::uir_of_cst(
                Language::Rust,
                rust_cst(source@)->Some_0,
                u,
            ),
            r matches Err(e) ==> e matches CoalesceError::ParseError { message, line, column }
                && message@ == "Failed to parse Rust source"@ && line == 0 && column == 0,
    {
        match ts_parse_rust(source) {
            Some(c) => Ok(cst_to_uir(Language::Rust, &c)),
            None => Err(
                CoalesceError::ParseError {
                    message: String::from_str("Failed to parse Rust source"),
                    line: 0,
                    column: 0,
                },
            ),
        }
    }
}

} // verus!
