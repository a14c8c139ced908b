//! Per-construct mapping tables: total functions from a grammar engine's
//! node kind to a UIR node classification. Kinds not listed explicitly fall
//! back to a generic classification by substring, so mapping never fails.

use vstd::prelude::*;
use crate::strutil::{contains_seq, contains_str, str_eq};
use crate::uir::{ControlFlowType, ExpressionType, LoopType, NodeType, StatementType};

verus! {

/// Generic classification of an unlisted kind: kinds containing
/// "statement" are expression statements, kinds containing "expression"
/// are variable expressions, and everything else is a literal expression.
pub open spec fn spec_fallback_node_type(kind: Seq<char>) -> NodeType {
    if contains_seq(kind, "statement"@) {
        NodeType::Statement(StatementType::Expression)
    } else if contains_seq(kind, "expression"@) {
        NodeType::Expression(ExpressionType::Variable)
    } else {
        NodeType::Expression(ExpressionType::Literal)
    }
}

/// Classifies a kind no table lists explicitly.
pub fn fallback_node_type(kind: &str) -> (r: NodeType)
    ensures
        r == spec_fallback_node_type(kind@),
{
    if contains_str(kind, "statement") {
        NodeType::Statement(StatementType::Expression)
    } else if contains_str(kind, "expression") {
        NodeType::Expression(ExpressionType::Variable)
    } else {
        NodeType::Expression(ExpressionType::Literal)
    }
}

/// The C and C++ mapping table.
pub open spec fn spec_map_kind_cpp(k: Seq<char>) -> NodeType {
    if k == "translation_unit"@ {
        NodeType::Module
    } else if k == "function_definition"@ || k == "function_declarator"@ || k
        == "method_definition"@ {
        NodeType::Function
    } else if k == "parameter_declaration"@ {
        NodeType::Variable
    } else if k == "class_specifier"@ {
        NodeType::Class
    } else if k == "identifier"@ {
        NodeType::Expression(ExpressionType::Variable)
    } else if k == "number_literal"@ || k == "string_literal"@ || k == "char_literal"@ || k
        == "true"@ || k == "false"@ {
        NodeType::Expression(ExpressionType::Literal)
    } else if k == "return_statement"@ {
        NodeType::Statement(StatementType::Return)
    } else if k == "binary_expression"@ {
        NodeType::Expression(ExpressionType::Arithmetic)
    } else if k == "call_expression"@ {
        NodeType::Expression(ExpressionType::FunctionCall)
    } else if k == "assignment_expression"@ {
        NodeType::Expression(ExpressionType::Assignment)
    } else if k == "if_statement"@ {
        NodeType::ControlFlow(ControlFlowType::Conditional)
    } else if k == "for_statement"@ || k == "for_range_loop"@ {
        NodeType::ControlFlow(ControlFlowType::Loop(LoopType::For))
    } else if k == "while_statement"@ {
        NodeType::ControlFlow(ControlFlowType::Loop(LoopType::While))
    } else if k == "try_statement"@ {
        NodeType::ControlFlow(ControlFlowType::Try)
    } else if k == "namespace_definition"@ {
        NodeType::Module
    } else {
        spec_fallback_node_type(k)
    }
}

/// Classifies a C or C++ node kind.
pub fn map_kind_cpp(k: &str) -> (r: NodeType)
    ensures
        r == spec_map_kind_cpp(k@),
{
    if str_eq(k, "translation_unit") {
        NodeType::Module
    } else if str_eq(k, "function_definition") || str_eq(k, "function_declarator") || str_eq(
        k,
        "method_definition",
    ) {
        NodeType::Function
    } else if str_eq(k, "parameter_declaration") {
        NodeType::Variable
    } else if str_eq(k, "class_specifier") {
        NodeType::Class
    } else if str_eq(k, "identifier") {
        NodeType::Expression(ExpressionType::Variable)
    } else if str_eq(k, "number_literal") || str_eq(k, "string_literal") || str_eq(
        k,
        "char_literal",
    ) || str_eq(k, "true") || str_eq(k, "false") {
        NodeType::Expression(ExpressionType::Literal)
    } else if str_eq(k, "return_statement") {
        NodeType::Statement(StatementType::Return)
    } else if str_eq(k, "binary_expression") {
        NodeType::Expression(ExpressionType::Arithmetic)
    } else if str_eq(k, "call_expression") {
        NodeType::Expression(ExpressionType::FunctionCall)
    } else if str_eq(k, "assignment_expression") {
        NodeType::Expression(ExpressionType::Assignment)
    } else if str_eq(k, "if_statement") {
        NodeType::ControlFlow(ControlFlowType::Conditional)
    } else if str_eq(k, "for_statement") || str_eq(k, "for_range_loop") {
        NodeType::ControlFlow(ControlFlowType::Loop(LoopType::For))
    } else if str_eq(k, "while_statement") {
        NodeType::ControlFlow(ControlFlowType::Loop(LoopType::While))
    } else if str_eq(k, "try_statement") {
        NodeType::ControlFlow(ControlFlowType::Try)
    } else if str_eq(k, "namespace_definition") {
        NodeType::Module
    } else {
        fallback_node_type(k)
    }
}

/// The Go mapping table.
pub open spec fn spec_map_kind_go(k: Seq<char>) -> NodeType {
    if k == "source_file"@ {
        NodeType::Module
    } else if k == "function_declaration"@ || k == "method_declaration"@ {
        NodeType::Function
    } else if k == "type_declaration"@ || k == "struct_type"@ {
        NodeType::Class
    } else if k == "interface_type"@ {
        NodeType::Interface
    } else if k == "parameter_declaration"@ {
        NodeType::Variable
    } else if k == "identifier"@ {
        NodeType::Expression(ExpressionType::Variable)
    } else if k == "int_literal"@ || k == "float_literal"@ || k == "interpreted_string_literal"@
        || k == "raw_string_literal"@ || k == "rune_literal"@ || k == "true"@ || k == "false"@ {
        NodeType::Expression(ExpressionType::Literal)
    } else if k == "return_statement"@ {
        NodeType::Statement(StatementType::Return)
    } else if k == "binary_expression"@ {
        NodeType::Expression(ExpressionType::Arithmetic)
    } else if k == "call_expression"@ {
        NodeType::Expression(ExpressionType::FunctionCall)
    } else if k == "assignment_statement"@ {
        NodeType::Expression(ExpressionType::Assignment)
    } else if k == "if_statement"@ {
        NodeType::ControlFlow(ControlFlowType::Conditional)
    } else if k == "for_statement"@ {
        NodeType::ControlFlow(ControlFlowType::Loop(LoopType::For))
    } else if k == "range_clause"@ {
        NodeType::ControlFlow(ControlFlowType::Loop(LoopType::ForEach))
    } else if k == "switch_statement"@ || k == "type_switch_statement"@ {
        NodeType::ControlFlow(ControlFlowType::Switch)
    } else if k == "package_clause"@ || k == "import_declaration"@ {
        NodeType::Module
    } else {
        spec_fallback_node_type(k)
    }
}

/// Classifies a Go node kind.
pub fn map_kind_go(k: &str) -> (r: NodeType)
    ensures
        r == spec_map_kind_go(k@),
{
    if str_eq(k, "source_file") {
        NodeType::Module
    } else if str_eq(k, "function_declaration") || str_eq(k, "method_declaration") {
        NodeType::Function
    } else if str_eq(k, "type_declaration") || str_eq(k, "struct_type") {
        NodeType::Class
    } else if str_eq(k, "interface_type") {
        NodeType::Interface
    } else if str_eq(k, "parameter_declaration") {
        NodeType::Variable
    } else if str_eq(k, "identifier") {
        NodeType::Expression(ExpressionType::Variable)
    } else if str_eq(k, "int_literal") || str_eq(k, "float_literal") || str_eq(
        k,
        "interpreted_string_literal",
    ) || str_eq(k, "raw_string_literal") || str_eq(k, "rune_literal") || str_eq(k, "true")
        || str_eq(k, "false") {
        NodeType::Expression(ExpressionType::Literal)
    } else if str_eq(k, "return_statement") {
        NodeType::Statement(StatementType::Return)
    } else if str_eq(k, "binary_expression") {
        NodeType::Expression(ExpressionType::Arithmetic)
    } else if str_eq(k, "call_expression") {
        NodeType::Expression(ExpressionType::FunctionCall)
    } else if str_eq(k, "assignment_statement") {
        NodeType::Expression(ExpressionType::Assignment)
    } else if str_eq(k, "if_statement") {
        NodeType::ControlFlow(ControlFlowType::Conditional)
    } else if str_eq(k, "for_statement") {
        NodeType::ControlFlow(ControlFlowType::Loop(LoopType::For))
    } else if str_eq(k, "range_clause") {
        NodeType::ControlFlow(ControlFlowType::Loop(LoopType::ForEach))
    } else if str_eq(k, "switch_statement") || str_eq(k, "type_switch_statement") {
        NodeType::ControlFlow(ControlFlowType::Switch)
    } else if str_eq(k, "package_clause") || str_eq(k, "import_declaration") {
        NodeType::Module
    } else {
        fallback_node_type(k)
    }
}

/// The C# mapping table.
pub open spec fn spec_map_kind_csharp(k: Seq<char>) -> NodeType {
    if k == "compilation_unit"@ {
        NodeType::Module
    } else if k == "method_declaration"@ || k == "constructor_declaration"@ {
        NodeType::Function
    } else if k == "class_declaration"@ || k == "struct_declaration"@ || k == "enum_declaration"@ {
        NodeType::Class
    } else if k == "interface_declaration"@ {
        NodeType::Interface
    } else if k == "parameter"@ {
        NodeType::Variable
    } else if k == "identifier"@ {
        NodeType::Expression(ExpressionType::Variable)
    } else if k == "integer_literal"@ || k == "real_literal"@ || k == "string_literal"@ || k
        == "character_literal"@ || k == "boolean_literal"@ || k == "null_literal"@ {
        NodeType::Expression(ExpressionType::Literal)
    } else if k == "return_statement"@ {
        NodeType::Statement(StatementType::Return)
    } else if k == "binary_expression"@ {
        NodeType::Expression(ExpressionType::Arithmetic)
    } else if k == "invocation_expression"@ {
        NodeType::Expression(ExpressionType::FunctionCall)
    } else if k == "assignment_expression"@ {
        NodeType::Expression(ExpressionType::Assignment)
    } else if k == "if_statement"@ {
        NodeType::ControlFlow(ControlFlowType::Conditional)
    } else if k == "for_statement"@ || k == "foreach_statement"@ {
        NodeType::ControlFlow(ControlFlowType::Loop(LoopType::For))
    } else if k == "while_statement"@ {
        NodeType::ControlFlow(ControlFlowType::Loop(LoopType::While))
    } else if k == "do_statement"@ {
        NodeType::ControlFlow(ControlFlowType::Loop(LoopType::DoWhile))
    } else if k == "switch_statement"@ {
        NodeType::ControlFlow(ControlFlowType::Switch)
    } else if k == "try_statement"@ {
        NodeType::ControlFlow(ControlFlowType::Try)
    } else if k == "namespace_declaration"@ || k == "using_directive"@ {
        NodeType::Module
    } else {
        spec_fallback_node_type(k)
    }
}

/// Classifies a C# node kind.
pub fn map_kind_csharp(k: &str) -> (r: NodeType)
    ensures
        r == spec_map_kind_csharp(k@),
{
    if str_eq(k, "compilation_unit") {
        NodeType::Module
    } else if str_eq(k, "method_declaration") || str_eq(k, "constructor_declaration") {
        NodeType::Function
    } else if str_eq(k, "class_declaration") || str_eq(k, "struct_declaration") || str_eq(
        k,
        "enum_declaration",
    ) {
        NodeType::Class
    } else if str_eq(k, "interface_declaration") {
        NodeType::Interface
    } else if str_eq(k, "parameter") {
        NodeType::Variable
    } else if str_eq(k, "identifier") {
        NodeType::Expression(ExpressionType::Variable)
    } else if str_eq(k, "integer_literal") || str_eq(k, "real_literal") || str_eq(
        k,
        "string_literal",
    ) || str_eq(k, "character_literal") || str_eq(k, "boolean_literal") || str_eq(
        k,
        "null_literal",
    ) {
        NodeType::Expression(ExpressionType::Literal)
    } else if str_eq(k, "return_statement") {
        NodeType::Statement(StatementType::Return)
    } else if str_eq(k, "binary_expression") {
        NodeType::Expression(ExpressionType::Arithmetic)
    } else if str_eq(k, "invocation_expression") {
        NodeType::Expression(ExpressionType::FunctionCall)
    } else if str_eq(k, "assignment_expression") {
        NodeType::Expression(ExpressionType::Assignment)
    } else if str_eq(k, "if_statement") {
        NodeType::ControlFlow(ControlFlowType::Conditional)
    } else if str_eq(k, "for_statement") || str_eq(k, "foreach_statement") {
        NodeType::ControlFlow(ControlFlowType::Loop(LoopType::For))
    } else if str_eq(k, "while_statement") {
        NodeType::ControlFlow(ControlFlowType::Loop(LoopType::While))
    } else if str_eq(k, "do_statement") {
        NodeType::ControlFlow(ControlFlowType::Loop(LoopType::DoWhile))
    } else if str_eq(k, "switch_statement") {
        NodeType::ControlFlow(ControlFlowType::Switch)
    } else if str_eq(k, "try_statement") {
        NodeType::ControlFlow(ControlFlowType::Try)
    } else if str_eq(k, "namespace_declaration") || str_eq(k, "using_directive") {
        NodeType::Module
    } else {
        fallback_node_type(k)
    }
}

/// The Rust mapping table.
pub open spec fn spec_map_kind_rust(k: Seq<char>) -> NodeType {
    if k == "source_file"@ {
        NodeType::Module
    } else if k == "function_item"@ {
        NodeType::Function
    } else if k == "impl_item"@ || k == "struct_item"@ || k == "enum_item"@ {
        NodeType::Class
    } else if k == "trait_item"@ {
        NodeType::Interface
    } else if k == "parameter"@ {
        NodeType::Variable
    } else if k == "identifier"@ {
        NodeType::Expression(ExpressionType::Variable)
    } else if k == "integer_literal"@ || k == "float_literal"@ || k == "string_literal"@ || k
        == "raw_string_literal"@ || k == "char_literal"@ || k == "boolean_literal"@ {
        NodeType::Expression(ExpressionType::Literal)
    } else if k == "return_expression"@ {
        NodeType::Statement(StatementType::Return)
    } else if k == "binary_expression"@ {
        NodeType::Expression(ExpressionType::Arithmetic)
    } else if k == "call_expression"@ {
        NodeType::Expression(ExpressionType::FunctionCall)
    } else if k == "assignment_expression"@ {
        NodeType::Expression(ExpressionType::Assignment)
    } else if k == "if_expression"@ {
        NodeType::ControlFlow(ControlFlowType::Conditional)
    } else if k == "for_expression"@ {
        NodeType::ControlFlow(ControlFlowType::Loop(LoopType::For))
    } else if k == "while_expression"@ || k == "loop_expression"@ {
        NodeType::ControlFlow(ControlFlowType::Loop(LoopType::While))
    } else if k == "match_expression"@ {
        NodeType::ControlFlow(ControlFlowType::Switch)
    } else if k == "mod_item"@ {
        NodeType::Module
    } else {
        spec_fallback_node_type(k)
    }
}

/// Classifies a Rust node kind.
pub fn map_kind_rust(k: &str) -> (r: NodeType)
    ensures
        r == spec_map_kind_rust(k@),
{
    if str_eq(k, "source_file") {
        NodeType::Module
    } else if str_eq(k, "function_item") {
        NodeType::Function
    } else if str_eq(k, "impl_item") || str_eq(k, "struct_item") || str_eq(k, "enum_item") {
        NodeType::Class
    } else if str_eq(k, "trait_item") {
        NodeType::Interface
    } else if str_eq(k, "parameter") {
        NodeType::Variable
    } else if str_eq(k, "identifier") {
        NodeType::Expression(ExpressionType::Variable)
    } else if str_eq(k, "integer_literal") || str_eq(k, "float_literal") || str_eq(
        k,
        "string_literal",
    ) || str_eq(k, "raw_string_literal") || str_eq(k, "char_literal") || str_eq(
        k,
        "boolean_literal",
    ) {
        NodeType::Expression(ExpressionType::Literal)
    } else if str_eq(k, "return_expression") {
        NodeType::Statement(StatementType::Return)
    } else if str_eq(k, "binary_expression") {
        NodeType::Expression(ExpressionType::Arithmetic)
    } else if str_eq(k, "call_expression") {
        NodeType::Expression(ExpressionType::FunctionCall)
    } else if str_eq(k, "assignment_expression") {
        NodeType::Expression(ExpressionType::Assignment)
    } else if str_eq(k, "if_expression") {
        NodeType::ControlFlow(ControlFlowType::Conditional)
    } else if str_eq(k, "for_expression") {
        NodeType::ControlFlow(ControlFlowType::Loop(LoopType::For))
    } else if str_eq(k, "while_expression") || str_eq(k, "loop_expression") {
        NodeType::ControlFlow(ControlFlowType::Loop(LoopType::While))
    } else if str_eq(k, "match_expression") {
        NodeType::ControlFlow(ControlFlowType::Switch)
    } else if str_eq(k, "mod_item") {
        NodeType::Module
    } else {
        fallback_node_type(k)
    }
}

/// The JavaScript mapping table, used for constructs outside the dedicated
/// conversion rules.
pub open spec fn spec_map_kind_js(k: Seq<char>) -> NodeType {
    if k == "program"@ || k == "source_file"@ {
        NodeType::Module
    } else if k == "function_declaration"@ || k == "function_definition"@ {
        NodeType::Function
    } else if k == "variable_declaration"@ || k == "variable_declarator"@ {
        NodeType::Variable
    } else if k == "if_statement"@ || k == "while_statement"@ || k == "for_statement"@ {
        NodeType::ControlFlow(ControlFlowType::Conditional)
    } else if k == "return_statement"@ {
        NodeType::Statement(StatementType::Return)
    } else if k == "expression_statement"@ {
        NodeType::Statement(StatementType::Expression)
    } else if k == "assignment_expression"@ {
        NodeType::Expression(ExpressionType::Assignment)
    } else if k == "binary_expression"@ || k == "unary_expression"@ {
        NodeType::Expression(ExpressionType::Arithmetic)
    } else if k == "call_expression"@ {
        NodeType::Expression(ExpressionType::FunctionCall)
    } else if k == "identifier"@ {
        NodeType::Expression(ExpressionType::Variable)
    } else if k == "number"@ || k == "string"@ || k == "boolean"@ {
        NodeType::Expression(ExpressionType::Literal)
    } else if k == "class_declaration"@ {
        NodeType::Class
    } else {
        spec_fallback_node_type(k)
    }
}

/// Classifies a JavaScript node kind.
pub fn map_kind_js(k: &str) -> (r: NodeType)
    ensures
        r == spec_map_kind_js(k@),
{
    if str_eq(k, "program") || str_eq(k, "source_file") {
        NodeType::Module
    } else if str_eq(k, "function_declaration") || str_eq(k, "function_definition") {
        NodeType::Function
    } else if str_eq(k, "variable_declaration") || str_eq(k, "variable_declarator") {
        NodeType::Variable
    } else if str_eq(k, "if_statement") || str_eq(k, "while_statement") || str_eq(
        k,
        "for_statement",
    ) {
        NodeType::ControlFlow(ControlFlowType::Conditional)
    } else if str_eq(k, "return_statement") {
        NodeType::Statement(StatementType::Return)
    } else if str_eq(k, "expression_statement") {
        NodeType::Statement(StatementType::Expression)
    } else if str_eq(k, "assignment_expression") {
        NodeType::Expression(ExpressionType::Assignment)
    } else if str_eq(k, "binary_expression") || str_eq(k, "unary_expression") {
        NodeType::Expression(ExpressionType::Arithmetic)
    } else if str_eq(k, "call_expression") {
        NodeType::Expression(ExpressionType::FunctionCall)
    } else if str_eq(k, "identifier") {
        NodeType::Expression(ExpressionType::Variable)
    } else if str_eq(k, "number") || str_eq(k, "string") || str_eq(k, "boolean") {
        NodeType::Expression(ExpressionType::Literal)
    } else if str_eq(k, "class_declaration") {
        NodeType::Class
    } else {
        fallback_node_type(k)
    }
}

/// A kind the C/C++ table lists explicitly.
pub open spec fn listed_kind_cpp(k: Seq<char>) -> bool {
    ||| k == "translation_unit"@
    ||| k == "function_definition"@
    ||| k == "function_declarator"@
    ||| k == "method_definition"@
    ||| k == "parameter_declaration"@
    ||| k == "class_specifier"@
    ||| k == "identifier"@
    ||| k == "number_literal"@
    ||| k == "string_literal"@
    ||| k == "char_literal"@
    ||| k == "true"@
    ||| k == "false"@
    ||| k == "return_statement"@
    ||| k == "binary_expression"@
    ||| k == "call_expression"@
    ||| k == "assignment_expression"@
    ||| k == "if_statement"@
    ||| k == "for_statement"@
    ||| k == "for_range_loop"@
    ||| k == "while_statement"@
    ||| k == "try_statement"@
    ||| k == "namespace_definition"@
}

/// A kind the Go table lists explicitly.
pub open spec fn listed_kind_go(k: Seq<char>) -> bool {
    ||| k == "source_file"@
    ||| k == "function_declaration"@
    ||| k == "method_declaration"@
    ||| k == "type_declaration"@
    ||| k == "struct_type"@
    ||| k == "interface_type"@
    ||| k == "parameter_declaration"@
    ||| k == "identifier"@
    ||| k == "int_literal"@
    ||| k == "float_literal"@
    ||| k == "interpreted_string_literal"@
    ||| k == "raw_string_literal"@
    ||| k == "rune_literal"@
    ||| k == "true"@
    ||| k == "false"@
    ||| k == "return_statement"@
    ||| k == "binary_expression"@
    ||| k == "call_expression"@
    ||| k == "assignment_statement"@
    ||| k == "if_statement"@
    ||| k == "for_statement"@
    ||| k == "range_clause"@
    ||| k == "switch_statement"@
    ||| k == "type_switch_statement"@
    ||| k == "package_clause"@
    ||| k == "import_declaration"@
}

/// A kind the C# table lists explicitly.
pub open spec fn listed_kind_csharp(k: Seq<char>) -> bool {
    ||| k == "compilation_unit"@
    ||| k == "method_declaration"@
    ||| k == "constructor_declaration"@
    ||| k == "class_declaration"@
    ||| k == "struct_declaration"@
    ||| k == "enum_declaration"@
    ||| k == "interface_declaration"@
    ||| k == "parameter"@
    ||| k == "identifier"@
    ||| k == "integer_literal"@
    ||| k == "real_literal"@
    ||| k == "string_literal"@
    ||| k == "character_literal"@
    ||| k == "boolean_literal"@
    ||| k == "null_literal"@
    ||| k == "return_statement"@
    ||| k == "binary_expression"@
    ||| k == "invocation_expression"@
    ||| k == "assignment_expression"@
    ||| k == "if_statement"@
    ||| k == "for_statement"@
    ||| k == "foreach_statement"@
    ||| k == "while_statement"@
    ||| k == "do_statement"@
    ||| k == "switch_statement"@
    ||| k == "try_statement"@
    ||| k == "namespace_declaration"@
    ||| k == "using_directive"@
}

/// A kind the Rust table lists explicitly.
pub open spec fn listed_kind_rust(k: Seq<char>) -> bool {
    ||| k == "source_file"@
    ||| k == "function_item"@
    ||| k == "impl_item"@
    ||| k == "struct_item"@
    ||| k == "enum_item"@
    ||| k == "trait_item"@
    ||| k == "parameter"@
    ||| k == "identifier"@
    ||| k == "integer_literal"@
    ||| k == "float_literal"@
    ||| k == "string_literal"@
    ||| k == "raw_string_literal"@
    ||| k == "char_literal"@
    ||| k == "boolean_literal"@
    ||| k == "return_expression"@
    ||| k == "binary_expression"@
    ||| k == "call_expression"@
    ||| k == "assignment_expression"@
    ||| k == "if_expression"@
    ||| k == "for_expression"@
    ||| k == "while_expression"@
    ||| k == "loop_expression"@
    ||| k == "match_expression"@
    ||| k == "mod_item"@
}

/// A kind the JavaScript table lists explicitly.
pub open spec fn listed_kind_js(k: Seq<char>) -> bool {
    ||| k == "program"@
    ||| k == "source_file"@
    ||| k == "function_declaration"@
    ||| k == "function_definition"@
    ||| k == "variable_declaration"@
    ||| k == "variable_declarator"@
    ||| k == "if_statement"@
    ||| k == "while_statement"@
    ||| k == "for_statement"@
    ||| k == "return_statement"@
    ||| k == "expression_statement"@
    ||| k == "assignment_expression"@
    ||| k == "binary_expression"@
    ||| k == "unary_expression"@
    ||| k == "call_expression"@
    ||| k == "identifier"@
    ||| k == "number"@
    ||| k == "string"@
    ||| k == "boolean"@
    ||| k == "class_declaration"@
}

/// Totality of the mapping tables: every node kind that no table lists
/// explicitly is classified strictly by the substring fallback on
/// "statement" and "expression"; mapping is defined for every kind and
/// never fails.
pub proof fn lemma_mapping_total(k: Seq<char>)
    ensures
        !listed_kind_cpp(k) ==> spec_map_kind_cpp(k) == spec_fallback_node_type(k),
        !listed_kind_go(k) ==> spec_map_kind_go(k) == spec_fallback_node_type(k),
        !listed_kind_csharp(k) ==> spec_map_kind_csharp(k) == spec_fallback_node_type(k),
        !listed_kind_rust(k) ==> spec_map_kind_rust(k) == spec_fallback_node_type(k),
        !listed_kind_js(k) ==> spec_map_kind_js(k) == spec_fallback_node_type(k),
{
}

} // verus!
