//! The JavaScript front end: normalizes trees of the JavaScript grammar
//! onto the UIR with dedicated conversion rules per construct, and recovers
//! from syntax errors by producing a partial-parse marker node.

use vstd::prelude::*;
use crate::cst::{
    first_child_of_kind, lemma_child_decreases, lemma_first_child_membership,
    lemma_found_child_decreases, ts_parse_js, js_cst, CstNode,
};
use crate::errors::CoalesceError;
use crate::ident::spec_node_id;
use crate::mapping::spec_map_kind_js;
use crate::normalize::{
    annotations_debug_only, ids_agree, ids_agree_seq, loc_of_cst, metadata_normalized,
    spec_line_of,
};
use crate::uir::{
    ControlFlowType, ExpressionType, Language, NodeType, StatementType, UIRNode,
};

verus! {

/// An operator kind skipped inside a binary expression; the operator is
/// implicit in the expression's classification.
pub open spec fn js_operator_kind(k: Seq<char>) -> bool {
    ||| k == "+"@
    ||| k == "-"@
    ||| k == "*"@
    ||| k == "/"@
    ||| k == "%"@
    ||| k == "=="@
    ||| k == "!="@
    ||| k == "<"@
    ||| k == ">"@
    ||| k == "<="@
    ||| k == ">="@
    ||| k == "&&"@
    ||| k == "||"@
}

/// Whether converting this node succeeds: declaration-like constructs
/// need an identifier-bearing child; everything else always converts.
pub open spec fn js_ok(c: CstNode) -> bool {
    if c.kind@ == "function_declaration"@ || c.kind@ == "class_declaration"@ {
        first_child_of_kind(c.children@, "identifier"@) is Some
    } else if c.kind@ == "method_definition"@ {
        first_child_of_kind(c.children@, "property_identifier"@) is Some || first_child_of_kind(
            c.children@,
            "identifier"@,
        ) is Some
    } else {
        true
    }
}

/// The child-walk modes of the JavaScript conversion rules.
#[derive(Clone, Copy, PartialEq, Eq, Structural)]
pub enum JsWalk {
    /// Every child except grammar extras.
    All,
    /// Statements of a function body: extras and braces are skipped.
    Body,
    /// Children of a return statement after the keyword: semicolons are
    /// skipped.
    ReturnRest,
    /// Children of an argument list: parentheses and commas are skipped.
    CallArgs,
    /// Operands of a binary expression: operators are skipped.
    Binary,
}

/// Whether a walk mode skips the node outright.
pub open spec fn js_skipped(m: JsWalk, c: CstNode) -> bool {
    match m {
        JsWalk::All => c.is_extra,
        JsWalk::Body => c.is_extra || c.kind@ == "{"@ || c.kind@ == "}"@,
        JsWalk::ReturnRest => c.kind@ == ";"@,
        JsWalk::CallArgs => c.kind@ == "("@ || c.kind@ == ")"@ || c.kind@ == ","@,
        JsWalk::Binary => js_operator_kind(c.kind@),
    }
}

/// The identifier, metadata and source span every converted JavaScript
/// node carries, shared with the generic walker.
pub open spec fn js_common(c: CstNode, r: UIRNode) -> bool {
    &&& r.id@ == spec_node_id(c.kind@, c.start_row, c.start_col, c.text@)
    &&& metadata_normalized(Language::JavaScript, c, r.metadata)
    &&& match r.source_location {
        Some(loc) => loc_of_cst(c, loc),
        None => false,
    }
}

/// A parameter leaf: a variable node named after an identifier child of a
/// parameter list, with no children of its own.
pub open spec fn js_param_leaf(c: CstNode, r: UIRNode) -> bool {
    &&& js_common(c, r)
    &&& r.node_type == NodeType::Variable
    &&& r.name.deep_view() == Some(c.text@)
    &&& r.children@.len() == 0
}

/// The number of identifier children of a parameter list: how many
/// parameter leaves it yields.
pub open spec fn js_param_count(cs: Seq<CstNode>) -> int
    decreases cs.len(),
{
    if cs.len() == 0 {
        0
    } else if cs[0].kind@ == "identifier"@ {
        1 + js_param_count(cs.drop_first())
    } else {
        js_param_count(cs.drop_first())
    }
}

/// A parameter-leaf list has exactly one leaf per identifier child.
pub proof fn lemma_js_params_len(cs: Seq<CstNode>, rs: Seq<UIRNode>)
    requires
        js_params_rel(cs, rs),
    ensures
        rs.len() == js_param_count(cs),
    decreases cs.len(),
{
    if cs.len() > 0 {
        if cs[0].kind@ == "identifier"@ {
            lemma_js_params_len(cs.drop_first(), rs.drop_first());
        } else {
            lemma_js_params_len(cs.drop_first(), rs);
        }
    }
}

/// The parameter leaves extracted from a parameter list: one per
/// identifier child, in order.
pub open spec fn js_params_rel(cs: Seq<CstNode>, rs: Seq<UIRNode>) -> bool
    decreases cs, 0int,
{
    if cs.len() == 0 {
        rs.len() == 0
    } else if cs[0].kind@ == "identifier"@ {
        &&& rs.len() > 0
        &&& js_param_leaf(cs[0], rs[0])
        &&& js_params_rel(cs.drop_first(), rs.drop_first())
    } else {
        js_params_rel(cs.drop_first(), rs)
    }
}

/// The condition node a conditional extracts from a parenthesized
/// expression: the first binary expression child, else the first
/// identifier child, else the first call expression child.
pub open spec fn js_condition_of(p: CstNode) -> Option<CstNode> {
    match first_child_of_kind(p.children@, "binary_expression"@) {
        Some(c) => Some(c),
        None => match first_child_of_kind(p.children@, "identifier"@) {
            Some(c) => Some(c),
            None => first_child_of_kind(p.children@, "call_expression"@),
        },
    }
}

/// The first node of `cs` that is not an arrow, a parameter list or an
/// identifier: the expression body of an arrow function.
pub open spec fn js_arrow_body_of(cs: Seq<CstNode>) -> Option<CstNode>
    decreases cs,
{
    if cs.len() == 0 {
        None
    } else if cs[0].kind@ == "=>"@ || cs[0].kind@ == "formal_parameters"@ || cs[0].kind@
        == "identifier"@ {
        js_arrow_body_of(cs.drop_first())
    } else {
        Some(cs[0])
    }
}

/// The initializer a variable declarator extracts: among its children
/// after the first, the first that is neither an identifier nor an equals
/// sign.
pub open spec fn js_initializer_of(cs: Seq<CstNode>) -> Option<CstNode>
    decreases cs,
{
    if cs.len() == 0 {
        None
    } else if cs[0].kind@ == "identifier"@ || cs[0].kind@ == "="@ {
        js_initializer_of(cs.drop_first())
    } else {
        Some(cs[0])
    }
}

/// `r` is the JavaScript conversion of `c`; defined when `js_ok(c)`.
pub open spec fn js_rel(c: CstNode, r: UIRNode) -> bool
    decreases c, 3int,
    via js_rel_dec
{
    let k = c.kind@;
    &&& js_common(c, r)
    &&& if k == "program"@ {
        &&& r.node_type == NodeType::Module
        &&& r.name.deep_view() == Some("javascript_program"@)
        &&& js_list_rel(JsWalk::All, c.children@, r.children@)
    } else if k == "function_declaration"@ || k == "method_definition"@ {
        &&& r.node_type == NodeType::Function
        &&& r.name.deep_view() == (if k == "function_declaration"@ {
            Some(first_child_of_kind(c.children@, "identifier"@)->Some_0.text@)
        } else {
            match first_child_of_kind(c.children@, "property_identifier"@) {
                Some(p) => Some(p.text@),
                None => Some(first_child_of_kind(c.children@, "identifier"@)->Some_0.text@),
            }
        })
        &&& js_fn_children(c, r.children@)
    } else if k == "arrow_function"@ {
        &&& r.node_type == NodeType::Function
        &&& r.name.deep_view() == Some("arrow_function"@)
        &&& js_arrow_children(c, r.children@)
    } else if k == "class_declaration"@ {
        &&& r.node_type == NodeType::Class
        &&& r.name.deep_view() == Some(
            first_child_of_kind(c.children@, "identifier"@)->Some_0.text@,
        )
        &&& match first_child_of_kind(c.children@, "class_body"@) {
            Some(body) => js_list_rel(JsWalk::All, body.children@, r.children@),
            None => r.children@.len() == 0,
        }
    } else if k == "variable_declaration"@ {
        &&& r.node_type == NodeType::Statement(StatementType::Expression)
        &&& r.name.deep_view() == Some("variable_declaration"@)
        &&& js_declarators_rel(c.children@, r.children@)
    } else if k == "return_statement"@ {
        &&& r.node_type == NodeType::Statement(StatementType::Return)
        &&& r.name.deep_view() == None::<Seq<char>>
        &&& if c.children@.len() > 0 {
            js_list_rel(JsWalk::ReturnRest, c.children@.drop_first(), r.children@)
        } else {
            r.children@.len() == 0
        }
    } else if k == "if_statement"@ {
        &&& r.node_type == NodeType::ControlFlow(ControlFlowType::Conditional)
        &&& r.name.deep_view() == Some("if_statement"@)
        &&& js_if_rel(c.children@, r.children@)
    } else if k == "call_expression"@ {
        &&& r.node_type == NodeType::Expression(ExpressionType::FunctionCall)
        &&& r.name.deep_view() == None::<Seq<char>>
        &&& js_call_children(c, r.children@)
    } else if k == "binary_expression"@ {
        &&& r.node_type == NodeType::Expression(ExpressionType::Arithmetic)
        &&& r.name.deep_view() == None::<Seq<char>>
        &&& js_list_rel(JsWalk::Binary, c.children@, r.children@)
    } else if k == "identifier"@ {
        &&& r.node_type == NodeType::Expression(ExpressionType::Variable)
        &&& r.name.deep_view() == Some(c.text@)
        &&& r.children@.len() == 0
    } else if k == "number"@ || k == "string"@ || k == "true"@ || k == "false"@ {
        &&& r.node_type == NodeType::Expression(ExpressionType::Literal)
        &&& r.name.deep_view() == None::<Seq<char>>
        &&& r.children@.len() == 0
    } else {
        &&& r.node_type == spec_map_kind_js(k)
        &&& r.name.deep_view() == Some(c.kind@)
        &&& js_list_rel(JsWalk::All, c.children@, r.children@)
    }
}

/// A split of a function's children at `m`: parameter leaves before,
/// converted body statements after.
pub open spec fn js_fn_split(c: CstNode, rs: Seq<UIRNode>, m: int) -> bool
    decreases c, 1int,
    via js_fn_split_dec
{
    &&& 0 <= m <= rs.len()
    &&& match first_child_of_kind(c.children@, "formal_parameters"@) {
        Some(p) => js_params_rel(p.children@, rs.take(m)),
        None => m == 0,
    }
    &&& match first_child_of_kind(c.children@, "statement_block"@) {
        Some(b) => js_list_rel(JsWalk::Body, b.children@, rs.skip(m)),
        None => m == rs.len(),
    }
}

/// Where a function's children split: one leaf per identifier in its
/// parameter list.
pub open spec fn js_fn_m(c: CstNode) -> int {
    match first_child_of_kind(c.children@, "formal_parameters"@) {
        Some(p) => js_param_count(p.children@),
        None => 0,
    }
}

/// The children of a function or method: parameter leaves first, then the
/// converted statements of the body.
pub open spec fn js_fn_children(c: CstNode, rs: Seq<UIRNode>) -> bool
    decreases c, 2int,
{
    js_fn_split(c, rs, js_fn_m(c))
}

/// A split of an arrow function's children at `m`: parameter leaves (from
/// a parameter list, or one bare identifier) before, then either the
/// converted body block or the single converted body expression.
pub open spec fn js_arrow_split(c: CstNode, rs: Seq<UIRNode>, m: int) -> bool
    decreases c, 1int,
    via js_arrow_split_dec
{
    &&& 0 <= m <= rs.len()
    &&& match first_child_of_kind(c.children@, "formal_parameters"@) {
        Some(p) => js_params_rel(p.children@, rs.take(m)),
        None => match first_child_of_kind(c.children@, "identifier"@) {
            Some(p) => m == 1 && rs.len() >= 1 && js_param_leaf(p, rs[0]),
            None => m == 0,
        },
    }
    &&& match first_child_of_kind(c.children@, "statement_block"@) {
        Some(b) => js_list_rel(JsWalk::Body, b.children@, rs.skip(m)),
        None => if c.children@.len() > 0 {
            match js_arrow_body_of(c.children@.drop_first()) {
                Some(e) => if js_ok(e) {
                    rs.len() == m + 1 && js_rel(e, rs[m])
                } else {
                    m == rs.len()
                },
                None => m == rs.len(),
            }
        } else {
            m == rs.len()
        },
    }
}

/// Where an arrow function's children split: its parameter-list leaves, or
/// one leaf for a bare identifier parameter.
pub open spec fn js_arrow_m(c: CstNode) -> int {
    match first_child_of_kind(c.children@, "formal_parameters"@) {
        Some(p) => js_param_count(p.children@),
        None => match first_child_of_kind(c.children@, "identifier"@) {
            Some(_) => 1,
            None => 0,
        },
    }
}

/// The children of an arrow function.
pub open spec fn js_arrow_children(c: CstNode, rs: Seq<UIRNode>) -> bool
    decreases c, 2int,
{
    js_arrow_split(c, rs, js_arrow_m(c))
}

/// A split of a call expression's children at `m`: the converted callee
/// (an identifier or member expression) before, the converted arguments
/// after.
pub open spec fn js_call_split(c: CstNode, rs: Seq<UIRNode>, m: int) -> bool
    decreases c, 1int,
    via js_call_split_dec
{
    &&& 0 <= m <= rs.len()
    &&& match first_child_of_kind(c.children@, "identifier"@) {
        Some(f) => m == 1 && rs.len() >= 1 && js_rel(f, rs[0]),
        None => match first_child_of_kind(c.children@, "member_expression"@) {
            Some(f) => m == 1 && rs.len() >= 1 && js_rel(f, rs[0]),
            None => m == 0,
        },
    }
    &&& match first_child_of_kind(c.children@, "arguments"@) {
        Some(a) => js_list_rel(JsWalk::CallArgs, a.children@, rs.skip(m)),
        None => m == rs.len(),
    }
}

/// Where a call expression's children split: one converted callee when an
/// identifier or member expression is found.
pub open spec fn js_call_m(c: CstNode) -> int {
    match first_child_of_kind(c.children@, "identifier"@) {
        Some(_) => 1,
        None => match first_child_of_kind(c.children@, "member_expression"@) {
            Some(_) => 1,
            None => 0,
        },
    }
}

/// The children of a call expression.
pub open spec fn js_call_children(c: CstNode, rs: Seq<UIRNode>) -> bool
    decreases c, 2int,
{
    js_call_split(c, rs, js_call_m(c))
}

/// The converted children of a conditional: each parenthesized expression
/// contributes its extracted condition, each statement block or expression
/// statement is converted, and everything else is skipped.
pub open spec fn js_if_rel(cs: Seq<CstNode>, rs: Seq<UIRNode>) -> bool
    decreases cs, 0int,
    via js_if_rel_dec
{
    if cs.len() == 0 {
        rs.len() == 0
    } else if cs[0].kind@ == "parenthesized_expression"@ {
        match js_condition_of(cs[0]) {
            Some(cond) => {
                &&& rs.len() > 0
                &&& js_rel(cond, rs[0])
                &&& js_if_rel(cs.drop_first(), rs.drop_first())
            },
            None => js_if_rel(cs.drop_first(), rs),
        }
    } else if cs[0].kind@ == "statement_block"@ || cs[0].kind@ == "expression_statement"@ {
        &&& rs.len() > 0
        &&& js_rel(cs[0], rs[0])
        &&& js_if_rel(cs.drop_first(), rs.drop_first())
    } else {
        js_if_rel(cs.drop_first(), rs)
    }
}

/// The variable nodes of a declaration: one per declarator child that has
/// an identifier, in order.
pub open spec fn js_declarators_rel(cs: Seq<CstNode>, rs: Seq<UIRNode>) -> bool
    decreases cs, 0int,
    via js_declarators_rel_dec
{
    if cs.len() == 0 {
        rs.len() == 0
    } else if cs[0].kind@ == "variable_declarator"@ && first_child_of_kind(
        cs[0].children@,
        "identifier"@,
    ) is Some {
        &&& rs.len() > 0
        &&& js_declarator_rel(cs[0], rs[0])
        &&& js_declarators_rel(cs.drop_first(), rs.drop_first())
    } else {
        js_declarators_rel(cs.drop_first(), rs)
    }
}

/// One declared variable: named after its identifier child, carrying its
/// converted initializer as its only child when one converts.
pub open spec fn js_declarator_rel(d: CstNode, r: UIRNode) -> bool
    decreases d, 1int,
    via js_declarator_rel_dec
{
    &&& js_common(d, r)
    &&& r.node_type == NodeType::Variable
    &&& r.name.deep_view() == Some(first_child_of_kind(d.children@, "identifier"@)->Some_0.text@)
    &&& if d.children@.len() > 0 {
        match js_initializer_of(d.children@.drop_first()) {
            Some(init) => if js_ok(init) {
                r.children@.len() == 1 && js_rel(init, r.children@[0])
            } else {
                r.children@.len() == 0
            },
            None => r.children@.len() == 0,
        }
    } else {
        r.children@.len() == 0
    }
}

/// `rs` is the conversion of the nodes of `cs` that the walk keeps and
/// that convert successfully, in order.
pub open spec fn js_list_rel(m: JsWalk, cs: Seq<CstNode>, rs: Seq<UIRNode>) -> bool
    decreases cs, 0int,
    via js_list_rel_dec
{
    if cs.len() == 0 {
        rs.len() == 0
    } else if js_skipped(m, cs[0]) || !js_ok(cs[0]) {
        js_list_rel(m, cs.drop_first(), rs)
    } else {
        &&& rs.len() > 0
        &&& js_rel(cs[0], rs[0])
        &&& js_list_rel(m, cs.drop_first(), rs.drop_first())
    }
}

#[via_fn]
proof fn js_rel_dec(c: CstNode, r: UIRNode) {
    assert(decreases_to!(c => c.children));
    assert(decreases_to!(c.children => c.children@));
    if first_child_of_kind(c.children@, "class_body"@) is Some {
        lemma_found_child_decreases(c, "class_body"@, "class_body"@);
        let body = first_child_of_kind(c.children@, "class_body"@)->Some_0;
        assert(decreases_to!(body => body.children));
        assert(decreases_to!(body.children => body.children@));
    }
}

#[via_fn]
proof fn js_fn_split_dec(c: CstNode, rs: Seq<UIRNode>, m: int) {
    if first_child_of_kind(c.children@, "formal_parameters"@) is Some {
        lemma_found_child_decreases(c, "formal_parameters"@, "formal_parameters"@);
        let p = first_child_of_kind(c.children@, "formal_parameters"@)->Some_0;
        assert(decreases_to!(p => p.children));
        assert(decreases_to!(p.children => p.children@));
    }
    if first_child_of_kind(c.children@, "statement_block"@) is Some {
        lemma_found_child_decreases(c, "statement_block"@, "statement_block"@);
        let b = first_child_of_kind(c.children@, "statement_block"@)->Some_0;
        assert(decreases_to!(b => b.children));
        assert(decreases_to!(b.children => b.children@));
    }
}

#[via_fn]
proof fn js_arrow_split_dec(c: CstNode, rs: Seq<UIRNode>, m: int) {
    if first_child_of_kind(c.children@, "formal_parameters"@) is Some {
        lemma_found_child_decreases(c, "formal_parameters"@, "formal_parameters"@);
        let p = first_child_of_kind(c.children@, "formal_parameters"@)->Some_0;
        assert(decreases_to!(p => p.children));
        assert(decreases_to!(p.children => p.children@));
    }
    if first_child_of_kind(c.children@, "statement_block"@) is Some {
        lemma_found_child_decreases(c, "statement_block"@, "statement_block"@);
        let b = first_child_of_kind(c.children@, "statement_block"@)->Some_0;
        assert(decreases_to!(b => b.children));
        assert(decreases_to!(b.children => b.children@));
    }
    assert(decreases_to!(c => c.children));
    assert(decreases_to!(c.children => c.children@));
    if c.children@.len() > 0 {
        let rest = c.children@.drop_first();
        if js_arrow_body_of(rest) is Some {
            lemma_arrow_body_membership(rest);
            let e = js_arrow_body_of(rest)->Some_0;
            let i = choose|i: int| 0 <= i < rest.len() && rest[i] == e;
            assert(c.children@[i + 1] == e);
            assert(decreases_to!(c.children@ => c.children@[i + 1]));
        }
    }
}

#[via_fn]
proof fn js_call_split_dec(c: CstNode, rs: Seq<UIRNode>, m: int) {
    if first_child_of_kind(c.children@, "identifier"@) is Some {
        lemma_found_child_decreases(c, "identifier"@, "identifier"@);
    }
    if first_child_of_kind(c.children@, "member_expression"@) is Some {
        lemma_found_child_decreases(c, "member_expression"@, "member_expression"@);
    }
    if first_child_of_kind(c.children@, "arguments"@) is Some {
        lemma_found_child_decreases(c, "arguments"@, "arguments"@);
        let a = first_child_of_kind(c.children@, "arguments"@)->Some_0;
        assert(decreases_to!(a => a.children));
        assert(decreases_to!(a.children => a.children@));
    }
}

#[via_fn]
proof fn js_if_rel_dec(cs: Seq<CstNode>, rs: Seq<UIRNode>) {
    if cs.len() > 0 {
        assert(decreases_to!(cs => cs[0]));
        let p = cs[0];
        if js_condition_of(p) is Some {
            let cond = js_condition_of(p)->Some_0;
            lemma_first_child_membership(p.children@, "binary_expression"@, "binary_expression"@);
            lemma_first_child_membership(p.children@, "identifier"@, "identifier"@);
            lemma_first_child_membership(p.children@, "call_expression"@, "call_expression"@);
            let i = choose|i: int| 0 <= i < p.children@.len() && p.children@[i] == cond;
            lemma_child_decreases(p, i);
        }
    }
}

#[via_fn]
proof fn js_declarators_rel_dec(cs: Seq<CstNode>, rs: Seq<UIRNode>) {
    if cs.len() > 0 {
        assert(decreases_to!(cs => cs[0]));
    }
}

#[via_fn]
proof fn js_declarator_rel_dec(d: CstNode, r: UIRNode) {
    assert(decreases_to!(d => d.children));
    assert(decreases_to!(d.children => d.children@));
    if d.children@.len() > 0 {
        let rest = d.children@.drop_first();
        if js_initializer_of(rest) is Some {
            lemma_initializer_membership(rest);
            let e = js_initializer_of(rest)->Some_0;
            let i = choose|i: int| 0 <= i < rest.len() && rest[i] == e;
            assert(d.children@[i + 1] == e);
            assert(decreases_to!(d.children@ => d.children@[i + 1]));
        }
    }
}

#[via_fn]
proof fn js_list_rel_dec(m: JsWalk, cs: Seq<CstNode>, rs: Seq<UIRNode>) {
    if cs.len() > 0 {
        assert(decreases_to!(cs => cs[0]));
    }
}

/// An arrow body found in a child list is an element of it.
proof fn lemma_arrow_body_membership(cs: Seq<CstNode>)
    ensures
        js_arrow_body_of(cs) matches Some(e) ==> exists|i: int| 0 <= i < cs.len() && cs[i] == e,
    decreases cs,
{
    if cs.len() > 0 && !(cs[0].kind@ == "=>"@ || cs[0].kind@ == "formal_parameters"@ || cs[0].kind@
        == "identifier"@) {
    } else if cs.len() > 0 {
        lemma_arrow_body_membership(cs.drop_first());
        let r = js_arrow_body_of(cs);
        if r is Some {
            let e = r->Some_0;
            let i = choose|i: int| 0 <= i < cs.drop_first().len() && cs.drop_first()[i] == e;
            assert(cs[i + 1] == e);
        }
    }
}

/// An initializer found in a child list is an element of it.
proof fn lemma_initializer_membership(cs: Seq<CstNode>)
    ensures
        js_initializer_of(cs) matches Some(e) ==> exists|i: int| 0 <= i < cs.len() && cs[i] == e,
    decreases cs,
{
    if cs.len() > 0 && !(cs[0].kind@ == "identifier"@ || cs[0].kind@ == "="@) {
    } else if cs.len() > 0 {
        lemma_initializer_membership(cs.drop_first());
        let r = js_initializer_of(cs);
        if r is Some {
            let e = r->Some_0;
            let i = choose|i: int| 0 <= i < cs.drop_first().len() && cs.drop_first()[i] == e;
            assert(cs[i + 1] == e);
        }
    }
}

/// Natural addition capped at the largest value an error counter holds.
pub open spec fn cap_add(a: nat, b: nat) -> nat {
    if a + b > u64::MAX as nat {
        u64::MAX as nat
    } else {
        a + b
    }
}

/// The number of syntax-error nodes in a subtree, capped.
pub open spec fn err_count(c: CstNode) -> nat
    decreases c, 1int,
{
    cap_add(
        if c.is_error {
            1
        } else {
            0
        },
        err_count_seq(c.children@),
    )
}

/// The capped number of syntax-error nodes under a node list.
pub open spec fn err_count_seq(cs: Seq<CstNode>) -> nat
    decreases cs, 0int,
{
    if cs.len() == 0 {
        0
    } else {
        cap_add(err_count(cs[0]), err_count_seq(cs.drop_first()))
    }
}

/// The start row of the first syntax-error node in preorder.
pub open spec fn first_err_row(c: CstNode) -> Option<u32>
    decreases c, 1int,
{
    if c.is_error {
        Some(c.start_row)
    } else {
        first_err_row_seq(c.children@)
    }
}

/// The start row of the first syntax-error node under a node list.
pub open spec fn first_err_row_seq(cs: Seq<CstNode>) -> Option<u32>
    decreases cs, 0int,
{
    if cs.len() == 0 {
        None
    } else {
        match first_err_row(cs[0]) {
            Some(r) => Some(r),
            None => first_err_row_seq(cs.drop_first()),
        }
    }
}

/// The diagnostic recorded when the grammar engine reported syntax errors:
/// the number of error nodes and the one-based line of the first.
pub open spec fn js_recovery_msg(c: CstNode) -> Seq<char> {
    "Parse errors found: "@ + crate::strutil::dec_digits(err_count(c))
        + " error nodes. First error at line "@ + crate::strutil::dec_digits(
        match first_err_row(c) {
            Some(row) => spec_line_of(row) as nat,
            None => 0,
        },
    )
}

/// The partial-parse marker produced when the grammar engine reported
/// syntax errors: an empty module recording the diagnostic.
pub open spec fn js_recovery_rel(c: CstNode, r: UIRNode) -> bool {
    &&& r.id@ == "error_recovery"@
    &&& r.node_type == NodeType::Module
    &&& r.name.deep_view() == Some("partial_parse"@)
    &&& r.children@.len() == 0
    &&& r.metadata.source_language == Language::JavaScript
    &&& r.metadata.semantic_tags@.len() == 0
    &&& r.metadata.dependencies@.len() == 0
    &&& r.metadata.legacy_patterns@.len() == 0
    &&& r.metadata.annotations.parse_error.deep_view() == Some(js_recovery_msg(c))
    &&& r.metadata.annotations.original_text is None
    &&& r.metadata.annotations.requires_manual_implementation == false
    &&& r.source_location is None
}

/// Saturating addition on the error counter.
fn sat_add64(a: u64, b: u64) -> (r: u64)
    ensures
        r as nat == cap_add(a as nat, b as nat),
{
    if a > u64::MAX - b {
        u64::MAX
    } else {
        a + b
    }
}

/// Counts the syntax-error nodes of a subtree.
fn count_error_nodes(c: &CstNode) -> (r: u64)
    ensures
        r as nat == err_count(*c),
    decreases *c, 1int, 0int,
{
    let base: u64 = if c.is_error {
        1
    } else {
        0
    };
    let rest = count_error_children(c, 0);
    proof {
        assert(c.children@.skip(0) =~= c.children@);
    }
    sat_add64(base, rest)
}

/// Counts the syntax-error nodes under the children of `c` from `i` on.
fn count_error_children(c: &CstNode, i: usize) -> (r: u64)
    requires
        i <= c.children@.len(),
    ensures
        r as nat == err_count_seq(c.children@.skip(i as int)),
    decreases *c, 0int, c.children@.len() - i,
{
    if i == c.children.len() {
        proof {
            assert(c.children@.skip(i as int).len() == 0);
        }
        0
    } else {
        proof {
            lemma_child_decreases(*c, i as int);
            assert(c.children@.skip(i as int)[0] == c.children@[i as int]);
            assert(c.children@.skip(i as int).drop_first() =~= c.children@.skip(i + 1));
        }
        let x = count_error_nodes(&c.children[i]);
        let rest = count_error_children(c, i + 1);
        sat_add64(x, rest)
    }
}

/// Finds the start row of the first syntax-error node in preorder.
fn find_first_err_row(c: &CstNode) -> (r: Option<u32>)
    ensures
        r == first_err_row(*c),
    decreases *c, 1int, 0int,
{
    if c.is_error {
        Some(c.start_row)
    } else {
        proof {
            assert(c.children@.skip(0) =~= c.children@);
        }
        find_first_err_row_children(c, 0)
    }
}

/// Finds the first error row under the children of `c` from `i` on.
fn find_first_err_row_children(c: &CstNode, i: usize) -> (r: Option<u32>)
    requires
        i <= c.children@.len(),
    ensures
        r == first_err_row_seq(c.children@.skip(i as int)),
    decreases *c, 0int, c.children@.len() - i,
{
    if i == c.children.len() {
        proof {
            assert(c.children@.skip(i as int).len() == 0);
        }
        None
    } else {
        proof {
            lemma_child_decreases(*c, i as int);
            assert(c.children@.skip(i as int)[0] == c.children@[i as int]);
            assert(c.children@.skip(i as int).drop_first() =~= c.children@.skip(i + 1));
        }
        match find_first_err_row(&c.children[i]) {
            Some(row) => Some(row),
            None => find_first_err_row_children(c, i + 1),
        }
    }
}

/// Builds a converted node: identifier, metadata and span follow the
/// shared rules; classification, name and children are the caller's.
fn js_node(c: &CstNode, node_type: NodeType, name: Option<String>, children: Vec<UIRNode>) -> (r:
    UIRNode)
    ensures
        js_common(*c, r),
        r.node_type == node_type,
        r.name == name,
        r.children == children,
{
    let id = crate::ident::generate_node_id(
        c.kind.as_str(),
        c.start_row,
        c.start_col,
        c.text.as_str(),
    );
    let mut tags: Vec<String> = Vec::new();
    tags.push(c.kind.clone());
    proof {
        assert(tags.deep_view() =~= seq![c.kind@]);
    }
    let mut annotations = crate::uir::Annotations::empty();
    if c.text.unicode_len() < crate::normalize::DEBUG_TEXT_LIMIT {
        annotations.original_text = Some(c.text.clone());
    }
    proof {
        assert(annotations_debug_only(annotations, c.text@));
    }
    let metadata = crate::uir::Metadata {
        source_language: Language::JavaScript,
        semantic_tags: tags,
        dependencies: Vec::new(),
        annotations,
        legacy_patterns: Vec::new(),
    };
    let loc = crate::uir::SourceLocation {
        file: String::new(),
        start_line: crate::normalize::line_of(c.start_row),
        end_line: crate::normalize::line_of(c.end_row),
        start_column: c.start_col,
        end_column: c.end_col,
    };
    UIRNode { id, node_type, name, children, metadata, source_location: Some(loc) }
}

/// A kept converted node extends a walked list.
proof fn lemma_js_list_snoc_kept(
    m: JsWalk,
    cs: Seq<CstNode>,
    rs: Seq<UIRNode>,
    c: CstNode,
    r: UIRNode,
)
    requires
        js_list_rel(m, cs, rs),
        !js_skipped(m, c),
        js_ok(c),
        js_rel(c, r),
    ensures
        js_list_rel(m, cs.push(c), rs.push(r)),
    decreases cs.len(),
{
    if cs.len() == 0 {
        assert(cs.push(c).drop_first() =~= cs);
        assert(rs.push(r).drop_first() =~= rs);
        assert(rs.push(r)[0] == r);
    } else {
        assert(cs.push(c)[0] == cs[0]);
        assert(cs.push(c).drop_first() =~= cs.drop_first().push(c));
        if js_skipped(m, cs[0]) || !js_ok(cs[0]) {
            lemma_js_list_snoc_kept(m, cs.drop_first(), rs, c, r);
        } else {
            assert(rs.push(r)[0] == rs[0]);
            assert(rs.push(r).drop_first() =~= rs.drop_first().push(r));
            lemma_js_list_snoc_kept(m, cs.drop_first(), rs.drop_first(), c, r);
        }
    }
}

/// A skipped or failing node leaves a walked list unchanged.
proof fn lemma_js_list_snoc_skip(m: JsWalk, cs: Seq<CstNode>, rs: Seq<UIRNode>, c: CstNode)
    requires
        js_list_rel(m, cs, rs),
        js_skipped(m, c) || !js_ok(c),
    ensures
        js_list_rel(m, cs.push(c), rs),
    decreases cs.len(),
{
    if cs.len() == 0 {
        assert(cs.push(c)[0] == c);
        assert(cs.push(c).drop_first() =~= cs);
    } else {
        assert(cs.push(c)[0] == cs[0]);
        assert(cs.push(c).drop_first() =~= cs.drop_first().push(c));
        if js_skipped(m, cs[0]) || !js_ok(cs[0]) {
            lemma_js_list_snoc_skip(m, cs.drop_first(), rs, c);
        } else {
            lemma_js_list_snoc_skip(m, cs.drop_first(), rs.drop_first(), c);
        }
    }
}

/// Tests whether a walk mode skips a node.
fn js_is_skipped(m: JsWalk, c: &CstNode) -> (r: bool)
    ensures
        r == js_skipped(m, *c),
{
    let k = c.kind.as_str();
    match m {
        JsWalk::All => c.is_extra,
        JsWalk::Body => c.is_extra || crate::strutil::str_eq(k, "{") || crate::strutil::str_eq(
            k,
            "}",
        ),
        JsWalk::ReturnRest => crate::strutil::str_eq(k, ";"),
        JsWalk::CallArgs => crate::strutil::str_eq(k, "(") || crate::strutil::str_eq(k, ")")
            || crate::strutil::str_eq(k, ","),
        JsWalk::Binary => crate::strutil::str_eq(k, "+") || crate::strutil::str_eq(k, "-")
            || crate::strutil::str_eq(k, "*") || crate::strutil::str_eq(k, "/")
            || crate::strutil::str_eq(k, "%") || crate::strutil::str_eq(k, "==")
            || crate::strutil::str_eq(k, "!=") || crate::strutil::str_eq(k, "<")
            || crate::strutil::str_eq(k, ">") || crate::strutil::str_eq(k, "<=")
            || crate::strutil::str_eq(k, ">=") || crate::strutil::str_eq(k, "&&")
            || crate::strutil::str_eq(k, "||"),
    }
}

/// Converts the nodes of `cs` from `start` on that the walk keeps and that
/// convert successfully, in order.
fn js_convert_list(m: JsWalk, cs: &Vec<CstNode>, start: usize) -> (r: Vec<UIRNode>)
    requires
        start <= cs@.len(),
    ensures
        js_list_rel(m, cs@.skip(start as int), r@),
    decreases cs@, 0int, 0int,
{
    let mut out: Vec<UIRNode> = Vec::new();
    let n = cs.len();
    proof {
        assert(cs@.skip(start as int).take(0) =~= Seq::<CstNode>::empty());
    }
    let mut i: usize = start;
    while i < n
        invariant
            start <= i <= n,
            n == cs@.len(),
            js_list_rel(m, cs@.subrange(start as int, i as int), out@),
        decreases n - i,
    {
        let ch = &cs[i];
        proof {
            assert(decreases_to!(cs@ => cs@[i as int]));
            assert(cs@.subrange(start as int, i + 1) =~= cs@.subrange(
                start as int,
                i as int,
            ).push(cs@[i as int]));
        }
        if !js_is_skipped(m, ch) {
            match js_ast_to_uir(ch) {
                Ok(u) => {
                    proof {
                        lemma_js_list_snoc_kept(
                            m,
                            cs@.subrange(start as int, i as int),
                            out@,
                            cs@[i as int],
                            u,
                        );
                    }
                    out.push(u);
                },
                Err(_) => {
                    proof {
                        lemma_js_list_snoc_skip(
                            m,
                            cs@.subrange(start as int, i as int),
                            out@,
                            cs@[i as int],
                        );
                    }
                },
            }
        } else {
            proof {
                lemma_js_list_snoc_skip(
                    m,
                    cs@.subrange(start as int, i as int),
                    out@,
                    cs@[i as int],
                );
            }
        }
        i += 1;
    }
    proof {
        assert(cs@.subrange(start as int, n as int) =~= cs@.skip(start as int));
    }
    out
}

/// A kept parameter leaf extends a parameter list.
proof fn lemma_js_params_snoc_ident(
    cs: Seq<CstNode>,
    rs: Seq<UIRNode>,
    c: CstNode,
    r: UIRNode,
)
    requires
        js_params_rel(cs, rs),
        c.kind@ == "identifier"@,
        js_param_leaf(c, r),
    ensures
        js_params_rel(cs.push(c), rs.push(r)),
    decreases cs.len(),
{
    if cs.len() == 0 {
        assert(cs.push(c).drop_first() =~= cs);
        assert(rs.push(r).drop_first() =~= rs);
        assert(rs.push(r)[0] == r);
    } else {
        assert(cs.push(c)[0] == cs[0]);
        assert(cs.push(c).drop_first() =~= cs.drop_first().push(c));
        if cs[0].kind@ == "identifier"@ {
            assert(rs.push(r)[0] == rs[0]);
            assert(rs.push(r).drop_first() =~= rs.drop_first().push(r));
            lemma_js_params_snoc_ident(cs.drop_first(), rs.drop_first(), c, r);
        } else {
            lemma_js_params_snoc_ident(cs.drop_first(), rs, c, r);
        }
    }
}

/// A non-identifier child leaves a parameter list unchanged.
proof fn lemma_js_params_snoc_skip(cs: Seq<CstNode>, rs: Seq<UIRNode>, c: CstNode)
    requires
        js_params_rel(cs, rs),
        c.kind@ != "identifier"@,
    ensures
        js_params_rel(cs.push(c), rs),
    decreases cs.len(),
{
    if cs.len() == 0 {
        assert(cs.push(c)[0] == c);
        assert(cs.push(c).drop_first() =~= cs);
    } else {
        assert(cs.push(c)[0] == cs[0]);
        assert(cs.push(c).drop_first() =~= cs.drop_first().push(c));
        if cs[0].kind@ == "identifier"@ {
            lemma_js_params_snoc_skip(cs.drop_first(), rs.drop_first(), c);
        } else {
            lemma_js_params_snoc_skip(cs.drop_first(), rs, c);
        }
    }
}

/// Extracts the parameter leaves of a parameter list.
fn js_extract_params(p: &CstNode) -> (r: Vec<UIRNode>)
    ensures
        js_params_rel(p.children@, r@),
{
    let mut out: Vec<UIRNode> = Vec::new();
    let n = p.children.len();
    proof {
        assert(p.children@.take(0) =~= Seq::<CstNode>::empty());
    }
    let mut i: usize = 0;
    while i < n
        invariant
            i <= n,
            n == p.children@.len(),
            js_params_rel(p.children@.take(i as int), out@),
        decreases n - i,
    {
        let ch = &p.children[i];
        proof {
            assert(p.children@.take(i + 1) =~= p.children@.take(i as int).push(
                p.children@[i as int],
            ));
        }
        if crate::strutil::str_eq(ch.kind.as_str(), "identifier") {
            let leaf = js_node(ch, NodeType::Variable, Some(ch.text.clone()), Vec::new());
            proof {
                lemma_js_params_snoc_ident(
                    p.children@.take(i as int),
                    out@,
                    p.children@[i as int],
                    leaf,
                );
            }
            out.push(leaf);
        } else {
            proof {
                lemma_js_params_snoc_skip(p.children@.take(i as int), out@, p.children@[i as int]);
            }
        }
        i += 1;
    }
    proof {
        assert(p.children@.take(n as int) =~= p.children@);
    }
    out
}

/// A declarator with an identifier extends a declaration's children.
proof fn lemma_js_decls_snoc_kept(
    cs: Seq<CstNode>,
    rs: Seq<UIRNode>,
    c: CstNode,
    r: UIRNode,
)
    requires
        js_declarators_rel(cs, rs),
        c.kind@ == "variable_declarator"@,
        first_child_of_kind(c.children@, "identifier"@) is Some,
        js_declarator_rel(c, r),
    ensures
        js_declarators_rel(cs.push(c), rs.push(r)),
    decreases cs.len(),
{
    if cs.len() == 0 {
        assert(cs.push(c).drop_first() =~= cs);
        assert(rs.push(r).drop_first() =~= rs);
        assert(rs.push(r)[0] == r);
    } else {
        assert(cs.push(c)[0] == cs[0]);
        assert(cs.push(c).drop_first() =~= cs.drop_first().push(c));
        if cs[0].kind@ == "variable_declarator"@ && first_child_of_kind(
            cs[0].children@,
            "identifier"@,
        ) is Some {
            assert(rs.push(r)[0] == rs[0]);
            assert(rs.push(r).drop_first() =~= rs.drop_first().push(r));
            lemma_js_decls_snoc_kept(cs.drop_first(), rs.drop_first(), c, r);
        } else {
            lemma_js_decls_snoc_kept(cs.drop_first(), rs, c, r);
        }
    }
}

/// Any other child leaves a declaration's children unchanged.
proof fn lemma_js_decls_snoc_skip(cs: Seq<CstNode>, rs: Seq<UIRNode>, c: CstNode)
    requires
        js_declarators_rel(cs, rs),
        !(c.kind@ == "variable_declarator"@ && first_child_of_kind(
            c.children@,
            "identifier"@,
        ) is Some),
    ensures
        js_declarators_rel(cs.push(c), rs),
    decreases cs.len(),
{
    if cs.len() == 0 {
        assert(cs.push(c)[0] == c);
        assert(cs.push(c).drop_first() =~= cs);
    } else {
        assert(cs.push(c)[0] == cs[0]);
        assert(cs.push(c).drop_first() =~= cs.drop_first().push(c));
        if cs[0].kind@ == "variable_declarator"@ && first_child_of_kind(
            cs[0].children@,
            "identifier"@,
        ) is Some {
            lemma_js_decls_snoc_skip(cs.drop_first(), rs.drop_first(), c);
        } else {
            lemma_js_decls_snoc_skip(cs.drop_first(), rs, c);
        }
    }
}

/// A converted condition or branch extends a conditional's children.
proof fn lemma_js_if_snoc_kept(cs: Seq<CstNode>, rs: Seq<UIRNode>, c: CstNode, r: UIRNode)
    requires
        js_if_rel(cs, rs),
        (c.kind@ == "parenthesized_expression"@ && js_condition_of(c) is Some && js_rel(
            js_condition_of(c)->Some_0,
            r,
        )) || ((c.kind@ == "statement_block"@ || c.kind@ == "expression_statement"@) && js_rel(
            c,
            r,
        )),
    ensures
        js_if_rel(cs.push(c), rs.push(r)),
    decreases cs.len(),
{
    js_reveal_kinds();
    if cs.len() == 0 {
        assert(cs.push(c)[0] == c);
        assert(cs.push(c).drop_first() =~= cs);
        assert(rs.push(r).drop_first() =~= rs);
        assert(rs.push(r)[0] == r);
    } else {
        assert(cs.push(c)[0] == cs[0]);
        assert(cs.push(c).drop_first() =~= cs.drop_first().push(c));
        let kept0 = if cs[0].kind@ == "parenthesized_expression"@ {
            js_condition_of(cs[0]) is Some
        } else {
            cs[0].kind@ == "statement_block"@ || cs[0].kind@ == "expression_statement"@
        };
        if kept0 {
            assert(rs.push(r)[0] == rs[0]);
            assert(rs.push(r).drop_first() =~= rs.drop_first().push(r));
            lemma_js_if_snoc_kept(cs.drop_first(), rs.drop_first(), c, r);
        } else {
            lemma_js_if_snoc_kept(cs.drop_first(), rs, c, r);
        }
    }
}

/// A skipped child leaves a conditional's children unchanged.
proof fn lemma_js_if_snoc_skip(cs: Seq<CstNode>, rs: Seq<UIRNode>, c: CstNode)
    requires
        js_if_rel(cs, rs),
        c.kind@ == "parenthesized_expression"@ ==> js_condition_of(c) is None,
        c.kind@ != "statement_block"@,
        c.kind@ != "expression_statement"@,
    ensures
        js_if_rel(cs.push(c), rs),
    decreases cs.len(),
{
    js_reveal_kinds();
    if cs.len() == 0 {
        assert(cs.push(c)[0] == c);
        assert(cs.push(c).drop_first() =~= cs);
    } else {
        assert(cs.push(c)[0] == cs[0]);
        assert(cs.push(c).drop_first() =~= cs.drop_first().push(c));
        let kept0 = if cs[0].kind@ == "parenthesized_expression"@ {
            js_condition_of(cs[0]) is Some
        } else {
            cs[0].kind@ == "statement_block"@ || cs[0].kind@ == "expression_statement"@
        };
        if kept0 {
            lemma_js_if_snoc_skip(cs.drop_first(), rs.drop_first(), c);
        } else {
            lemma_js_if_snoc_skip(cs.drop_first(), rs, c);
        }
    }
}

/// Finds the initializer of a declarator: among the children after the
/// first, the first that is neither an identifier nor an equals sign.
fn js_find_initializer(d: &CstNode) -> (r: Option<&CstNode>)
    requires
        d.children@.len() > 0,
    ensures
        match r {
            Some(e) => js_initializer_of(d.children@.drop_first()) == Some(*e),
            None => js_initializer_of(d.children@.drop_first()) is None,
        },
{
    let n = d.children.len();
    proof {
        assert(d.children@.drop_first().skip(0) =~= d.children@.drop_first());
    }
    let mut i: usize = 1;
    while i < n
        invariant
            1 <= i <= n,
            n == d.children@.len(),
            js_initializer_of(d.children@.drop_first()) == js_initializer_of(
                d.children@.drop_first().skip(i - 1),
            ),
        decreases n - i,
    {
        let ch = &d.children[i];
        proof {
            assert(d.children@.drop_first().skip(i - 1)[0] == d.children@[i as int]);
            assert(d.children@.drop_first().skip(i - 1).drop_first() =~= d.children@.drop_first(
            ).skip(i as int));
        }
        if !(crate::strutil::str_eq(ch.kind.as_str(), "identifier") || crate::strutil::str_eq(
            ch.kind.as_str(),
            "=",
        )) {
            return Some(ch);
        }
        i += 1;
    }
    proof {
        assert(d.children@.drop_first().skip(n - 1).len() == 0);
    }
    None
}

/// Finds the expression body of an arrow function: among the children
/// after the first, the first that is not an arrow, a parameter list or an
/// identifier.
fn js_find_arrow_body(c: &CstNode) -> (r: Option<&CstNode>)
    requires
        c.children@.len() > 0,
    ensures
        match r {
            Some(e) => js_arrow_body_of(c.children@.drop_first()) == Some(*e),
            None => js_arrow_body_of(c.children@.drop_first()) is None,
        },
{
    let n = c.children.len();
    proof {
        assert(c.children@.drop_first().skip(0) =~= c.children@.drop_first());
    }
    let mut i: usize = 1;
    while i < n
        invariant
            1 <= i <= n,
            n == c.children@.len(),
            js_arrow_body_of(c.children@.drop_first()) == js_arrow_body_of(
                c.children@.drop_first().skip(i - 1),
            ),
        decreases n - i,
    {
        let ch = &c.children[i];
        proof {
            assert(c.children@.drop_first().skip(i - 1)[0] == c.children@[i as int]);
            assert(c.children@.drop_first().skip(i - 1).drop_first() =~= c.children@.drop_first(
            ).skip(i as int));
        }
        if !(crate::strutil::str_eq(ch.kind.as_str(), "=>") || crate::strutil::str_eq(
            ch.kind.as_str(),
            "formal_parameters",
        ) || crate::strutil::str_eq(ch.kind.as_str(), "identifier")) {
            return Some(ch);
        }
        i += 1;
    }
    proof {
        assert(c.children@.drop_first().skip(n - 1).len() == 0);
    }
    None
}


/// A construct kind whose conversion can fail for want of a name.
pub open spec fn js_decl_kind(k: Seq<char>) -> bool {
    ||| k == "function_declaration"@
    ||| k == "class_declaration"@
    ||| k == "method_definition"@
}

/// The JavaScript grammar's kind literals are pairwise distinct where the
/// conversion rules tell them apart.
proof fn js_reveal_kinds()
    ensures
        !js_decl_kind("program"@),
        !js_decl_kind("arrow_function"@),
        !js_decl_kind("variable_declaration"@),
        !js_decl_kind("return_statement"@),
        !js_decl_kind("if_statement"@),
        !js_decl_kind("call_expression"@),
        !js_decl_kind("binary_expression"@),
        !js_decl_kind("identifier"@),
        !js_decl_kind("member_expression"@),
        !js_decl_kind("number"@),
        !js_decl_kind("string"@),
        !js_decl_kind("true"@),
        !js_decl_kind("false"@),
        !js_decl_kind("statement_block"@),
        !js_decl_kind("expression_statement"@),
        !js_decl_kind("parenthesized_expression"@),
        "parenthesized_expression"@ != "statement_block"@,
        "parenthesized_expression"@ != "expression_statement"@,
        "statement_block"@ != "expression_statement"@,
        "function_declaration"@ != "class_declaration"@,
        "function_declaration"@ != "method_definition"@,
        "class_declaration"@ != "method_definition"@,
{
    reveal_strlit("program");
    reveal_strlit("function_declaration");
    reveal_strlit("method_definition");
    reveal_strlit("arrow_function");
    reveal_strlit("class_declaration");
    reveal_strlit("variable_declaration");
    reveal_strlit("return_statement");
    reveal_strlit("if_statement");
    reveal_strlit("call_expression");
    reveal_strlit("binary_expression");
    reveal_strlit("identifier");
    reveal_strlit("number");
    reveal_strlit("string");
    reveal_strlit("true");
    reveal_strlit("false");
    reveal_strlit("statement_block");
    reveal_strlit("parenthesized_expression");
    reveal_strlit("expression_statement");
    reveal_strlit("member_expression");
    assert("function_declaration"@.len() == 20);
    assert("class_declaration"@.len() == 17);
    assert("method_definition"@.len() == 17);
    assert("program"@.len() == 7);
    assert("arrow_function"@.len() == 14);
    assert("variable_declaration"@.len() == 20);
    assert("variable_declaration"@[0] == 'v');
    assert("function_declaration"@[0] == 'f');
    assert("return_statement"@.len() == 16);
    assert("if_statement"@.len() == 12);
    assert("call_expression"@.len() == 15);
    assert("binary_expression"@.len() == 17);
    assert("binary_expression"@[0] == 'b');
    assert("class_declaration"@[0] == 'c');
    assert("method_definition"@[0] == 'm');
    assert("identifier"@.len() == 10);
    assert("member_expression"@.len() == 17);
    assert("member_expression"@[1] == 'e');
    assert("method_definition"@[1] == 'e');
    assert("member_expression"@[2] == 'm');
    assert("method_definition"@[2] == 't');
    assert("number"@.len() == 6);
    assert("string"@.len() == 6);
    assert("true"@.len() == 4);
    assert("false"@.len() == 5);
    assert("statement_block"@.len() == 15);
    assert("expression_statement"@.len() == 20);
    assert("expression_statement"@[0] == 'e');
    assert("parenthesized_expression"@.len() == 24);
}

/// Converts one JavaScript grammar node and its subtree onto the UIR.
/// Fails exactly when a declaration-like construct lacks a name.
pub fn js_ast_to_uir(c: &CstNode) -> (r: Result<UIRNode, CoalesceError>)
    ensures
        r is Ok <==> js_ok(*c),
        r matches Ok(u) ==> js_rel(*c, u),
        r matches Err(e) ==> e matches CoalesceError::ParseError { line, column, .. } && line
            == spec_line_of(c.start_row) && column == c.start_col,
    decreases *c, 2int, 0int,
{
    proof {
        js_reveal_kinds();
    }
    let k = c.kind.as_str();
    if crate::strutil::str_eq(k, "program") {
        proof {
            assert(decreases_to!(*c => c.children));
            assert(decreases_to!(c.children => c.children@));
        }
        let children = js_convert_list(JsWalk::All, &c.children, 0);
        proof {
            assert(c.children@.skip(0) =~= c.children@);
        }
        Ok(js_node(c, NodeType::Module, Some(String::from_str("javascript_program")), children))
    } else if crate::strutil::str_eq(k, "function_declaration") || crate::strutil::str_eq(
        k,
        "method_definition",
    ) {
        let name = if crate::strutil::str_eq(k, "function_declaration") {
            match c.find_child("identifier") {
                Some(nn) => Some(nn.text.clone()),
                None => None,
            }
        } else {
            match c.find_child("property_identifier") {
                Some(nn) => Some(nn.text.clone()),
                None => match c.find_child("identifier") {
                    Some(nn) => Some(nn.text.clone()),
                    None => None,
                },
            }
        };
        let name = match name {
            Some(nm) => nm,
            None => {
                let message = if crate::strutil::str_eq(k, "function_declaration") {
                    String::from_str("Function missing name")
                } else {
                    String::from_str("Method missing name")
                };
                return Err(
                    CoalesceError::ParseError {
                        message,
                        line: crate::normalize::line_of(c.start_row),
                        column: c.start_col,
                    },
                );
            },
        };
        let mut children = match c.find_child("formal_parameters") {
            Some(p) => {
                proof {
                    lemma_found_child_decreases(*c, "formal_parameters"@, "formal_parameters"@);
                }
                js_extract_params(p)
            },
            None => Vec::new(),
        };
        let ghost m = children@.len() as int;
        let ghost params_view = children@;
        let mut body = match c.find_child("statement_block") {
            Some(b) => {
                proof {
                    lemma_found_child_decreases(*c, "statement_block"@, "statement_block"@);
                    assert(decreases_to!(b => b.children));
                    assert(decreases_to!(b.children => b.children@));
                }
                let bl = js_convert_list(JsWalk::Body, &b.children, 0);
                proof {
                    assert(b.children@.skip(0) =~= b.children@);
                }
                bl
            },
            None => Vec::new(),
        };
        let ghost body_view = body@;
        children.append(&mut body);
        proof {
            assert(children@.take(m) =~= params_view);
            assert(children@.skip(m) =~= body_view);
            assert(js_fn_split(*c, children@, m));
            match first_child_of_kind(c.children@, "formal_parameters"@) {
                Some(p) => {
                    lemma_js_params_len(p.children@, children@.take(m));
                },
                None => {},
            }
            assert(js_fn_m(*c) == m);
        }
        Ok(js_node(c, NodeType::Function, Some(name), children))
    } else if crate::strutil::str_eq(k, "arrow_function") {
        let mut children = match c.find_child("formal_parameters") {
            Some(p) => {
                proof {
                    lemma_found_child_decreases(*c, "formal_parameters"@, "formal_parameters"@);
                }
                js_extract_params(p)
            },
            None => {
                match c.find_child("identifier") {
                    Some(p) => {
                        let leaf = js_node(
                            p,
                            NodeType::Variable,
                            Some(p.text.clone()),
                            Vec::new(),
                        );
                        let mut v: Vec<UIRNode> = Vec::new();
                        v.push(leaf);
                        v
                    },
                    None => Vec::new(),
                }
            },
        };
        let ghost m = children@.len() as int;
        let ghost params_view = children@;
        let mut body: Vec<UIRNode> = match c.find_child("statement_block") {
            Some(b) => {
                proof {
                    lemma_found_child_decreases(*c, "statement_block"@, "statement_block"@);
                    assert(decreases_to!(b => b.children));
                    assert(decreases_to!(b.children => b.children@));
                }
                let bl = js_convert_list(JsWalk::Body, &b.children, 0);
                proof {
                    assert(b.children@.skip(0) =~= b.children@);
                }
                bl
            },
            None => {
                let mut v: Vec<UIRNode> = Vec::new();
                if c.children.len() > 0 {
                    match js_find_arrow_body(c) {
                        Some(e) => {
                            proof {
                                lemma_arrow_body_membership(c.children@.drop_first());
                                let rest = c.children@.drop_first();
                                let i = choose|i: int| 0 <= i < rest.len() && rest[i] == *e;
                                assert(c.children@[i + 1] == *e);
                                assert(decreases_to!(c.children@ => c.children@[i + 1]));
                            }
                            match js_ast_to_uir(e) {
                                Ok(u) => {
                                    v.push(u);
                                },
                                Err(_) => {},
                            }
                        },
                        None => {},
                    }
                }
                v
            },
        };
        let ghost body_view = body@;
        children.append(&mut body);
        proof {
            assert(children@.take(m) =~= params_view);
            assert(children@.skip(m) =~= body_view);
            assert(js_arrow_split(*c, children@, m));
            match first_child_of_kind(c.children@, "formal_parameters"@) {
                Some(p) => {
                    lemma_js_params_len(p.children@, children@.take(m));
                },
                None => {},
            }
            assert(js_arrow_m(*c) == m);
        }
        Ok(js_node(c, NodeType::Function, Some(String::from_str("arrow_function")), children))
    } else if crate::strutil::str_eq(k, "class_declaration") {
        let name = match c.find_child("identifier") {
            Some(nn) => nn.text.clone(),
            None => {
                return Err(
                    CoalesceError::ParseError {
                        message: String::from_str("Class missing name"),
                        line: crate::normalize::line_of(c.start_row),
                        column: c.start_col,
                    },
                );
            },
        };
        let children = match c.find_child("class_body") {
            Some(b) => {
                proof {
                    lemma_found_child_decreases(*c, "class_body"@, "class_body"@);
                    assert(decreases_to!(b => b.children));
                    assert(decreases_to!(b.children => b.children@));
                }
                let bl = js_convert_list(JsWalk::All, &b.children, 0);
                proof {
                    assert(b.children@.skip(0) =~= b.children@);
                }
                bl
            },
            None => Vec::new(),
        };
        Ok(js_node(c, NodeType::Class, Some(name), children))
    } else if crate::strutil::str_eq(k, "variable_declaration") {
        let children = js_convert_declarators(c);
        Ok(
            js_node(
                c,
                NodeType::Statement(StatementType::Expression),
                Some(String::from_str("variable_declaration")),
                children,
            ),
        )
    } else if crate::strutil::str_eq(k, "return_statement") {
        let children = if c.children.len() > 0 {
            proof {
                assert(decreases_to!(*c => c.children));
                assert(decreases_to!(c.children => c.children@));
            }
            js_convert_list(JsWalk::ReturnRest, &c.children, 1)
        } else {
            Vec::new()
        };
        proof {
            if c.children@.len() > 0 {
                assert(c.children@.skip(1) =~= c.children@.drop_first());
            }
        }
        Ok(js_node(c, NodeType::Statement(StatementType::Return), None, children))
    } else if crate::strutil::str_eq(k, "if_statement") {
        let children = js_convert_if_children(c);
        Ok(
            js_node(
                c,
                NodeType::ControlFlow(ControlFlowType::Conditional),
                Some(String::from_str("if_statement")),
                children,
            ),
        )
    } else if crate::strutil::str_eq(k, "call_expression") {
        let mut children: Vec<UIRNode> = Vec::new();
        let callee = match c.find_child("identifier") {
            Some(f) => Some(f),
            None => c.find_child("member_expression"),
        };
        match callee {
            Some(f) => {
                proof {
                    if first_child_of_kind(c.children@, "identifier"@) is Some {
                        lemma_found_child_decreases(*c, "identifier"@, "identifier"@);
                    } else {
                        lemma_found_child_decreases(
                            *c,
                            "member_expression"@,
                            "member_expression"@,
                        );
                    }
                }
                match js_ast_to_uir(f) {
                    Ok(u) => {
                        children.push(u);
                    },
                    Err(_) => {
                        proof {
                            crate::cst::lemma_first_child_kind(
                                c.children@,
                                "identifier"@,
                                "identifier"@,
                            );
                            crate::cst::lemma_first_child_kind(
                                c.children@,
                                "member_expression"@,
                                "member_expression"@,
                            );
                            assert(js_ok(*f));
                        }
                    },
                }
            },
            None => {},
        }
        let ghost m = children@.len() as int;
        let ghost callee_view = children@;
        let mut args: Vec<UIRNode> = match c.find_child("arguments") {
            Some(a) => {
                proof {
                    lemma_found_child_decreases(*c, "arguments"@, "arguments"@);
                    assert(decreases_to!(a => a.children));
                    assert(decreases_to!(a.children => a.children@));
                }
                let al = js_convert_list(JsWalk::CallArgs, &a.children, 0);
                proof {
                    assert(a.children@.skip(0) =~= a.children@);
                }
                al
            },
            None => Vec::new(),
        };
        let ghost args_view = args@;
        children.append(&mut args);
        proof {
            assert(children@.take(m) =~= callee_view);
            assert(children@.skip(m) =~= args_view);
            assert(js_call_split(*c, children@, m));
            assert(js_call_m(*c) == m);
        }
        Ok(js_node(c, NodeType::Expression(ExpressionType::FunctionCall), None, children))
    } else if crate::strutil::str_eq(k, "binary_expression") {
        proof {
            assert(decreases_to!(*c => c.children));
            assert(decreases_to!(c.children => c.children@));
        }
        let children = js_convert_list(JsWalk::Binary, &c.children, 0);
        proof {
            assert(c.children@.skip(0) =~= c.children@);
        }
        Ok(js_node(c, NodeType::Expression(ExpressionType::Arithmetic), None, children))
    } else if crate::strutil::str_eq(k, "identifier") {
        Ok(
            js_node(
                c,
                NodeType::Expression(ExpressionType::Variable),
                Some(c.text.clone()),
                Vec::new(),
            ),
        )
    } else if crate::strutil::str_eq(k, "number") || crate::strutil::str_eq(k, "string")
        || crate::strutil::str_eq(k, "true") || crate::strutil::str_eq(k, "false") {
        Ok(js_node(c, NodeType::Expression(ExpressionType::Literal), None, Vec::new()))
    } else {
        proof {
            assert(decreases_to!(*c => c.children));
            assert(decreases_to!(c.children => c.children@));
        }
        let node_type = crate::mapping::map_kind_js(k);
        let children = js_convert_list(JsWalk::All, &c.children, 0);
        proof {
            assert(c.children@.skip(0) =~= c.children@);
        }
        Ok(js_node(c, node_type, Some(c.kind.clone()), children))
    }
}

/// Converts the declarators of a variable declaration.
fn js_convert_declarators(c: &CstNode) -> (r: Vec<UIRNode>)
    ensures
        js_declarators_rel(c.children@, r@),
    decreases *c, 1int, 0int,
{
    let mut out: Vec<UIRNode> = Vec::new();
    let n = c.children.len();
    proof {
        js_reveal_kinds();
        assert(c.children@.take(0) =~= Seq::<CstNode>::empty());
    }
    let mut i: usize = 0;
    while i < n
        invariant
            i <= n,
            n == c.children@.len(),
            js_declarators_rel(c.children@.take(i as int), out@),
        decreases n - i,
    {
        proof {
            js_reveal_kinds();
        }
        let d = &c.children[i];
        proof {
            assert(c.children@.take(i + 1) =~= c.children@.take(i as int).push(
                c.children@[i as int],
            ));
        }
        let mut kept = false;
        if crate::strutil::str_eq(d.kind.as_str(), "variable_declarator") {
            match d.find_child("identifier") {
                Some(nn) => {
                    let name = nn.text.clone();
                    let mut var_children: Vec<UIRNode> = Vec::new();
                    if d.children.len() > 0 {
                        match js_find_initializer(d) {
                            Some(init) => {
                                proof {
                                    lemma_child_decreases(*c, i as int);
                                    lemma_initializer_membership(d.children@.drop_first());
                                    let rest = d.children@.drop_first();
                                    let j = choose|j: int|
                                        0 <= j < rest.len() && rest[j] == *init;
                                    assert(d.children@[j + 1] == *init);
                                    assert(decreases_to!(d.children@ => d.children@[j + 1]));
                                }
                                match js_ast_to_uir(init) {
                                    Ok(u) => {
                                        var_children.push(u);
                                    },
                                    Err(_) => {},
                                }
                            },
                            None => {},
                        }
                    }
                    let var_node = js_node(d, NodeType::Variable, Some(name), var_children);
                    proof {
                        assert(js_declarator_rel(c.children@[i as int], var_node));
                        lemma_js_decls_snoc_kept(
                            c.children@.take(i as int),
                            out@,
                            c.children@[i as int],
                            var_node,
                        );
                    }
                    out.push(var_node);
                    kept = true;
                },
                None => {},
            }
        }
        if !kept {
            proof {
                lemma_js_decls_snoc_skip(c.children@.take(i as int), out@, c.children@[i as int]);
            }
        }
        i += 1;
    }
    proof {
        assert(c.children@.take(n as int) =~= c.children@);
    }
    out
}

/// Converts the children of a conditional: extracted conditions and
/// converted branches.
fn js_convert_if_children(c: &CstNode) -> (r: Vec<UIRNode>)
    ensures
        js_if_rel(c.children@, r@),
    decreases *c, 1int, 0int,
{
    let mut out: Vec<UIRNode> = Vec::new();
    let n = c.children.len();
    proof {
        js_reveal_kinds();
        assert(c.children@.take(0) =~= Seq::<CstNode>::empty());
    }
    let mut i: usize = 0;
    while i < n
        invariant
            i <= n,
            n == c.children@.len(),
            js_if_rel(c.children@.take(i as int), out@),
        decreases n - i,
    {
        proof {
            js_reveal_kinds();
        }
        let ch = &c.children[i];
        proof {
            assert(c.children@.take(i + 1) =~= c.children@.take(i as int).push(
                c.children@[i as int],
            ));
        }
        if crate::strutil::str_eq(ch.kind.as_str(), "parenthesized_expression") {
            let cond = match ch.find_child("binary_expression") {
                Some(x) => Some(x),
                None => match ch.find_child("identifier") {
                    Some(x) => Some(x),
                    None => ch.find_child("call_expression"),
                },
            };
            match cond {
                Some(x) => {
                    proof {
                        lemma_child_decreases(*c, i as int);
                        lemma_first_child_membership(
                            ch.children@,
                            "binary_expression"@,
                            "binary_expression"@,
                        );
                        lemma_first_child_membership(ch.children@, "identifier"@, "identifier"@);
                        lemma_first_child_membership(
                            ch.children@,
                            "call_expression"@,
                            "call_expression"@,
                        );
                        let j = choose|j: int|
                            0 <= j < ch.children@.len() && ch.children@[j] == *x;
                        lemma_child_decreases(*ch, j);
                    }
                    match js_ast_to_uir(x) {
                        Ok(u) => {
                            proof {
                                lemma_js_if_snoc_kept(
                                    c.children@.take(i as int),
                                    out@,
                                    c.children@[i as int],
                                    u,
                                );
                            }
                            out.push(u);
                        },
                        Err(_) => {
                            proof {
                                crate::cst::lemma_first_child_kind(
                                    ch.children@,
                                    "binary_expression"@,
                                    "binary_expression"@,
                                );
                                crate::cst::lemma_first_child_kind(
                                    ch.children@,
                                    "identifier"@,
                                    "identifier"@,
                                );
                                crate::cst::lemma_first_child_kind(
                                    ch.children@,
                                    "call_expression"@,
                                    "call_expression"@,
                                );
                                assert(js_ok(*x));
                            }
                        },
                    }
                },
                None => {
                    proof {
                        lemma_js_if_snoc_skip(c.children@.take(i as int), out@, c.children@[i as int]);
                    }
                },
            }
        } else if crate::strutil::str_eq(ch.kind.as_str(), "statement_block")
            || crate::strutil::str_eq(ch.kind.as_str(), "expression_statement") {
            proof {
                lemma_child_decreases(*c, i as int);
            }
            match js_ast_to_uir(ch) {
                Ok(u) => {
                    proof {
                        lemma_js_if_snoc_kept(
                            c.children@.take(i as int),
                            out@,
                            c.children@[i as int],
                            u,
                        );
                    }
                    out.push(u);
                },
                Err(_) => {
                    proof {
                        assert(js_ok(*ch));
                    }
                },
            }
        } else {
            proof {
                lemma_js_if_snoc_skip(c.children@.take(i as int), out@, c.children@[i as int]);
            }
        }
        i += 1;
    }
    proof {
        assert(c.children@.take(n as int) =~= c.children@);
    }
    out
}

/// The JavaScript front end.
pub struct JavaScriptParser {}

impl JavaScriptParser {
    /// A new JavaScript front end.
    pub fn new() -> (r: Result<JavaScriptParser, CoalesceError>)
        ensures
            r is Ok,
    {
        Ok(JavaScriptParser {  })
    }

    /// Normalizes JavaScript source text onto the UIR. When the grammar
    /// engine reports syntax errors, a partial-parse marker node is
    /// returned instead of failing; the call fails only when the engine
    /// yields no tree at all or the tree's root cannot be converted.
    pub fn parse(&self, source: &str) -> (r: Result<UIRNode, CoalesceError>)
        ensures
            js_cst(source@) is None ==> (r matches Err(e) && (e matches
                CoalesceError::ParseError { message, line, column } && message@
                == "Failed to parse source code"@ && line == 0 && column == 0)),
            js_cst(source@) matches Some(c) ==> {
                &&& c.has_error ==> (r matches Ok(u) && js_recovery_rel(c, u))
                &&& !c.has_error && js_ok(c) ==> (r matches Ok(u) && js_rel(c, u))
                &&& !c.has_error && !js_ok(c) ==> r is Err
            },
    {
        match ts_parse_js(source) {
            Some(c) => {
                if c.has_error {
                    Ok(js_recovery_node(&c))
                } else {
                    js_ast_to_uir(&c)
                }
            },
            None => Err(
                CoalesceError::ParseError {
                    message: String::from_str("Failed to parse source code"),
                    line: 0,
                    column: 0,
                },
            ),
        }
    }
}

/// Builds the partial-parse marker node for a tree with syntax errors.
fn js_recovery_node(c: &CstNode) -> (r: UIRNode)
    ensures
        js_recovery_rel(*c, r),
{
    let count = count_error_nodes(c);
    let line: u32 = match find_first_err_row(c) {
        Some(row) => crate::normalize::line_of(row),
        None => 0,
    };
    let mut msg = String::from_str("Parse errors found: ");
    let cs = crate::strutil::u64_to_string(count);
    msg.append(cs.as_str());
    msg.append(" error nodes. First error at line ");
    let ls = crate::strutil::u32_to_string(line);
    msg.append(ls.as_str());
    let mut annotations = crate::uir::Annotations::empty();
    annotations.parse_error = Some(msg);
    let metadata = crate::uir::Metadata {
        source_language: Language::JavaScript,
        semantic_tags: Vec::new(),
        dependencies: Vec::new(),
        annotations,
        legacy_patterns: Vec::new(),
    };
    UIRNode {
        id: String::from_str("error_recovery"),
        node_type: NodeType::Module,
        name: Some(String::from_str("partial_parse")),
        children: Vec::new(),
        metadata,
        source_location: None,
    }
}

/// Pointwise identifier agreement joins over concatenation.
proof fn lemma_ids_agree_concat(
    a1: Seq<UIRNode>,
    b1: Seq<UIRNode>,
    a2: Seq<UIRNode>,
    b2: Seq<UIRNode>,
)
    requires
        ids_agree_seq(a1, a2),
        ids_agree_seq(b1, b2),
    ensures
        ids_agree_seq(a1 + b1, a2 + b2),
    decreases a1.len(),
{
    if a1.len() == 0 {
        assert(a1 + b1 =~= b1);
        assert(a2 + b2 =~= b2);
    } else {
        assert((a1 + b1)[0] == a1[0]);
        assert((a2 + b2)[0] == a2[0]);
        assert((a1 + b1).drop_first() =~= a1.drop_first() + b1);
        assert((a2 + b2).drop_first() =~= a2.drop_first() + b2);
        lemma_ids_agree_concat(a1.drop_first(), b1, a2.drop_first(), b2);
    }
}

/// Two singleton lists of identifier-agreeing nodes agree.
proof fn lemma_ids_agree_single(x: UIRNode, y: UIRNode, rs1: Seq<UIRNode>, rs2: Seq<UIRNode>)
    requires
        ids_agree(x, y),
        rs1 =~= seq![x],
        rs2 =~= seq![y],
    ensures
        ids_agree_seq(rs1, rs2),
{
    assert(rs1[0] == x);
    assert(rs2[0] == y);
    assert(rs1.drop_first() =~= Seq::<UIRNode>::empty());
    assert(rs2.drop_first() =~= Seq::<UIRNode>::empty());
    assert(ids_agree_seq(rs1.drop_first(), rs2.drop_first()));
}

/// Two parameter-leaf lists for one parameter list agree on identifiers.
proof fn lemma_js_params_det(cs: Seq<CstNode>, rs1: Seq<UIRNode>, rs2: Seq<UIRNode>)
    requires
        js_params_rel(cs, rs1),
        js_params_rel(cs, rs2),
    ensures
        ids_agree_seq(rs1, rs2),
    decreases cs,
{
    if cs.len() == 0 {
    } else if cs[0].kind@ == "identifier"@ {
        assert(ids_agree(rs1[0], rs2[0])) by {
            assert(ids_agree_seq(rs1[0].children@, rs2[0].children@));
        }
        lemma_js_params_det(cs.drop_first(), rs1.drop_first(), rs2.drop_first());
    } else {
        lemma_js_params_det(cs.drop_first(), rs1, rs2);
    }
}

/// Two walked lists over one child list agree on identifiers.
proof fn lemma_js_list_det(m: JsWalk, cs: Seq<CstNode>, rs1: Seq<UIRNode>, rs2: Seq<UIRNode>)
    requires
        js_list_rel(m, cs, rs1),
        js_list_rel(m, cs, rs2),
    ensures
        ids_agree_seq(rs1, rs2),
    decreases cs, 0int,
{
    if cs.len() == 0 {
    } else if js_skipped(m, cs[0]) || !js_ok(cs[0]) {
        lemma_js_list_det(m, cs.drop_first(), rs1, rs2);
    } else {
        assert(decreases_to!(cs => cs[0]));
        lemma_js_deterministic(cs[0], rs1[0], rs2[0]);
        lemma_js_list_det(m, cs.drop_first(), rs1.drop_first(), rs2.drop_first());
    }
}

/// Two conditional child lists over one child list agree on identifiers.
proof fn lemma_js_if_det(cs: Seq<CstNode>, rs1: Seq<UIRNode>, rs2: Seq<UIRNode>)
    requires
        js_if_rel(cs, rs1),
        js_if_rel(cs, rs2),
    ensures
        ids_agree_seq(rs1, rs2),
    decreases cs, 0int,
{
    if cs.len() == 0 {
    } else if cs[0].kind@ == "parenthesized_expression"@ {
        match js_condition_of(cs[0]) {
            Some(cond) => {
                let p = cs[0];
                assert(decreases_to!(cs => cs[0]));
                lemma_first_child_membership(
                    p.children@,
                    "binary_expression"@,
                    "binary_expression"@,
                );
                lemma_first_child_membership(p.children@, "identifier"@, "identifier"@);
                lemma_first_child_membership(p.children@, "call_expression"@, "call_expression"@);
                let i = choose|i: int| 0 <= i < p.children@.len() && p.children@[i] == cond;
                lemma_child_decreases(p, i);
                lemma_js_deterministic(cond, rs1[0], rs2[0]);
                lemma_js_if_det(cs.drop_first(), rs1.drop_first(), rs2.drop_first());
            },
            None => {
                lemma_js_if_det(cs.drop_first(), rs1, rs2);
            },
        }
    } else if cs[0].kind@ == "statement_block"@ || cs[0].kind@ == "expression_statement"@ {
        assert(decreases_to!(cs => cs[0]));
        lemma_js_deterministic(cs[0], rs1[0], rs2[0]);
        lemma_js_if_det(cs.drop_first(), rs1.drop_first(), rs2.drop_first());
    } else {
        lemma_js_if_det(cs.drop_first(), rs1, rs2);
    }
}

/// Two declared variables for one declarator agree on identifiers.
proof fn lemma_js_declarator_det(d: CstNode, r1: UIRNode, r2: UIRNode)
    requires
        js_declarator_rel(d, r1),
        js_declarator_rel(d, r2),
    ensures
        ids_agree(r1, r2),
    decreases d, 1int,
{
    if d.children@.len() > 0 {
        let rest = d.children@.drop_first();
        match js_initializer_of(rest) {
            Some(init) => {
                if js_ok(init) {
                    lemma_initializer_membership(rest);
                    let i = choose|i: int| 0 <= i < rest.len() && rest[i] == init;
                    assert(d.children@[i + 1] == init);
                    assert(decreases_to!(d => d.children));
                    assert(decreases_to!(d.children => d.children@));
                    assert(decreases_to!(d.children@ => d.children@[i + 1]));
                    lemma_js_deterministic(init, r1.children@[0], r2.children@[0]);
                    lemma_ids_agree_single(
                        r1.children@[0],
                        r2.children@[0],
                        r1.children@,
                        r2.children@,
                    );
                } else {
                    assert(ids_agree_seq(r1.children@, r2.children@));
                }
            },
            None => {
                assert(ids_agree_seq(r1.children@, r2.children@));
            },
        }
    } else {
        assert(ids_agree_seq(r1.children@, r2.children@));
    }
}

/// Two declaration child lists over one child list agree on identifiers.
proof fn lemma_js_decls_det(cs: Seq<CstNode>, rs1: Seq<UIRNode>, rs2: Seq<UIRNode>)
    requires
        js_declarators_rel(cs, rs1),
        js_declarators_rel(cs, rs2),
    ensures
        ids_agree_seq(rs1, rs2),
    decreases cs, 0int,
{
    if cs.len() == 0 {
    } else if cs[0].kind@ == "variable_declarator"@ && first_child_of_kind(
        cs[0].children@,
        "identifier"@,
    ) is Some {
        assert(decreases_to!(cs => cs[0]));
        lemma_js_declarator_det(cs[0], rs1[0], rs2[0]);
        lemma_js_decls_det(cs.drop_first(), rs1.drop_first(), rs2.drop_first());
    } else {
        lemma_js_decls_det(cs.drop_first(), rs1, rs2);
    }
}

/// Two function child lists for one node agree on identifiers.
proof fn lemma_js_fn_children_det(c: CstNode, rs1: Seq<UIRNode>, rs2: Seq<UIRNode>)
    requires
        js_fn_children(c, rs1),
        js_fn_children(c, rs2),
    ensures
        ids_agree_seq(rs1, rs2),
    decreases c, 2int,
{
    let m = js_fn_m(c);
    match first_child_of_kind(c.children@, "formal_parameters"@) {
        Some(p) => {
            lemma_found_child_decreases(c, "formal_parameters"@, "formal_parameters"@);
            assert(decreases_to!(p => p.children));
            assert(decreases_to!(p.children => p.children@));
            lemma_js_params_det(p.children@, rs1.take(m), rs2.take(m));
        },
        None => {
            assert(rs1.take(0) =~= Seq::<UIRNode>::empty());
            assert(rs2.take(0) =~= Seq::<UIRNode>::empty());
            assert(ids_agree_seq(rs1.take(m), rs2.take(m)));
        },
    }
    match first_child_of_kind(c.children@, "statement_block"@) {
        Some(b) => {
            lemma_found_child_decreases(c, "statement_block"@, "statement_block"@);
            assert(decreases_to!(b => b.children));
            assert(decreases_to!(b.children => b.children@));
            lemma_js_list_det(JsWalk::Body, b.children@, rs1.skip(m), rs2.skip(m));
        },
        None => {
            assert(rs1.skip(m).len() == 0);
            assert(rs2.skip(m).len() == 0);
            assert(ids_agree_seq(rs1.skip(m), rs2.skip(m)));
        },
    }
    lemma_ids_agree_concat(rs1.take(m), rs1.skip(m), rs2.take(m), rs2.skip(m));
    assert(rs1.take(m) + rs1.skip(m) =~= rs1);
    assert(rs2.take(m) + rs2.skip(m) =~= rs2);
}

/// Two arrow-function child lists for one node agree on identifiers.
proof fn lemma_js_arrow_children_det(c: CstNode, rs1: Seq<UIRNode>, rs2: Seq<UIRNode>)
    requires
        js_arrow_children(c, rs1),
        js_arrow_children(c, rs2),
    ensures
        ids_agree_seq(rs1, rs2),
    decreases c, 2int,
{
    let m = js_arrow_m(c);
    match first_child_of_kind(c.children@, "formal_parameters"@) {
        Some(p) => {
            lemma_found_child_decreases(c, "formal_parameters"@, "formal_parameters"@);
            assert(decreases_to!(p => p.children));
            assert(decreases_to!(p.children => p.children@));
            lemma_js_params_det(p.children@, rs1.take(m), rs2.take(m));
        },
        None => {
            match first_child_of_kind(c.children@, "identifier"@) {
                Some(_) => {
                    assert(ids_agree(rs1[0], rs2[0])) by {
                        assert(ids_agree_seq(rs1[0].children@, rs2[0].children@));
                    }
                    assert(rs1.take(1) =~= seq![rs1[0]]);
                    assert(rs2.take(1) =~= seq![rs2[0]]);
                    lemma_ids_agree_single(rs1[0], rs2[0], rs1.take(1), rs2.take(1));
                },
                None => {
                    assert(rs1.take(0) =~= Seq::<UIRNode>::empty());
                    assert(rs2.take(0) =~= Seq::<UIRNode>::empty());
                    assert(ids_agree_seq(rs1.take(m), rs2.take(m)));
                },
            }
        },
    }
    match first_child_of_kind(c.children@, "statement_block"@) {
        Some(b) => {
            lemma_found_child_decreases(c, "statement_block"@, "statement_block"@);
            assert(decreases_to!(b => b.children));
            assert(decreases_to!(b.children => b.children@));
            lemma_js_list_det(JsWalk::Body, b.children@, rs1.skip(m), rs2.skip(m));
        },
        None => {
            if c.children@.len() > 0 {
                let rest = c.children@.drop_first();
                match js_arrow_body_of(rest) {
                    Some(e) => {
                        if js_ok(e) {
                            lemma_arrow_body_membership(rest);
                            let i = choose|i: int| 0 <= i < rest.len() && rest[i] == e;
                            assert(c.children@[i + 1] == e);
                            assert(decreases_to!(c => c.children));
                            assert(decreases_to!(c.children => c.children@));
                            assert(decreases_to!(c.children@ => c.children@[i + 1]));
                            lemma_js_deterministic(e, rs1[m], rs2[m]);
                            assert(rs1.skip(m) =~= seq![rs1[m]]);
                            assert(rs2.skip(m) =~= seq![rs2[m]]);
                            lemma_ids_agree_single(rs1[m], rs2[m], rs1.skip(m), rs2.skip(m));
                        } else {
                            assert(rs1.skip(m).len() == 0);
                            assert(rs2.skip(m).len() == 0);
                            assert(ids_agree_seq(rs1.skip(m), rs2.skip(m)));
                        }
                    },
                    None => {
                        assert(rs1.skip(m).len() == 0);
                        assert(rs2.skip(m).len() == 0);
                        assert(ids_agree_seq(rs1.skip(m), rs2.skip(m)));
                    },
                }
            } else {
                assert(rs1.skip(m).len() == 0);
                assert(rs2.skip(m).len() == 0);
                assert(ids_agree_seq(rs1.skip(m), rs2.skip(m)));
            }
        },
    }
    lemma_ids_agree_concat(rs1.take(m), rs1.skip(m), rs2.take(m), rs2.skip(m));
    assert(rs1.take(m) + rs1.skip(m) =~= rs1);
    assert(rs2.take(m) + rs2.skip(m) =~= rs2);
}

/// Two call-expression child lists for one node agree on identifiers.
proof fn lemma_js_call_children_det(c: CstNode, rs1: Seq<UIRNode>, rs2: Seq<UIRNode>)
    requires
        js_call_children(c, rs1),
        js_call_children(c, rs2),
    ensures
        ids_agree_seq(rs1, rs2),
    decreases c, 2int,
{
    let m = js_call_m(c);
    if m == 1 {
        match first_child_of_kind(c.children@, "identifier"@) {
            Some(f) => {
                lemma_found_child_decreases(c, "identifier"@, "identifier"@);
                lemma_js_deterministic(f, rs1[0], rs2[0]);
            },
            None => {
                let f = first_child_of_kind(c.children@, "member_expression"@)->Some_0;
                lemma_found_child_decreases(c, "member_expression"@, "member_expression"@);
                lemma_js_deterministic(f, rs1[0], rs2[0]);
            },
        }
        assert(rs1.take(1) =~= seq![rs1[0]]);
        assert(rs2.take(1) =~= seq![rs2[0]]);
        lemma_ids_agree_single(rs1[0], rs2[0], rs1.take(1), rs2.take(1));
    } else {
        assert(rs1.take(0) =~= Seq::<UIRNode>::empty());
        assert(rs2.take(0) =~= Seq::<UIRNode>::empty());
        assert(ids_agree_seq(rs1.take(m), rs2.take(m)));
    }
    match first_child_of_kind(c.children@, "arguments"@) {
        Some(a) => {
            lemma_found_child_decreases(c, "arguments"@, "arguments"@);
            assert(decreases_to!(a => a.children));
            assert(decreases_to!(a.children => a.children@));
            lemma_js_list_det(JsWalk::CallArgs, a.children@, rs1.skip(m), rs2.skip(m));
        },
        None => {
            assert(rs1.skip(m).len() == 0);
            assert(rs2.skip(m).len() == 0);
            assert(ids_agree_seq(rs1.skip(m), rs2.skip(m)));
        },
    }
    lemma_ids_agree_concat(rs1.take(m), rs1.skip(m), rs2.take(m), rs2.skip(m));
    assert(rs1.take(m) + rs1.skip(m) =~= rs1);
    assert(rs2.take(m) + rs2.skip(m) =~= rs2);
}

/// The JavaScript conversion is deterministic: two conversions of the same
/// grammar-engine node agree on the identifier of every node at every
/// position. Since a parse's tree is fixed by this relation over the named
/// grammar result, and the recovery node's identifier is a constant,
/// repeated parses of identical source text yield trees with identical
/// identifiers throughout.
pub proof fn lemma_js_deterministic(c: CstNode, r1: UIRNode, r2: UIRNode)
    requires
        js_rel(c, r1),
        js_rel(c, r2),
    ensures
        ids_agree(r1, r2),
    decreases c, 3int,
{
    let k = c.kind@;
    assert(decreases_to!(c => c.children));
    assert(decreases_to!(c.children => c.children@));
    if k == "program"@ {
        lemma_js_list_det(JsWalk::All, c.children@, r1.children@, r2.children@);
    } else if k == "function_declaration"@ || k == "method_definition"@ {
        lemma_js_fn_children_det(c, r1.children@, r2.children@);
    } else if k == "arrow_function"@ {
        lemma_js_arrow_children_det(c, r1.children@, r2.children@);
    } else if k == "class_declaration"@ {
        match first_child_of_kind(c.children@, "class_body"@) {
            Some(body) => {
                lemma_found_child_decreases(c, "class_body"@, "class_body"@);
                assert(decreases_to!(body => body.children));
                assert(decreases_to!(body.children => body.children@));
                lemma_js_list_det(JsWalk::All, body.children@, r1.children@, r2.children@);
            },
            None => {
                assert(ids_agree_seq(r1.children@, r2.children@));
            },
        }
    } else if k == "variable_declaration"@ {
        lemma_js_decls_det(c.children@, r1.children@, r2.children@);
    } else if k == "return_statement"@ {
        if c.children@.len() > 0 {
            let rest = c.children@.drop_first();
            assert(rest =~= c.children@.subrange(1, c.children@.len() as int));
            vstd::seq::axiom_seq_subrange_decreases(c.children@, 1, c.children@.len() as int);
            assert(decreases_to!(c.children@ => rest));
            lemma_js_list_det(JsWalk::ReturnRest, rest, r1.children@, r2.children@);
        } else {
            assert(ids_agree_seq(r1.children@, r2.children@));
        }
    } else if k == "if_statement"@ {
        lemma_js_if_det(c.children@, r1.children@, r2.children@);
    } else if k == "call_expression"@ {
        lemma_js_call_children_det(c, r1.children@, r2.children@);
    } else if k == "binary_expression"@ {
        lemma_js_list_det(JsWalk::Binary, c.children@, r1.children@, r2.children@);
    } else if k == "identifier"@ || k == "number"@ || k == "string"@ || k == "true"@ || k
        == "false"@ {
        assert(ids_agree_seq(r1.children@, r2.children@));
    } else {
        lemma_js_list_det(JsWalk::All, c.children@, r1.children@, r2.children@);
    }
}

} // verus!
