//! A plain record of a concrete syntax tree as a grammar engine produced
//! it: node kind, source text, positions, error flags, and children. The
//! grammar engine itself is trusted; everything that reads a `CstNode` is
//! verified.

use vstd::prelude::*;

verus! {

/// One node of a concrete syntax tree, with the fields normalization
/// reads: the grammar's kind string, the node's source text, its zero-based
/// start and end positions, its byte range, the grammar engine's error and
/// extra flags, and its children in order.
#[derive(Debug)]
pub struct CstNode {
    pub kind: String,
    pub text: String,
    pub start_row: u32,
    pub start_col: u32,
    pub end_row: u32,
    pub end_col: u32,
    pub start_byte: usize,
    pub end_byte: usize,
    pub is_error: bool,
    pub has_error: bool,
    pub is_extra: bool,
    pub children: Vec<CstNode>,
}

/// The first node in `cs` whose kind is `k1` or `k2`.
pub open spec fn first_child_of_kinds(cs: Seq<CstNode>, k1: Seq<char>, k2: Seq<char>) -> Option<
    CstNode,
>
    decreases cs.len(),
{
    if cs.len() == 0 {
        None
    } else if cs[0].kind@ == k1 || cs[0].kind@ == k2 {
        Some(cs[0])
    } else {
        first_child_of_kinds(cs.drop_first(), k1, k2)
    }
}

/// The first node in `cs` whose kind is `k`.
pub open spec fn first_child_of_kind(cs: Seq<CstNode>, k: Seq<char>) -> Option<CstNode> {
    first_child_of_kinds(cs, k, k)
}

impl CstNode {
    /// Finds the first child whose kind is `k1` or `k2`.
    pub fn find_child2(&self, k1: &str, k2: &str) -> (r: Option<&CstNode>)
        ensures
            match r {
                Some(c) => first_child_of_kinds(self.children@, k1@, k2@) == Some(*c),
                None => first_child_of_kinds(self.children@, k1@, k2@) is None,
            },
    {
        let n = self.children.len();
        proof {
            assert(self.children@.skip(0) =~= self.children@);
        }
        let mut i: usize = 0;
        while i < n
            invariant
                i <= n,
                n == self.children@.len(),
                first_child_of_kinds(self.children@, k1@, k2@) == first_child_of_kinds(
                    self.children@.skip(i as int),
                    k1@,
                    k2@,
                ),
            decreases n - i,
        {
            proof {
                assert(self.children@.skip(i as int)[0] == self.children@[i as int]);
            }
            let c = &self.children[i];
            if crate::strutil::str_eq(c.kind.as_str(), k1) || crate::strutil::str_eq(
                c.kind.as_str(),
                k2,
            ) {
                return Some(c);
            }
            proof {
                assert(self.children@.skip(i as int).drop_first() =~= self.children@.skip(
                    i + 1,
                ));
            }
            i += 1;
        }
        proof {
            assert(self.children@.skip(n as int).len() == 0);
        }
        None
    }

    /// Finds the first child of kind `k`.
    pub fn find_child(&self, k: &str) -> (r: Option<&CstNode>)
        ensures
            match r {
                Some(c) => first_child_of_kind(self.children@, k@) == Some(*c),
                None => first_child_of_kind(self.children@, k@) is None,
            },
    {
        self.find_child2(k, k)
    }
}

/// Declares the grammar engine's node handle so trusted converters can
/// take it as a parameter.
#[verifier::external_type_specification]
#[verifier::external_body]
pub struct ExTsNode<'a>(tree_sitter::Node<'a>);

/// Converts a grammar-engine node and its subtree into the crate's plain
/// concrete-syntax-tree record, one node for one node. Relies on
/// tree_sitter::Node accessors: kind, start_position, end_position,
/// start_byte, end_byte, utf8_text, is_error, has_error, is_extra, and
/// child iteration in order. The recursion follows the tree's depth, and
/// positions are clamped to 32 bits.
#[verifier::external_body]
fn cst_of_ts_node(node: tree_sitter::Node<'_>, src: &[u8]) -> CstNode {
    let mut children = Vec::new();
    let mut cursor = node.walk();
    for ch in node.children(&mut cursor) {
        children.push(cst_of_ts_node(ch, src));
    }
    let (sp, ep) = (node.start_position(), node.end_position());
    CstNode {
        kind: node.kind().to_string(),
        text: node.utf8_text(src).unwrap_or("").to_string(),
        start_row: sp.row as u32, start_col: sp.column as u32,
        end_row: ep.row as u32, end_col: ep.column as u32,
        start_byte: node.start_byte(), end_byte: node.end_byte(),
        is_error: node.is_error(), has_error: node.has_error(), is_extra: node.is_extra(),
        children,
    }
}

/// The concrete syntax tree the C++ grammar produces for a source text, or
/// `None` when the engine yields no tree at all.
pub uninterp spec fn cpp_cst(source: Seq<char>) -> Option<CstNode>;

/// The concrete syntax tree the C# grammar produces for a source text.
pub uninterp spec fn csharp_cst(source: Seq<char>) -> Option<CstNode>;

/// The concrete syntax tree the Go grammar produces for a source text.
pub uninterp spec fn go_cst(source: Seq<char>) -> Option<CstNode>;

/// The concrete syntax tree the Rust grammar produces for a source text.
pub uninterp spec fn rust_cst(source: Seq<char>) -> Option<CstNode>;

/// The concrete syntax tree the JavaScript grammar produces for a source
/// text.
pub uninterp spec fn js_cst(source: Seq<char>) -> Option<CstNode>;

/// Relies on tree_sitter::Parser with the grammar of tree_sitter_cpp: with
/// a fixed grammar and no timeout, parsing is a pure function of the source
/// text.
#[verifier::external_body]
pub fn ts_parse_cpp(source: &str) -> (r: Option<CstNode>)
    ensures
        r == cpp_cst(source@),
{
    let mut parser = tree_sitter::Parser::new();
    if parser.set_language(&tree_sitter_cpp::LANGUAGE.into()).is_err() {
        return None;
    }
    parser.parse(source, None).map(|t| cst_of_ts_node(t.root_node(), source.as_bytes()))
}

/// Relies on tree_sitter::Parser with the grammar of tree_sitter_c_sharp:
/// with a fixed grammar and no timeout, parsing is a pure function of the
/// source text.
#[verifier::external_body]
pub fn ts_parse_csharp(source: &str) -> (r: Option<CstNode>)
    ensures
        r == csharp_cst(source@),
{
    let mut parser = tree_sitter::Parser::new();
    if parser.set_language(&tree_sitter_c_sharp::LANGUAGE.into()).is_err() {
        return None;
    }
    parser.parse(source, None).map(|t| cst_of_ts_node(t.root_node(), source.as_bytes()))
}

/// Relies on tree_sitter::Parser with the grammar of tree_sitter_go: with a
/// fixed grammar and no timeout, parsing is a pure function of the source
/// text.
#[verifier::external_body]
pub fn ts_parse_go(source: &str) -> (r: Option<CstNode>)
    ensures
        r == go_cst(source@),
{
    let mut parser = tree_sitter::Parser::new();
    if parser.set_language(&tree_sitter_go::LANGUAGE.into()).is_err() {
        return None;
    }
    parser.parse(source, None).map(|t| cst_of_ts_node(t.root_node(), source.as_bytes()))
}

/// Relies on tree_sitter::Parser with the grammar of tree_sitter_rust: with
/// a fixed grammar and no timeout, parsing is a pure function of the source
/// text.
#[verifier::external_body]
pub fn ts_parse_rust(source: &str) -> (r: Option<CstNode>)
    ensures
        r == rust_cst(source@),
{
    let mut parser = tree_sitter::Parser::new();
    if parser.set_language(&tree_sitter_rust::LANGUAGE.into()).is_err() {
        return None;
    }
    parser.parse(source, None).map(|t| cst_of_ts_node(t.root_node(), source.as_bytes()))
}

/// Relies on tree_sitter::Parser with the grammar of
/// tree_sitter_javascript: with a fixed grammar and no timeout, parsing is
/// a pure function of the source text.
#[verifier::external_body]
pub fn ts_parse_js(source: &str) -> (r: Option<CstNode>)
    ensures
        r == js_cst(source@),
{
    let mut parser = tree_sitter::Parser::new();
    if parser.set_language(&tree_sitter_javascript::LANGUAGE.into()).is_err() {
        return None;
    }
    parser.parse(source, None).map(|t| cst_of_ts_node(t.root_node(), source.as_bytes()))
}

/// A found first child is an element of the sequence it was found in.
pub proof fn lemma_first_child_membership(cs: Seq<CstNode>, k1: Seq<char>, k2: Seq<char>)
    ensures
        first_child_of_kinds(cs, k1, k2) matches Some(ch) ==> exists|i: int|
            0 <= i < cs.len() && cs[i] == ch,
    decreases cs.len(),
{
    if cs.len() > 0 && !(cs[0].kind@ == k1 || cs[0].kind@ == k2) {
        lemma_first_child_membership(cs.drop_first(), k1, k2);
        let r = first_child_of_kinds(cs, k1, k2);
        if r is Some {
            let ch = r->Some_0;
            let i = choose|i: int|
                0 <= i < cs.drop_first().len() && cs.drop_first()[i] == ch;
            assert(cs[i + 1] == ch);
        }
    }
}

/// A node strictly dominates each of its children in the termination
/// order.
pub proof fn lemma_child_decreases(c: CstNode, i: int)
    requires
        0 <= i < c.children@.len(),
    ensures
        decreases_to!(c => c.children@[i]),
{
    assert(decreases_to!(c => c.children));
    assert(decreases_to!(c.children => c.children@[i]));
}

/// A node strictly dominates a child found by kind.
pub proof fn lemma_found_child_decreases(c: CstNode, k1: Seq<char>, k2: Seq<char>)
    requires
        first_child_of_kinds(c.children@, k1, k2) is Some,
    ensures
        decreases_to!(c => first_child_of_kinds(c.children@, k1, k2)->Some_0),
{
    lemma_first_child_membership(c.children@, k1, k2);
    let ch = first_child_of_kinds(c.children@, k1, k2)->Some_0;
    let i = choose|i: int| 0 <= i < c.children@.len() && c.children@[i] == ch;
    lemma_child_decreases(c, i);
}

/// A found first child has one of the kinds it was searched by.
pub proof fn lemma_first_child_kind(cs: Seq<CstNode>, k1: Seq<char>, k2: Seq<char>)
    ensures
        first_child_of_kinds(cs, k1, k2) matches Some(ch) ==> ch.kind@ == k1 || ch.kind@ == k2,
    decreases cs.len(),
{
    if cs.len() > 0 && !(cs[0].kind@ == k1 || cs[0].kind@ == k2) {
        lemma_first_child_kind(cs.drop_first(), k1, k2);
    }
}

} // verus!
