//! The shared normalization walker for grammar-engine trees: every node is
//! mapped by the language's table, named by the language's extraction
//! rules, given a deterministic identifier and debug metadata, and its
//! children are normalized in order with syntax-error children skipped.

use vstd::prelude::*;
use crate::cst::{lemma_child_decreases, CstNode};
use crate::ident::{generate_node_id, spec_node_id};
use crate::mapping::{
    map_kind_cpp, map_kind_csharp, map_kind_go, map_kind_rust, spec_map_kind_cpp,
    spec_map_kind_csharp, spec_map_kind_go, spec_map_kind_rust,
};
use crate::uir::{
    Annotations, Language, Metadata, NodeType, SourceLocation, UIRNode,
};

verus! {

/// Maximum length of a node's source text that is still recorded as a
/// debug annotation.
pub const DEBUG_TEXT_LIMIT: usize = 100;

/// One-based line of a zero-based row, saturating at the type's maximum.
pub open spec fn spec_line_of(row: u32) -> u32 {
    if row == u32::MAX {
        u32::MAX
    } else {
        (row + 1) as u32
    }
}

/// Converts a zero-based row to a one-based line.
pub fn line_of(row: u32) -> (r: u32)
    ensures
        r == spec_line_of(row),
{
    if row == u32::MAX {
        row
    } else {
        row + 1
    }
}

/// The languages normalized by the shared grammar-engine walker.
pub open spec fn is_ts_lang(lang: Language) -> bool {
    ||| lang == Language::C
    ||| lang == Language::Cpp
    ||| lang == Language::CSharp
    ||| lang == Language::Go
    ||| lang == Language::Rust
}

/// The mapping table of a walker language; C shares the C++ table.
pub open spec fn spec_ts_map(lang: Language, k: Seq<char>) -> NodeType {
    match lang {
        Language::CSharp => spec_map_kind_csharp(k),
        Language::Go => spec_map_kind_go(k),
        Language::Rust => spec_map_kind_rust(k),
        _ => spec_map_kind_cpp(k),
    }
}

/// Applies the mapping table of a walker language.
pub fn ts_map(lang: Language, k: &str) -> (r: NodeType)
    ensures
        r == spec_ts_map(lang, k@),
{
    match lang {
        Language::CSharp => map_kind_csharp(k),
        Language::Go => map_kind_go(k),
        Language::Rust => map_kind_rust(k),
        _ => map_kind_cpp(k),
    }
}

/// The name-extraction rules of a walker language.
pub open spec fn spec_ts_name(lang: Language, c: CstNode) -> Option<Seq<char>> {
    match lang {
        Language::CSharp => crate::csharp::spec_csharp_name(c),
        Language::Go => crate::go::spec_go_name(c),
        Language::Rust => crate::rust_parser::spec_rust_name(c),
        _ => crate::cpp::spec_cpp_name(c),
    }
}

/// Applies the name-extraction rules of a walker language.
pub fn ts_name(lang: Language, c: &CstNode) -> (r: Option<String>)
    ensures
        r.deep_view() == spec_ts_name(lang, *c),
{
    match lang {
        Language::CSharp => crate::csharp::csharp_name(c),
        Language::Go => crate::go::go_name(c),
        Language::Rust => crate::rust_parser::rust_name(c),
        _ => crate::cpp::cpp_name(c),
    }
}

/// Annotations holding only the debug copy of the node's source text,
/// recorded when the text is short.
pub open spec fn annotations_debug_only(a: Annotations, text: Seq<char>) -> bool {
    &&& a.original_text.deep_view() == if text.len() < DEBUG_TEXT_LIMIT as nat {
        Some(text)
    } else {
        None::<Seq<char>>
    }
    &&& a.value is None
    &&& a.parse_error is None
    &&& a.library_dependency is None
    &&& a.library_pattern is None
    &&& a.semantic_intent is None
    &&& a.transformed_from is None
    &&& a.transformed_to is None
    &&& a.generated_code is None
    &&& a.required_imports is None
    &&& a.setup_code is None
    &&& a.cleanup_code is None
    &&& a.fallback_implementation is None
    &&& a.requires_manual_implementation == false
    &&& a.extra@.len() == 0
}

/// Metadata the walker records on every node: the source language, one
/// semantic tag equal to the raw construct kind, and the debug text.
pub open spec fn metadata_normalized(lang: Language, c: CstNode, m: Metadata) -> bool {
    &&& m.source_language == lang
    &&& m.semantic_tags.deep_view() == seq![c.kind@]
    &&& m.dependencies@.len() == 0
    &&& m.legacy_patterns@.len() == 0
    &&& annotations_debug_only(m.annotations, c.text@)
}

/// The source span the walker records on every node: no file name,
/// one-based lines, zero-based columns.
pub open spec fn loc_of_cst(c: CstNode, loc: SourceLocation) -> bool {
    &&& loc.file@ == Seq::<char>::empty()
    &&& loc.start_line == spec_line_of(c.start_row)
    &&& loc.end_line == spec_line_of(c.end_row)
    &&& loc.start_column == c.start_col
    &&& loc.end_column == c.end_col
}

/// `r` is the normalization of the grammar-engine node `c` for the given
/// language: identifier, classification, name, metadata and span all follow
/// the language's rules, and the children are the normalizations of `c`'s
/// non-error children in order.
pub open spec fn uir_of_cst(lang: Language, c: CstNode, r: UIRNode) -> bool
    decreases c, 1int,
{
    &&& r.id@ == spec_node_id(c.kind@, c.start_row, c.start_col, c.text@)
    &&& r.node_type == spec_ts_map(lang, c.kind@)
    &&& r.name.deep_view() == spec_ts_name(lang, c)
    &&& metadata_normalized(lang, c, r.metadata)
    &&& match r.source_location {
        Some(loc) => loc_of_cst(c, loc),
        None => false,
    }
    &&& children_of_cst(lang, c.children@, r.children@)
}

/// `rs` is the normalization of the non-error nodes of `cs`, in order.
pub open spec fn children_of_cst(lang: Language, cs: Seq<CstNode>, rs: Seq<UIRNode>) -> bool
    decreases cs, 0int,
{
    if cs.len() == 0 {
        rs.len() == 0
    } else if cs[0].is_error {
        children_of_cst(lang, cs.drop_first(), rs)
    } else {
        &&& rs.len() > 0
        &&& uir_of_cst(lang, cs[0], rs[0])
        &&& children_of_cst(lang, cs.drop_first(), rs.drop_first())
    }
}

/// Extending a child list with a normalized non-error node extends the
/// children relation.
proof fn lemma_children_snoc_kept(
    lang: Language,
    cs: Seq<CstNode>,
    rs: Seq<UIRNode>,
    c: CstNode,
    r: UIRNode,
)
    requires
        children_of_cst(lang, cs, rs),
        !c.is_error,
        uir_of_cst(lang, c, r),
    ensures
        children_of_cst(lang, cs.push(c), rs.push(r)),
    decreases cs.len(),
{
    if cs.len() == 0 {
        assert(cs.push(c).drop_first() =~= cs);
        assert(rs.push(r).drop_first() =~= rs);
        assert(rs.push(r)[0] == r);
    } else {
        assert(cs.push(c)[0] == cs[0]);
        assert(cs.push(c).drop_first() =~= cs.drop_first().push(c));
        if cs[0].is_error {
            lemma_children_snoc_kept(lang, cs.drop_first(), rs, c, r);
        } else {
            assert(rs.push(r)[0] == rs[0]);
            assert(rs.push(r).drop_first() =~= rs.drop_first().push(r));
            lemma_children_snoc_kept(lang, cs.drop_first(), rs.drop_first(), c, r);
        }
    }
}

/// Extending a child list with a syntax-error node leaves the children
/// relation unchanged.
proof fn lemma_children_snoc_error(
    lang: Language,
    cs: Seq<CstNode>,
    rs: Seq<UIRNode>,
    c: CstNode,
)
    requires
        children_of_cst(lang, cs, rs),
        c.is_error,
    ensures
        children_of_cst(lang, cs.push(c), rs),
    decreases cs.len(),
{
    if cs.len() == 0 {
        assert(cs.push(c)[0] == c);
        assert(cs.push(c).drop_first() =~= cs);
    } else {
        assert(cs.push(c)[0] == cs[0]);
        assert(cs.push(c).drop_first() =~= cs.drop_first().push(c));
        if cs[0].is_error {
            lemma_children_snoc_error(lang, cs.drop_first(), rs, c);
        } else {
            lemma_children_snoc_error(lang, cs.drop_first(), rs.drop_first(), c);
        }
    }
}

/// Normalizes a grammar-engine node and its subtree onto the UIR.
pub fn cst_to_uir(lang: Language, c: &CstNode) -> (r: UIRNode)
    ensures
        uir_of_cst(lang, *c, r),
    decreases *c,
{
    let id = generate_node_id(c.kind.as_str(), c.start_row, c.start_col, c.text.as_str());
    let node_type = ts_map(lang, c.kind.as_str());
    let name = ts_name(lang, c);
    let n = c.children.len();
    let mut children: Vec<UIRNode> = Vec::new();
    proof {
        assert(c.children@.take(0) =~= Seq::<CstNode>::empty());
    }
    let mut i: usize = 0;
    while i < n
        invariant
            i <= n,
            n == c.children@.len(),
            children_of_cst(lang, c.children@.take(i as int), children@),
        decreases n - i,
    {
        let ch = &c.children[i];
        if !ch.is_error {
            proof {
                lemma_child_decreases(*c, i as int);
            }
            let cu = cst_to_uir(lang, ch);
            proof {
                lemma_children_snoc_kept(
                    lang,
                    c.children@.take(i as int),
                    children@,
                    c.children@[i as int],
                    cu,
                );
                assert(c.children@.take(i + 1) =~= c.children@.take(i as int).push(
                    c.children@[i as int],
                ));
            }
            children.push(cu);
        } else {
            proof {
                lemma_children_snoc_error(
                    lang,
                    c.children@.take(i as int),
                    children@,
                    c.children@[i as int],
                );
                assert(c.children@.take(i + 1) =~= c.children@.take(i as int).push(
                    c.children@[i as int],
                ));
            }
        }
        i += 1;
    }
    proof {
        assert(c.children@.take(n as int) =~= c.children@);
    }
    let mut tags: Vec<String> = Vec::new();
    tags.push(c.kind.clone());
    proof {
        assert(tags.deep_view() =~= seq![c.kind@]);
    }
    let mut annotations = Annotations::empty();
    if c.text.unicode_len() < DEBUG_TEXT_LIMIT {
        annotations.original_text = Some(c.text.clone());
    }
    proof {
        assert(annotations_debug_only(annotations, c.text@));
    }
    let metadata = Metadata {
        source_language: lang,
        semantic_tags: tags,
        dependencies: Vec::new(),
        annotations,
        legacy_patterns: Vec::new(),
    };
    let loc = SourceLocation {
        file: String::new(),
        start_line: line_of(c.start_row),
        end_line: line_of(c.end_row),
        start_column: c.start_col,
        end_column: c.end_col,
    };
    UIRNode { id, node_type, name, children, metadata, source_location: Some(loc) }
}

/// `a` and `b` carry the same identifier at every position of their
/// (equally shaped) trees.
pub open spec fn ids_agree(a: UIRNode, b: UIRNode) -> bool
    decreases a, 1int,
{
    &&& a.id@ == b.id@
    &&& ids_agree_seq(a.children@, b.children@)
}

/// Pointwise identifier agreement of two node sequences.
pub open spec fn ids_agree_seq(xs: Seq<UIRNode>, ys: Seq<UIRNode>) -> bool
    decreases xs, 0int,
{
    if xs.len() == 0 {
        ys.len() == 0
    } else {
        &&& ys.len() > 0
        &&& ids_agree(xs[0], ys[0])
        &&& ids_agree_seq(xs.drop_first(), ys.drop_first())
    }
}

/// Normalization is deterministic: two normalizations of the same
/// grammar-engine tree agree on the identifier of every node, because each
/// identifier is a function of the node's kind, position and text prefix
/// alone. Repeated parses of identical source text therefore yield UIR
/// trees with identical identifiers at every position.
pub proof fn lemma_normalization_deterministic(
    lang: Language,
    c: CstNode,
    r1: UIRNode,
    r2: UIRNode,
)
    requires
        uir_of_cst(lang, c, r1),
        uir_of_cst(lang, c, r2),
    ensures
        ids_agree(r1, r2),
    decreases c, 1int,
{
    lemma_normalization_deterministic_seq(lang, c.children@, r1.children@, r2.children@);
}

/// Child-list counterpart of the determinism law.
proof fn lemma_normalization_deterministic_seq(
    lang: Language,
    cs: Seq<CstNode>,
    rs1: Seq<UIRNode>,
    rs2: Seq<UIRNode>,
)
    requires
        children_of_cst(lang, cs, rs1),
        children_of_cst(lang, cs, rs2),
    ensures
        ids_agree_seq(rs1, rs2),
    decreases cs, 0int,
{
    if cs.len() == 0 {
    } else if cs[0].is_error {
        lemma_normalization_deterministic_seq(lang, cs.drop_first(), rs1, rs2);
    } else {
        lemma_normalization_deterministic(lang, cs[0], rs1[0], rs2[0]);
        lemma_normalization_deterministic_seq(
            lang,
            cs.drop_first(),
            rs1.drop_first(),
            rs2.drop_first(),
        );
    }
}

} // verus!
