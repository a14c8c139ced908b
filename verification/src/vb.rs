//! The Visual Basic front end: a degraded-fidelity front end that extracts
//! namespaces, modules, classes, functions, subs and properties from raw
//! text by targeted patterns. It produces a flat module with best-effort
//! line numbers and never claims full fidelity. Identifier classes are the
//! ASCII ones, so a parameter with a non-ASCII name is not extracted.

use vstd::prelude::*;
use vstd::string::StringSliceAdditionalSpecFns;
use vstd::utf8::encode_utf8;
use crate::errors::CoalesceError;
use crate::fsharp::match_group;
use crate::regexutil::{re_captures, re_ok, regex_captures, ReMatch};
use crate::strutil::{
    all_ident_chars, is_ident_char, lines_count, line_at, sat32, spec_line_at, spec_lines_count,
    spec_split_comma, spec_tokens, spec_trim, split_comma, tokens_of, trim_str,
};
use crate::uir::{Annotations, Language, Metadata, NodeType, SourceLocation, UIRNode};

verus! {

/// The namespace pattern.
pub open spec fn vb_ns_re() -> Seq<char> {
    r"(?mi)^Namespace\s+(?P<name>\w+(?:\.\w+)*)\s*$"@
}

/// The module pattern.
pub open spec fn vb_module_re() -> Seq<char> {
    r"(?mi)^(?:Public\s+|Private\s+)?Module\s+(?P<name>\w+)\s*$"@
}

/// The class pattern.
pub open spec fn vb_class_re() -> Seq<char> {
    r"(?mi)^(?:Public\s+|Private\s+)?Class\s+(?P<name>\w+)\s*$"@
}

/// The function pattern, with its parameter list.
pub open spec fn vb_func_re() -> Seq<char> {
    r"(?mi)^(?:Public\s+|Private\s+|Protected\s+)?Function\s+(?P<name>\w+)\s*\((?P<params>[^)]*)\)(?:\s+As\s+\w+)?\s*$"@
}

/// The sub pattern, with its parameter list.
pub open spec fn vb_sub_re() -> Seq<char> {
    r"(?mi)^(?:Public\s+|Private\s+|Protected\s+)?Sub\s+(?P<name>\w+)\s*\((?P<params>[^)]*)\)\s*$"@
}

/// The property pattern.
pub open spec fn vb_prop_re() -> Seq<char> {
    r"(?mi)^(?:Public\s+|Private\s+|Protected\s+)?Property\s+(?P<name>\w+)\s*(?:\([^)]*\))?\s*As\s+\w+\s*$"@
}

/// Metadata of a node this front end produces.
pub open spec fn vb_meta(m: Metadata, tag: Seq<char>, text: Option<Seq<char>>) -> bool {
    &&& m.source_language == Language::VisualBasic
    &&& m.semantic_tags.deep_view() == seq![tag]
    &&& m.dependencies@.len() == 0
    &&& m.legacy_patterns@.len() == 0
    &&& m.annotations.original_text.deep_view() == text
    &&& m.annotations.value is None
    &&& m.annotations.parse_error is None
    &&& m.annotations.library_dependency is None
    &&& m.annotations.library_pattern is None
    &&& m.annotations.semantic_intent is None
    &&& m.annotations.transformed_from is None
    &&& m.annotations.transformed_to is None
    &&& m.annotations.generated_code is None
    &&& m.annotations.required_imports is None
    &&& m.annotations.setup_code is None
    &&& m.annotations.cleanup_code is None
    &&& m.annotations.fallback_implementation is None
    &&& m.annotations.requires_manual_implementation == false
    &&& m.annotations.extra@.len() == 0
}

/// A flat leaf node of this front end.
pub open spec fn vb_simple_node(
    src: Seq<char>,
    m: ReMatch,
    name: Seq<char>,
    id_prefix: Seq<char>,
    nt: NodeType,
    tag: Seq<char>,
    r: UIRNode,
) -> bool {
    let line = spec_line_at(encode_utf8(src), m.start as int);
    &&& r.id@ == id_prefix + name
    &&& r.node_type == nt
    &&& r.name.deep_view() == Some(name)
    &&& r.children@.len() == 0
    &&& vb_meta(r.metadata, tag, Some(m.text@))
    &&& crate::fsharp::fs_loc(r.source_location, line, line, 0, sat32((m.end - m.start) as nat))
}

/// One flat node per match with a captured name, in order.
pub open spec fn vb_simple_list(
    src: Seq<char>,
    ms: Seq<ReMatch>,
    rs: Seq<UIRNode>,
    id_prefix: Seq<char>,
    nt: NodeType,
    tag: Seq<char>,
) -> bool
    decreases ms.len(),
{
    if ms.len() == 0 {
        rs.len() == 0
    } else {
        match match_group(ms[0], 0) {
            Some(name) => {
                &&& rs.len() > 0
                &&& vb_simple_node(src, ms[0], name, id_prefix, nt, tag, rs[0])
                &&& vb_simple_list(src, ms.drop_first(), rs.drop_first(), id_prefix, nt, tag)
            },
            None => vb_simple_list(src, ms.drop_first(), rs, id_prefix, nt, tag),
        }
    }
}

/// The comma-separated parameter pieces a callable declares.
pub open spec fn vb_param_pieces(params: Option<Seq<char>>) -> Seq<Seq<char>> {
    let p = match params {
        Some(x) => x,
        None => Seq::<char>::empty(),
    };
    let t = spec_trim(p);
    if t.len() == 0 {
        Seq::empty()
    } else {
        spec_split_comma(t, 0)
    }
}

/// One parameter leaf per piece whose first token is identifier-shaped.
pub open spec fn vb_param_list(line: u32, pieces: Seq<Seq<char>>, rs: Seq<UIRNode>) -> bool
    decreases pieces.len(),
{
    if pieces.len() == 0 {
        rs.len() == 0
    } else {
        let toks = spec_tokens(pieces[0], 0);
        if toks.len() > 0 && (forall|k: int|
            0 <= k < toks[0].len() ==> is_ident_char(#[trigger] toks[0][k])) {
            &&& rs.len() > 0
            &&& rs[0].id@ == "param_"@ + toks[0]
            &&& rs[0].node_type == NodeType::Variable
            &&& rs[0].name.deep_view() == Some(toks[0])
            &&& rs[0].children@.len() == 0
            &&& vb_meta(rs[0].metadata, "parameter"@, None)
            &&& crate::fsharp::fs_loc(rs[0].source_location, line, line, 0, sat32(toks[0].len()))
            &&& vb_param_list(line, pieces.drop_first(), rs.drop_first())
        } else {
            vb_param_list(line, pieces.drop_first(), rs)
        }
    }
}

/// One callable node per match with a captured name, carrying its
/// parameter leaves, in order.
pub open spec fn vb_callable_list(
    src: Seq<char>,
    ms: Seq<ReMatch>,
    rs: Seq<UIRNode>,
    id_prefix: Seq<char>,
    tag: Seq<char>,
) -> bool
    decreases ms.len(),
{
    if ms.len() == 0 {
        rs.len() == 0
    } else {
        match match_group(ms[0], 0) {
            Some(name) => {
                let m = ms[0];
                let line = spec_line_at(encode_utf8(src), m.start as int);
                &&& rs.len() > 0
                &&& rs[0].id@ == id_prefix + name
                &&& rs[0].node_type == NodeType::Function
                &&& rs[0].name.deep_view() == Some(name)
                &&& vb_meta(rs[0].metadata, tag, Some(m.text@))
                &&& crate::fsharp::fs_loc(
                    rs[0].source_location,
                    line,
                    line,
                    0,
                    sat32((m.end - m.start) as nat),
                )
                &&& vb_param_list(line, vb_param_pieces(match_group(m, 1)), rs[0].children@)
                &&& vb_callable_list(src, ms.drop_first(), rs.drop_first(), id_prefix, tag)
            },
            None => vb_callable_list(src, ms.drop_first(), rs, id_prefix, tag),
        }
    }
}

/// The nodes each pattern contributes; a pattern that does not compile
/// contributes none.
pub open spec fn vb_simple_of(
    src: Seq<char>,
    re: Seq<char>,
    rs: Seq<UIRNode>,
    id_prefix: Seq<char>,
    nt: NodeType,
    tag: Seq<char>,
) -> bool {
    if re_ok(re) {
        vb_simple_list(src, re_captures(re, src, seq!["name"@]), rs, id_prefix, nt, tag)
    } else {
        rs.len() == 0
    }
}

pub open spec fn vb_callable_of(
    src: Seq<char>,
    re: Seq<char>,
    rs: Seq<UIRNode>,
    id_prefix: Seq<char>,
    tag: Seq<char>,
) -> bool {
    if re_ok(re) {
        vb_callable_list(
            src,
            re_captures(re, src, seq!["name"@, "params"@]),
            rs,
            id_prefix,
            tag,
        )
    } else {
        rs.len() == 0
    }
}

/// `u` is the flat module this front end produces: the extracted
/// namespaces, then modules, classes, functions, subs and properties.
pub open spec fn vb_parsed(src: Seq<char>, u: UIRNode) -> bool {
    &&& u.id@ == "vb_program"@
    &&& u.node_type == NodeType::Module
    &&& u.name.deep_view() == Some("vb_program"@)
    &&& vb_meta(u.metadata, "source_file"@, None)
    &&& crate::fsharp::fs_loc(
        u.source_location,
        1,
        sat32(spec_lines_count(encode_utf8(src))),
        0,
        sat32((encode_utf8(src).len() as usize) as nat),
    )
    &&& exists|k1: int, k2: int, k3: int, k4: int, k5: int|
        {
            &&& 0 <= k1 <= k2 <= k3 <= k4 <= k5 <= u.children@.len()
            &&& vb_simple_of(
                src,
                vb_ns_re(),
                #[trigger] u.children@.subrange(0, k1),
                "namespace_"@,
                NodeType::Module,
                "namespace"@,
            )
            &&& vb_simple_of(
                src,
                vb_module_re(),
                #[trigger] u.children@.subrange(k1, k2),
                "module_"@,
                NodeType::Module,
                "module"@,
            )
            &&& vb_simple_of(
                src,
                vb_class_re(),
                #[trigger] u.children@.subrange(k2, k3),
                "class_"@,
                NodeType::Class,
                "class"@,
            )
            &&& vb_callable_of(
                src,
                vb_func_re(),
                #[trigger] u.children@.subrange(k3, k4),
                "func_"@,
                "function"@,
            )
            &&& vb_callable_of(
                src,
                vb_sub_re(),
                #[trigger] u.children@.subrange(k4, k5),
                "sub_"@,
                "sub"@,
            )
            &&& vb_simple_of(
                src,
                vb_prop_re(),
                u.children@.subrange(k5, u.children@.len() as int),
                "prop_"@,
                NodeType::Variable,
                "property"@,
            )
        }
}

/// A kept match extends a flat-node list; a skipped one leaves it
/// unchanged.
proof fn lemma_vb_simple_snoc(
    src: Seq<char>,
    ms: Seq<ReMatch>,
    rs: Seq<UIRNode>,
    m: ReMatch,
    id_prefix: Seq<char>,
    nt: NodeType,
    tag: Seq<char>,
    kept: Option<UIRNode>,
)
    requires
        vb_simple_list(src, ms, rs, id_prefix, nt, tag),
        match kept {
            Some(r) => match_group(m, 0) is Some && vb_simple_node(
                src,
                m,
                match_group(m, 0)->Some_0,
                id_prefix,
                nt,
                tag,
                r,
            ),
            None => match_group(m, 0) is None,
        },
    ensures
        match kept {
            Some(r) => vb_simple_list(src, ms.push(m), rs.push(r), id_prefix, nt, tag),
            None => vb_simple_list(src, ms.push(m), rs, id_prefix, nt, tag),
        },
    decreases ms.len(),
{
    if ms.len() == 0 {
        assert(ms.push(m)[0] == m);
        assert(ms.push(m).drop_first() =~= ms);
        if kept is Some {
            let r = kept->Some_0;
            assert(rs.push(r)[0] == r);
            assert(rs.push(r).drop_first() =~= rs);
        }
    } else {
        assert(ms.push(m)[0] == ms[0]);
        assert(ms.push(m).drop_first() =~= ms.drop_first().push(m));
        match match_group(ms[0], 0) {
            Some(_) => {
                if kept is Some {
                    let r = kept->Some_0;
                    assert(rs.push(r)[0] == rs[0]);
                    assert(rs.push(r).drop_first() =~= rs.drop_first().push(r));
                }
                lemma_vb_simple_snoc(
                    src,
                    ms.drop_first(),
                    rs.drop_first(),
                    m,
                    id_prefix,
                    nt,
                    tag,
                    kept,
                );
            },
            None => {
                lemma_vb_simple_snoc(src, ms.drop_first(), rs, m, id_prefix, nt, tag, kept);
            },
        }
    }
}

/// A kept match extends a callable list; a skipped one leaves it
/// unchanged.
proof fn lemma_vb_callable_snoc(
    src: Seq<char>,
    ms: Seq<ReMatch>,
    rs: Seq<UIRNode>,
    m: ReMatch,
    id_prefix: Seq<char>,
    tag: Seq<char>,
    kept: Option<UIRNode>,
)
    requires
        vb_callable_list(src, ms, rs, id_prefix, tag),
        match kept {
            Some(r) => {
                let name = match_group(m, 0)->Some_0;
                let line = spec_line_at(encode_utf8(src), m.start as int);
                &&& match_group(m, 0) is Some
                &&& r.id@ == id_prefix + name
                &&& r.node_type == NodeType::Function
                &&& r.name.deep_view() == Some(name)
                &&& vb_meta(r.metadata, tag, Some(m.text@))
                &&& crate::fsharp::fs_loc(
                    r.source_location,
                    line,
                    line,
                    0,
                    sat32((m.end - m.start) as nat),
                )
                &&& vb_param_list(line, vb_param_pieces(match_group(m, 1)), r.children@)
            },
            None => match_group(m, 0) is None,
        },
    ensures
        match kept {
            Some(r) => vb_callable_list(src, ms.push(m), rs.push(r), id_prefix, tag),
            None => vb_callable_list(src, ms.push(m), rs, id_prefix, tag),
        },
    decreases ms.len(),
{
    if ms.len() == 0 {
        assert(ms.push(m)[0] == m);
        assert(ms.push(m).drop_first() =~= ms);
        if kept is Some {
            let r = kept->Some_0;
            assert(rs.push(r)[0] == r);
            assert(rs.push(r).drop_first() =~= rs);
        }
    } else {
        assert(ms.push(m)[0] == ms[0]);
        assert(ms.push(m).drop_first() =~= ms.drop_first().push(m));
        match match_group(ms[0], 0) {
            Some(_) => {
                if kept is Some {
                    let r = kept->Some_0;
                    assert(rs.push(r)[0] == rs[0]);
                    assert(rs.push(r).drop_first() =~= rs.drop_first().push(r));
                }
                lemma_vb_callable_snoc(
                    src,
                    ms.drop_first(),
                    rs.drop_first(),
                    m,
                    id_prefix,
                    tag,
                    kept,
                );
            },
            None => {
                lemma_vb_callable_snoc(src, ms.drop_first(), rs, m, id_prefix, tag, kept);
            },
        }
    }
}

/// A piece extends a parameter list when its first token is
/// identifier-shaped and leaves it unchanged otherwise.
proof fn lemma_vb_param_snoc(
    line: u32,
    pieces: Seq<Seq<char>>,
    rs: Seq<UIRNode>,
    p: Seq<char>,
    kept: Option<UIRNode>,
)
    requires
        vb_param_list(line, pieces, rs),
        match kept {
            Some(r) => {
                let toks = spec_tokens(p, 0);
                &&& toks.len() > 0
                &&& (forall|k: int| 0 <= k < toks[0].len() ==> is_ident_char(#[trigger] toks[0][k]))
                &&& r.id@ == "param_"@ + toks[0]
                &&& r.node_type == NodeType::Variable
                &&& r.name.deep_view() == Some(toks[0])
                &&& r.children@.len() == 0
                &&& vb_meta(r.metadata, "parameter"@, None)
                &&& crate::fsharp::fs_loc(r.source_location, line, line, 0, sat32(toks[0].len()))
            },
            None => !(spec_tokens(p, 0).len() > 0 && (forall|k: int|
                0 <= k < spec_tokens(p, 0)[0].len() ==> is_ident_char(
                    #[trigger] spec_tokens(p, 0)[0][k],
                ))),
        },
    ensures
        match kept {
            Some(r) => vb_param_list(line, pieces.push(p), rs.push(r)),
            None => vb_param_list(line, pieces.push(p), rs),
        },
    decreases pieces.len(),
{
    if pieces.len() == 0 {
        assert(pieces.push(p)[0] == p);
        assert(pieces.push(p).drop_first() =~= pieces);
        if kept is Some {
            let r = kept->Some_0;
            assert(rs.push(r)[0] == r);
            assert(rs.push(r).drop_first() =~= rs);
        }
    } else {
        assert(pieces.push(p)[0] == pieces[0]);
        assert(pieces.push(p).drop_first() =~= pieces.drop_first().push(p));
        let toks0 = spec_tokens(pieces[0], 0);
        if toks0.len() > 0 && (forall|k: int|
            0 <= k < toks0[0].len() ==> is_ident_char(#[trigger] toks0[0][k])) {
            if kept is Some {
                let r = kept->Some_0;
                assert(rs.push(r)[0] == rs[0]);
                assert(rs.push(r).drop_first() =~= rs.drop_first().push(r));
            }
            lemma_vb_param_snoc(line, pieces.drop_first(), rs.drop_first(), p, kept);
        } else {
            lemma_vb_param_snoc(line, pieces.drop_first(), rs, p, kept);
        }
    }
}

/// The Visual Basic front end.
pub struct VisualBasicParser {}

impl VisualBasicParser {
    /// A new Visual Basic front end.
    pub fn new() -> (r: Result<VisualBasicParser, CoalesceError>)
        ensures
            r is Ok,
    {
        Ok(VisualBasicParser {  })
    }

    /// Extracts the flat nodes of one simple construct pattern.
    fn parse_simple(
        source: &str,
        pattern: &str,
        id_prefix: &str,
        nt: NodeType,
        tag: &str,
    ) -> (r: Vec<UIRNode>)
        ensures
            vb_simple_of(source@, pattern@, r@, id_prefix@, nt, tag@),
    {
        let mut names: Vec<String> = Vec::new();
        names.push(String::from_str("name"));
        proof {
            assert(names.deep_view() =~= seq!["name"@]);
        }
        let mut out: Vec<UIRNode> = Vec::new();
        let ms = match regex_captures(pattern, source, &names) {
            Some(ms) => ms,
            None => {
                return out;
            },
        };
        let n = ms.len();
        proof {
            assert(ms@.take(0) =~= Seq::<ReMatch>::empty());
        }
        let mut i: usize = 0;
        while i < n
            invariant
                i <= n,
                n == ms@.len(),
                ms@ == re_captures(pattern@, source@, seq!["name"@]),
                re_ok(pattern@),
                forall|x: int|
                    0 <= x < ms@.len() ==> (#[trigger] ms@[x]).groups@.len() == 1 && ms@[x].start
                        <= ms@[x].end <= source.spec_bytes().len(),
                vb_simple_list(source@, ms@.take(i as int), out@, id_prefix@, nt, tag@),
            decreases n - i,
        {
            let m = &ms[i];
            proof {
                assert(ms@.take(i + 1) =~= ms@.take(i as int).push(ms@[i as int]));
            }
            match &m.groups[0] {
                Some(name) => {
                    let mut id = String::from_str(id_prefix);
                    id.append(name.as_str());
                    let mut tags: Vec<String> = Vec::new();
                    tags.push(String::from_str(tag));
                    proof {
                        assert(tags.deep_view() =~= seq![tag@]);
                    }
                    let mut annotations = Annotations::empty();
                    annotations.original_text = Some(m.text.clone());
                    let metadata = Metadata {
                        source_language: Language::VisualBasic,
                        semantic_tags: tags,
                        dependencies: Vec::new(),
                        annotations,
                        legacy_patterns: Vec::new(),
                    };
                    let line = line_at(source, m.start);
                    let loc = SourceLocation {
                        file: String::new(),
                        start_line: line,
                        end_line: line,
                        start_column: 0,
                        end_column: crate::strutil::sat32_of(m.end - m.start),
                    };
                    let node = UIRNode {
                        id,
                        node_type: nt,
                        name: Some(name.clone()),
                        children: Vec::new(),
                        metadata,
                        source_location: Some(loc),
                    };
                    proof {
                        lemma_vb_simple_snoc(
                            source@,
                            ms@.take(i as int),
                            out@,
                            ms@[i as int],
                            id_prefix@,
                            nt,
                            tag@,
                            Some(node),
                        );
                    }
                    out.push(node);
                },
                None => {
                    proof {
                        lemma_vb_simple_snoc(
                            source@,
                            ms@.take(i as int),
                            out@,
                            ms@[i as int],
                            id_prefix@,
                            nt,
                            tag@,
                            None,
                        );
                    }
                },
            }
            i += 1;
        }
        proof {
            assert(ms@.take(n as int) =~= ms@);
        }
        out
    }

    /// Extracts the parameter leaves a callable declares.
    fn parse_params(params: Option<&String>, line: u32) -> (r: Vec<UIRNode>)
        ensures
            vb_param_list(
                line,
                vb_param_pieces(
                    match params {
                        Some(p) => Some(p@),
                        None => None::<Seq<char>>,
                    },
                ),
                r@,
            ),
    {
        let mut out: Vec<UIRNode> = Vec::new();
        let ptext: &str = match params {
            Some(p) => p.as_str(),
            None => "",
        };
        proof {
            if params is None {
                reveal_strlit("");
                assert(""@ =~= Seq::<char>::empty());
            }
        }
        let trimmed = trim_str(ptext);
        if trimmed.as_str().unicode_len() == 0 {
            proof {
                assert(vb_param_pieces(
                    match params {
                        Some(p) => Some(p@),
                        None => None::<Seq<char>>,
                    },
                ) =~= Seq::<Seq<char>>::empty());
            }
            return out;
        }
        let pieces = split_comma(trimmed.as_str());
        let ghost pv = pieces.deep_view();
        let n = pieces.len();
        proof {
            assert(pv.take(0) =~= Seq::<Seq<char>>::empty());
        }
        let mut i: usize = 0;
        while i < n
            invariant
                i <= n,
                n == pieces@.len(),
                pv == pieces.deep_view(),
                pv == vb_param_pieces(
                    match params {
                        Some(p) => Some(p@),
                        None => None::<Seq<char>>,
                    },
                ),
                vb_param_list(line, pv.take(i as int), out@),
            decreases n - i,
        {
            let piece = &pieces[i];
            proof {
                assert(pv.take(i + 1) =~= pv.take(i as int).push(pv[i as int]));
                assert(pv[i as int] == pieces@[i as int]@);
            }
            let toks = tokens_of(piece.as_str());
            let mut kept = false;
            if toks.len() > 0 {
                let tok = &toks[0];
                proof {
                    assert(toks.deep_view()[0] == toks@[0]@);
                }
                if all_ident_chars(tok.as_str()) {
                    let mut pid = String::from_str("param_");
                    pid.append(tok.as_str());
                    let mut ptags: Vec<String> = Vec::new();
                    ptags.push(String::from_str("parameter"));
                    proof {
                        assert(ptags.deep_view() =~= seq!["parameter"@]);
                    }
                    let pmeta = Metadata {
                        source_language: Language::VisualBasic,
                        semantic_tags: ptags,
                        dependencies: Vec::new(),
                        annotations: Annotations::empty(),
                        legacy_patterns: Vec::new(),
                    };
                    let ploc = SourceLocation {
                        file: String::new(),
                        start_line: line,
                        end_line: line,
                        start_column: 0,
                        end_column: crate::strutil::sat32_of(tok.as_str().unicode_len()),
                    };
                    let pnode = UIRNode {
                        id: pid,
                        node_type: NodeType::Variable,
                        name: Some(tok.clone()),
                        children: Vec::new(),
                        metadata: pmeta,
                        source_location: Some(ploc),
                    };
                    proof {
                        lemma_vb_param_snoc(
                            line,
                            pv.take(i as int),
                            out@,
                            pv[i as int],
                            Some(pnode),
                        );
                    }
                    out.push(pnode);
                    kept = true;
                }
            }
            if !kept {
                proof {
                    lemma_vb_param_snoc(line, pv.take(i as int), out@, pv[i as int], None);
                }
            }
            i += 1;
        }
        proof {
            assert(pv.take(n as int) =~= pv);
        }
        out
    }

    /// Extracts the callable nodes of one pattern, with parameter leaves.
    fn parse_callables(source: &str, pattern: &str, id_prefix: &str, tag: &str) -> (r: Vec<
        UIRNode,
    >)
        ensures
            vb_callable_of(source@, pattern@, r@, id_prefix@, tag@),
    {
        let mut names: Vec<String> = Vec::new();
        names.push(String::from_str("name"));
        names.push(String::from_str("params"));
        proof {
            assert(names.deep_view() =~= seq!["name"@, "params"@]);
        }
        let mut out: Vec<UIRNode> = Vec::new();
        let ms = match regex_captures(pattern, source, &names) {
            Some(ms) => ms,
            None => {
                return out;
            },
        };
        let n = ms.len();
        proof {
            assert(ms@.take(0) =~= Seq::<ReMatch>::empty());
        }
        let mut i: usize = 0;
        while i < n
            invariant
                i <= n,
                n == ms@.len(),
                ms@ == re_captures(pattern@, source@, seq!["name"@, "params"@]),
                re_ok(pattern@),
                forall|x: int|
                    0 <= x < ms@.len() ==> (#[trigger] ms@[x]).groups@.len() == 2 && ms@[x].start
                        <= ms@[x].end <= source.spec_bytes().len(),
                vb_callable_list(source@, ms@.take(i as int), out@, id_prefix@, tag@),
            decreases n - i,
        {
            let m = &ms[i];
            proof {
                assert(ms@.take(i + 1) =~= ms@.take(i as int).push(ms@[i as int]));
            }
            match &m.groups[0] {
                Some(name) => {
                    let line = line_at(source, m.start);
                    let params_ref: Option<&String> = match &m.groups[1] {
                        Some(p) => Some(p),
                        None => None,
                    };
                    let children = Self::parse_params(params_ref, line);
                    let mut id = String::from_str(id_prefix);
                    id.append(name.as_str());
                    let mut tags: Vec<String> = Vec::new();
                    tags.push(String::from_str(tag));
                    proof {
                        assert(tags.deep_view() =~= seq![tag@]);
                    }
                    let mut annotations = Annotations::empty();
                    annotations.original_text = Some(m.text.clone());
                    let metadata = Metadata {
                        source_language: Language::VisualBasic,
                        semantic_tags: tags,
                        dependencies: Vec::new(),
                        annotations,
                        legacy_patterns: Vec::new(),
                    };
                    let loc = SourceLocation {
                        file: String::new(),
                        start_line: line,
                        end_line: line,
                        start_column: 0,
                        end_column: crate::strutil::sat32_of(m.end - m.start),
                    };
                    let node = UIRNode {
                        id,
                        node_type: NodeType::Function,
                        name: Some(name.clone()),
                        children,
                        metadata,
                        source_location: Some(loc),
                    };
                    proof {
                        lemma_vb_callable_snoc(
                            source@,
                            ms@.take(i as int),
                            out@,
                            ms@[i as int],
                            id_prefix@,
                            tag@,
                            Some(node),
                        );
                    }
                    out.push(node);
                },
                None => {
                    proof {
                        lemma_vb_callable_snoc(
                            source@,
                            ms@.take(i as int),
                            out@,
                            ms@[i as int],
                            id_prefix@,
                            tag@,
                            None,
                        );
                    }
                },
            }
            i += 1;
        }
        proof {
            assert(ms@.take(n as int) =~= ms@);
        }
        out
    }

    /// Extracts a flat module from Visual Basic source text by targeted
    /// patterns. This front end is a degraded-fidelity one: it produces
    /// shallow trees with best-effort line numbers and never fails.
    pub fn parse(&self, source: &str) -> (r: Result<UIRNode, CoalesceError>)
        ensures
            r is Ok,
            r matches Ok(u) ==> vb_parsed(source@, u),
    {
        let mut children = Self::parse_simple(
            source,
            r"(?mi)^Namespace\s+(?P<name>\w+(?:\.\w+)*)\s*$",
            "namespace_",
            NodeType::Module,
            "namespace",
        );
        let ghost ns_v = children@;
        let ghost k1 = children@.len() as int;
        let mut mods = Self::parse_simple(
            source,
            r"(?mi)^(?:Public\s+|Private\s+)?Module\s+(?P<name>\w+)\s*$",
            "module_",
            NodeType::Module,
            "module",
        );
        let ghost mods_v = mods@;
        children.append(&mut mods);
        let ghost k2 = children@.len() as int;
        let mut classes = Self::parse_simple(
            source,
            r"(?mi)^(?:Public\s+|Private\s+)?Class\s+(?P<name>\w+)\s*$",
            "class_",
            NodeType::Class,
            "class",
        );
        let ghost classes_v = classes@;
        children.append(&mut classes);
        let ghost k3 = children@.len() as int;
        let mut funcs = Self::parse_callables(
            source,
            r"(?mi)^(?:Public\s+|Private\s+|Protected\s+)?Function\s+(?P<name>\w+)\s*\((?P<params>[^)]*)\)(?:\s+As\s+\w+)?\s*$",
            "func_",
            "function",
        );
        let ghost funcs_v = funcs@;
        children.append(&mut funcs);
        let ghost k4 = children@.len() as int;
        let mut subs = Self::parse_callables(
            source,
            r"(?mi)^(?:Public\s+|Private\s+|Protected\s+)?Sub\s+(?P<name>\w+)\s*\((?P<params>[^)]*)\)\s*$",
            "sub_",
            "sub",
        );
        let ghost subs_v = subs@;
        children.append(&mut subs);
        let ghost k5 = children@.len() as int;
        let mut props = Self::parse_simple(
            source,
            r"(?mi)^(?:Public\s+|Private\s+|Protected\s+)?Property\s+(?P<name>\w+)\s*(?:\([^)]*\))?\s*As\s+\w+\s*$",
            "prop_",
            NodeType::Variable,
            "property",
        );
        let ghost props_v = props@;
        children.append(&mut props);
        let mut tags: Vec<String> = Vec::new();
        tags.push(String::from_str("source_file"));
        proof {
            assert(tags.deep_view() =~= seq!["source_file"@]);
        }
        let metadata = Metadata {
            source_language: Language::VisualBasic,
            semantic_tags: tags,
            dependencies: Vec::new(),
            annotations: Annotations::empty(),
            legacy_patterns: Vec::new(),
        };
        let loc = SourceLocation {
            file: String::new(),
            start_line: 1,
            end_line: lines_count(source),
            start_column: 0,
            end_column: crate::strutil::sat32_of(source.len()),
        };
        let root = UIRNode {
            id: String::from_str("vb_program"),
            node_type: NodeType::Module,
            name: Some(String::from_str("vb_program")),
            children,
            metadata,
            source_location: Some(loc),
        };
        proof {
            assert(root.children@.subrange(0, k1) =~= ns_v);
            assert(root.children@.subrange(k1, k2) =~= mods_v);
            assert(root.children@.subrange(k2, k3) =~= classes_v);
            assert(root.children@.subrange(k3, k4) =~= funcs_v);
            assert(root.children@.subrange(k4, k5) =~= subs_v);
            assert(root.children@.subrange(k5, root.children@.len() as int) =~= props_v);
            assert(vb_simple_of(
                source@,
                vb_ns_re(),
                root.children@.subrange(0, k1),
                "namespace_"@,
                NodeType::Module,
                "namespace"@,
            ));
            assert(vb_simple_of(
                source@,
                vb_module_re(),
                root.children@.subrange(k1, k2),
                "module_"@,
                NodeType::Module,
                "module"@,
            ));
            assert(vb_simple_of(
                source@,
                vb_class_re(),
                root.children@.subrange(k2, k3),
                "class_"@,
                NodeType::Class,
                "class"@,
            ));
            assert(vb_callable_of(
                source@,
                vb_func_re(),
                root.children@.subrange(k3, k4),
                "func_"@,
                "function"@,
            ));
            assert(vb_callable_of(
                source@,
                vb_sub_re(),
                root.children@.subrange(k4, k5),
                "sub_"@,
                "sub"@,
            ));
            assert(vb_simple_of(
                source@,
                vb_prop_re(),
                root.children@.subrange(k5, root.children@.len() as int),
                "prop_"@,
                NodeType::Variable,
                "property"@,
            ));
        }
        Ok(root)
    }
}

} // verus!
