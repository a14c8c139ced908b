//! The F# front end: a degraded-fidelity front end that extracts modules,
//! types, functions and bindings from raw text by targeted patterns instead
//! of a full parse tree. It produces a flat module with best-effort line
//! numbers and never claims full fidelity. Identifier and letter classes
//! are the ASCII ones, so a parameter with a non-ASCII name is not
//! extracted.

use vstd::prelude::*;
use vstd::string::StringSliceAdditionalSpecFns;
use vstd::utf8::encode_utf8;
use crate::errors::CoalesceError;
use crate::regexutil::{re_captures, re_ok, regex_captures, ReMatch};
use crate::strutil::{
    all_ident_chars, any_alpha, count_ws, is_ascii_alpha, is_ident_char, lines_count, line_at,
    sat32, spec_line_at, spec_lines_count, spec_tokens, spec_trim, tokens_of, trim_str, ws_count,
};
use crate::uir::{
    Annotations, Language, Metadata, NodeType, SourceLocation, UIRNode,
};

verus! {

/// The module-header pattern.
pub open spec fn fs_module_re() -> Seq<char> {
    r"(?m)^module\s+(?P<name>\w+(?:\.\w+)*)\s*=?\s*$"@
}

/// The type-definition pattern.
pub open spec fn fs_type_re() -> Seq<char> {
    r"(?m)^type\s+(?P<name>\w+)(?:\s*=)?"@
}

/// The function-definition pattern: a binding with parameter text before
/// the equals sign.
pub open spec fn fs_func_re() -> Seq<char> {
    r"(?m)^let\s+(?P<name>\w+)\s+(?P<params>[^=]+?)\s*="@
}

/// The simple-binding pattern.
pub open spec fn fs_let_re() -> Seq<char> {
    r"(?m)^let\s+(?P<name>\w+)\s*=\s*(?P<value>[^=\r\n]+)"@
}

/// Metadata of a node this front end produces.
pub open spec fn fs_meta(
    m: Metadata,
    tag: Seq<char>,
    text: Option<Seq<char>>,
    value: Option<Seq<char>>,
) -> bool {
    &&& m.source_language == Language::FSharp
    &&& m.semantic_tags.deep_view() == seq![tag]
    &&& m.dependencies@.len() == 0
    &&& m.legacy_patterns@.len() == 0
    &&& m.annotations.original_text.deep_view() == text
    &&& m.annotations.value.deep_view() == value
    &&& m.annotations.parse_error is None
    &&& m.annotations.library_dependency is None
    &&& m.annotations.library_pattern is None
    &&& m.annotations.semantic_intent is None
    &&& m.annotations.transformed_from is None
    &&& m.annotations.transformed_to is None
    &&& m.annotations.generated_code is None
    &&& m.annotations.required_imports is None
    &&& m.annotations.setup_code is None
    &&& m.annotations.cleanup_code is None
    &&& m.annotations.fallback_implementation is None
    &&& m.annotations.requires_manual_implementation == false
    &&& m.annotations.extra@.len() == 0
}

/// Span of a node this front end produces.
pub open spec fn fs_loc(
    loc: Option<SourceLocation>,
    start_line: u32,
    end_line: u32,
    start_col: u32,
    end_col: u32,
) -> bool {
    match loc {
        Some(l) => {
            &&& l.file@ == Seq::<char>::empty()
            &&& l.start_line == start_line
            &&& l.end_line == end_line
            &&& l.start_column == start_col
            &&& l.end_column == end_col
        },
        None => false,
    }
}

/// The name captured by a match, when its first group participated.
pub open spec fn match_group(m: ReMatch, i: int) -> Option<Seq<char>> {
    if 0 <= i < m.groups@.len() {
        m.groups.deep_view()[i]
    } else {
        None
    }
}

/// A flat leaf node of this front end: identifier prefix plus captured
/// name, fixed tag, the match's text recorded, and a one-line span.
pub open spec fn fs_simple_node(
    src: Seq<char>,
    m: ReMatch,
    name: Seq<char>,
    id_prefix: Seq<char>,
    nt: NodeType,
    tag: Seq<char>,
    value: Option<Seq<char>>,
    r: UIRNode,
) -> bool {
    let line = spec_line_at(encode_utf8(src), m.start as int);
    &&& r.id@ == id_prefix + name
    &&& r.node_type == nt
    &&& r.name.deep_view() == Some(name)
    &&& r.children@.len() == 0
    &&& fs_meta(r.metadata, tag, Some(m.text@), value)
    &&& fs_loc(r.source_location, line, line, 0, sat32((m.end - m.start) as nat))
}

/// One module node per match with a captured name, in order.
pub open spec fn fs_module_list(src: Seq<char>, ms: Seq<ReMatch>, rs: Seq<UIRNode>) -> bool
    decreases ms.len(),
{
    if ms.len() == 0 {
        rs.len() == 0
    } else {
        match match_group(ms[0], 0) {
            Some(name) => {
                &&& rs.len() > 0
                &&& fs_simple_node(
                    src,
                    ms[0],
                    name,
                    "module_"@,
                    NodeType::Module,
                    "module"@,
                    None,
                    rs[0],
                )
                &&& fs_module_list(src, ms.drop_first(), rs.drop_first())
            },
            None => fs_module_list(src, ms.drop_first(), rs),
        }
    }
}

/// One type node per match with a captured name, in order.
pub open spec fn fs_type_list(src: Seq<char>, ms: Seq<ReMatch>, rs: Seq<UIRNode>) -> bool
    decreases ms.len(),
{
    if ms.len() == 0 {
        rs.len() == 0
    } else {
        match match_group(ms[0], 0) {
            Some(name) => {
                &&& rs.len() > 0
                &&& fs_simple_node(
                    src,
                    ms[0],
                    name,
                    "type_"@,
                    NodeType::Class,
                    "type"@,
                    None,
                    rs[0],
                )
                &&& fs_type_list(src, ms.drop_first(), rs.drop_first())
            },
            None => fs_type_list(src, ms.drop_first(), rs),
        }
    }
}

/// One parameter leaf per identifier-shaped token, in order.
pub open spec fn fs_param_list(line: u32, toks: Seq<Seq<char>>, rs: Seq<UIRNode>) -> bool
    decreases toks.len(),
{
    if toks.len() == 0 {
        rs.len() == 0
    } else if forall|k: int| 0 <= k < toks[0].len() ==> is_ident_char(#[trigger] toks[0][k]) {
        &&& rs.len() > 0
        &&& rs[0].id@ == "param_"@ + toks[0]
        &&& rs[0].node_type == NodeType::Variable
        &&& rs[0].name.deep_view() == Some(toks[0])
        &&& rs[0].children@.len() == 0
        &&& fs_meta(rs[0].metadata, "parameter"@, None, None)
        &&& fs_loc(rs[0].source_location, line, line, 0, sat32(toks[0].len()))
        &&& fs_param_list(line, toks.drop_first(), rs.drop_first())
    } else {
        fs_param_list(line, toks.drop_first(), rs)
    }
}

/// Whether a function match produces a node: both groups captured and the
/// trimmed parameter text is nonempty with at least one letter.
pub open spec fn fs_func_fires(m: ReMatch) -> bool {
    &&& match_group(m, 0) is Some
    &&& match_group(m, 1) is Some
    &&& spec_trim(match_group(m, 1)->Some_0).len() > 0
    &&& exists|k: int|
        0 <= k < spec_trim(match_group(m, 1)->Some_0).len() && is_ascii_alpha(
            #[trigger] spec_trim(match_group(m, 1)->Some_0)[k],
        )
}

/// The function node a firing match produces.
pub open spec fn fs_func_node(src: Seq<char>, m: ReMatch, r: UIRNode) -> bool {
    let name = match_group(m, 0)->Some_0;
    let line = spec_line_at(encode_utf8(src), m.start as int);
    &&& r.id@ == "func_"@ + name
    &&& r.node_type == NodeType::Function
    &&& r.name.deep_view() == Some(name)
    &&& fs_meta(r.metadata, "function"@, Some(m.text@), None)
    &&& fs_loc(r.source_location, line, line, 0, sat32((m.end - m.start) as nat))
    &&& fs_param_list(line, spec_tokens(spec_trim(match_group(m, 1)->Some_0), 0), r.children@)
}

/// One function node per firing match, carrying its parameter leaves.
pub open spec fn fs_func_list(src: Seq<char>, ms: Seq<ReMatch>, rs: Seq<UIRNode>) -> bool
    decreases ms.len(),
{
    if ms.len() == 0 {
        rs.len() == 0
    } else if fs_func_fires(ms[0]) {
        &&& rs.len() > 0
        &&& fs_func_node(src, ms[0], rs[0])
        &&& fs_func_list(src, ms.drop_first(), rs.drop_first())
    } else {
        fs_func_list(src, ms.drop_first(), rs)
    }
}

/// One variable node per binding match that looks simple: a captured name
/// and value, and little whitespace in the match.
pub open spec fn fs_let_fires(m: ReMatch) -> bool {
    &&& match_group(m, 0) is Some
    &&& match_group(m, 1) is Some
    &&& ws_count(m.text@) <= 3
}

/// One variable node per firing binding match, in order.
pub open spec fn fs_let_list(src: Seq<char>, ms: Seq<ReMatch>, rs: Seq<UIRNode>) -> bool
    decreases ms.len(),
{
    if ms.len() == 0 {
        rs.len() == 0
    } else if fs_let_fires(ms[0]) {
        &&& rs.len() > 0
        &&& fs_simple_node(
            src,
            ms[0],
            match_group(ms[0], 0)->Some_0,
            "var_"@,
            NodeType::Variable,
            "variable"@,
            Some(spec_trim(match_group(ms[0], 1)->Some_0)),
            rs[0],
        )
        &&& fs_let_list(src, ms.drop_first(), rs.drop_first())
    } else {
        fs_let_list(src, ms.drop_first(), rs)
    }
}

/// The nodes one pattern contributes: none when its pattern does not
/// compile.
pub open spec fn fs_modules_of(src: Seq<char>, rs: Seq<UIRNode>) -> bool {
    if re_ok(fs_module_re()) {
        fs_module_list(src, re_captures(fs_module_re(), src, seq!["name"@]), rs)
    } else {
        rs.len() == 0
    }
}

pub open spec fn fs_types_of(src: Seq<char>, rs: Seq<UIRNode>) -> bool {
    if re_ok(fs_type_re()) {
        fs_type_list(src, re_captures(fs_type_re(), src, seq!["name"@]), rs)
    } else {
        rs.len() == 0
    }
}

pub open spec fn fs_funcs_of(src: Seq<char>, rs: Seq<UIRNode>) -> bool {
    if re_ok(fs_func_re()) {
        fs_func_list(src, re_captures(fs_func_re(), src, seq!["name"@, "params"@]), rs)
    } else {
        rs.len() == 0
    }
}

pub open spec fn fs_lets_of(src: Seq<char>, rs: Seq<UIRNode>) -> bool {
    if re_ok(fs_let_re()) {
        fs_let_list(src, re_captures(fs_let_re(), src, seq!["name"@, "value"@]), rs)
    } else {
        rs.len() == 0
    }
}

/// `u` is the flat module this front end produces for a source text: the
/// extracted modules, then types, then functions, then simple bindings.
pub open spec fn fsharp_parsed(src: Seq<char>, u: UIRNode) -> bool {
    &&& u.id@ == "fsharp_program"@
    &&& u.node_type == NodeType::Module
    &&& u.name.deep_view() == Some("fsharp_program"@)
    &&& fs_meta(u.metadata, "source_file"@, None, None)
    &&& fs_loc(
        u.source_location,
        1,
        sat32(spec_lines_count(encode_utf8(src))),
        0,
        sat32((encode_utf8(src).len() as usize) as nat),
    )
    &&& exists|k1: int, k2: int, k3: int|
        {
            &&& 0 <= k1 <= k2 <= k3 <= u.children@.len()
            &&& fs_modules_of(src, #[trigger] u.children@.subrange(0, k1))
            &&& fs_types_of(src, #[trigger] u.children@.subrange(k1, k2))
            &&& fs_funcs_of(src, #[trigger] u.children@.subrange(k2, k3))
            &&& fs_lets_of(src, u.children@.subrange(k3, u.children@.len() as int))
        }
}

/// Builds a flat leaf node for a match.
fn fs_node(
    src: &str,
    m: &ReMatch,
    name: &String,
    id_prefix: &str,
    nt: NodeType,
    tag: &str,
    value: Option<String>,
) -> (r: UIRNode)
    requires
        m.start <= m.end <= src.spec_bytes().len(),
    ensures
        fs_simple_node(src@, *m, name@, id_prefix@, nt, tag@, value.deep_view(), r),
{
    let mut id = String::from_str(id_prefix);
    id.append(name.as_str());
    let mut tags: Vec<String> = Vec::new();
    tags.push(String::from_str(tag));
    proof {
        assert(tags.deep_view() =~= seq![tag@]);
    }
    let mut annotations = Annotations::empty();
    annotations.original_text = Some(m.text.clone());
    annotations.value = value;
    let metadata = Metadata {
        source_language: Language::FSharp,
        semantic_tags: tags,
        dependencies: Vec::new(),
        annotations,
        legacy_patterns: Vec::new(),
    };
    let line = line_at(src, m.start);
    let loc = SourceLocation {
        file: String::new(),
        start_line: line,
        end_line: line,
        start_column: 0,
        end_column: crate::strutil::sat32_of(m.end - m.start),
    };
    UIRNode {
        id,
        node_type: nt,
        name: Some(name.clone()),
        children: Vec::new(),
        metadata,
        source_location: Some(loc),
    }
}

/// A kept match extends a module list; a skipped one leaves it unchanged.
proof fn lemma_fs_module_snoc(
    src: Seq<char>,
    ms: Seq<ReMatch>,
    rs: Seq<UIRNode>,
    m: ReMatch,
    kept: Option<UIRNode>,
)
    requires
        fs_module_list(src, ms, rs),
        match kept {
            Some(r) => match_group(m, 0) is Some && fs_simple_node(
                src,
                m,
                match_group(m, 0)->Some_0,
                "module_"@,
                NodeType::Module,
                "module"@,
                None,
                r,
            ),
            None => match_group(m, 0) is None,
        },
    ensures
        match kept {
            Some(r) => fs_module_list(src, ms.push(m), rs.push(r)),
            None => fs_module_list(src, ms.push(m), rs),
        },
    decreases ms.len(),
{
    if ms.len() == 0 {
        assert(ms.push(m)[0] == m);
        assert(ms.push(m).drop_first() =~= ms);
        if kept is Some {
            let r = kept->Some_0;
            assert(rs.push(r)[0] == r);
            assert(rs.push(r).drop_first() =~= rs);
        }
    } else {
        assert(ms.push(m)[0] == ms[0]);
        assert(ms.push(m).drop_first() =~= ms.drop_first().push(m));
        match match_group(ms[0], 0) {
            Some(_) => {
                assert(rs.len() > 0);
                if kept is Some {
                    let r = kept->Some_0;
                    assert(rs.push(r)[0] == rs[0]);
                    assert(rs.push(r).drop_first() =~= rs.drop_first().push(r));
                }
                lemma_fs_module_snoc(src, ms.drop_first(), rs.drop_first(), m, kept);
            },
            None => {
                lemma_fs_module_snoc(src, ms.drop_first(), rs, m, kept);
            },
        }
    }
}

/// A kept match extends a type list; a skipped one leaves it unchanged.
proof fn lemma_fs_type_snoc(
    src: Seq<char>,
    ms: Seq<ReMatch>,
    rs: Seq<UIRNode>,
    m: ReMatch,
    kept: Option<UIRNode>,
)
    requires
        fs_type_list(src, ms, rs),
        match kept {
            Some(r) => match_group(m, 0) is Some && fs_simple_node(
                src,
                m,
                match_group(m, 0)->Some_0,
                "type_"@,
                NodeType::Class,
                "type"@,
                None,
                r,
            ),
            None => match_group(m, 0) is None,
        },
    ensures
        match kept {
            Some(r) => fs_type_list(src, ms.push(m), rs.push(r)),
            None => fs_type_list(src, ms.push(m), rs),
        },
    decreases ms.len(),
{
    if ms.len() == 0 {
        assert(ms.push(m)[0] == m);
        assert(ms.push(m).drop_first() =~= ms);
        if kept is Some {
            let r = kept->Some_0;
            assert(rs.push(r)[0] == r);
            assert(rs.push(r).drop_first() =~= rs);
        }
    } else {
        assert(ms.push(m)[0] == ms[0]);
        assert(ms.push(m).drop_first() =~= ms.drop_first().push(m));
        match match_group(ms[0], 0) {
            Some(_) => {
                if kept is Some {
                    let r = kept->Some_0;
                    assert(rs.push(r)[0] == rs[0]);
                    assert(rs.push(r).drop_first() =~= rs.drop_first().push(r));
                }
                lemma_fs_type_snoc(src, ms.drop_first(), rs.drop_first(), m, kept);
            },
            None => {
                lemma_fs_type_snoc(src, ms.drop_first(), rs, m, kept);
            },
        }
    }
}

/// A kept binding extends a variable list; a skipped one leaves it
/// unchanged.
proof fn lemma_fs_let_snoc(
    src: Seq<char>,
    ms: Seq<ReMatch>,
    rs: Seq<UIRNode>,
    m: ReMatch,
    kept: Option<UIRNode>,
)
    requires
        fs_let_list(src, ms, rs),
        match kept {
            Some(r) => fs_let_fires(m) && fs_simple_node(
                src,
                m,
                match_group(m, 0)->Some_0,
                "var_"@,
                NodeType::Variable,
                "variable"@,
                Some(spec_trim(match_group(m, 1)->Some_0)),
                r,
            ),
            None => !fs_let_fires(m),
        },
    ensures
        match kept {
            Some(r) => fs_let_list(src, ms.push(m), rs.push(r)),
            None => fs_let_list(src, ms.push(m), rs),
        },
    decreases ms.len(),
{
    if ms.len() == 0 {
        assert(ms.push(m)[0] == m);
        assert(ms.push(m).drop_first() =~= ms);
        if kept is Some {
            let r = kept->Some_0;
            assert(rs.push(r)[0] == r);
            assert(rs.push(r).drop_first() =~= rs);
        }
    } else {
        assert(ms.push(m)[0] == ms[0]);
        assert(ms.push(m).drop_first() =~= ms.drop_first().push(m));
        if fs_let_fires(ms[0]) {
            if kept is Some {
                let r = kept->Some_0;
                assert(rs.push(r)[0] == rs[0]);
                assert(rs.push(r).drop_first() =~= rs.drop_first().push(r));
            }
            lemma_fs_let_snoc(src, ms.drop_first(), rs.drop_first(), m, kept);
        } else {
            lemma_fs_let_snoc(src, ms.drop_first(), rs, m, kept);
        }
    }
}

/// A kept function extends a function list; a skipped one leaves it
/// unchanged.
proof fn lemma_fs_func_snoc(
    src: Seq<char>,
    ms: Seq<ReMatch>,
    rs: Seq<UIRNode>,
    m: ReMatch,
    kept: Option<UIRNode>,
)
    requires
        fs_func_list(src, ms, rs),
        match kept {
            Some(r) => fs_func_fires(m) && fs_func_node(src, m, r),
            None => !fs_func_fires(m),
        },
    ensures
        match kept {
            Some(r) => fs_func_list(src, ms.push(m), rs.push(r)),
            None => fs_func_list(src, ms.push(m), rs),
        },
    decreases ms.len(),
{
    if ms.len() == 0 {
        assert(ms.push(m)[0] == m);
        assert(ms.push(m).drop_first() =~= ms);
        if kept is Some {
            let r = kept->Some_0;
            assert(rs.push(r)[0] == r);
            assert(rs.push(r).drop_first() =~= rs);
        }
    } else {
        assert(ms.push(m)[0] == ms[0]);
        assert(ms.push(m).drop_first() =~= ms.drop_first().push(m));
        if fs_func_fires(ms[0]) {
            if kept is Some {
                let r = kept->Some_0;
                assert(rs.push(r)[0] == rs[0]);
                assert(rs.push(r).drop_first() =~= rs.drop_first().push(r));
            }
            lemma_fs_func_snoc(src, ms.drop_first(), rs.drop_first(), m, kept);
        } else {
            lemma_fs_func_snoc(src, ms.drop_first(), rs, m, kept);
        }
    }
}

/// A kept token extends a parameter list; a skipped one leaves it
/// unchanged.
proof fn lemma_fs_param_snoc(
    line: u32,
    toks: Seq<Seq<char>>,
    rs: Seq<UIRNode>,
    t: Seq<char>,
    kept: Option<UIRNode>,
)
    requires
        fs_param_list(line, toks, rs),
        match kept {
            Some(r) => {
                &&& forall|k: int| 0 <= k < t.len() ==> is_ident_char(#[trigger] t[k])
                &&& r.id@ == "param_"@ + t
                &&& r.node_type == NodeType::Variable
                &&& r.name.deep_view() == Some(t)
                &&& r.children@.len() == 0
                &&& fs_meta(r.metadata, "parameter"@, None, None)
                &&& fs_loc(r.source_location, line, line, 0, sat32(t.len()))
            },
            None => !(forall|k: int| 0 <= k < t.len() ==> is_ident_char(#[trigger] t[k])),
        },
    ensures
        match kept {
            Some(r) => fs_param_list(line, toks.push(t), rs.push(r)),
            None => fs_param_list(line, toks.push(t), rs),
        },
    decreases toks.len(),
{
    if toks.len() == 0 {
        assert(toks.push(t)[0] == t);
        assert(toks.push(t).drop_first() =~= toks);
        if kept is Some {
            let r = kept->Some_0;
            assert(rs.push(r)[0] == r);
            assert(rs.push(r).drop_first() =~= rs);
        }
    } else {
        assert(toks.push(t)[0] == toks[0]);
        assert(toks.push(t).drop_first() =~= toks.drop_first().push(t));
        if forall|k: int| 0 <= k < toks[0].len() ==> is_ident_char(#[trigger] toks[0][k]) {
            if kept is Some {
                let r = kept->Some_0;
                assert(rs.push(r)[0] == rs[0]);
                assert(rs.push(r).drop_first() =~= rs.drop_first().push(r));
            }
            lemma_fs_param_snoc(line, toks.drop_first(), rs.drop_first(), t, kept);
        } else {
            lemma_fs_param_snoc(line, toks.drop_first(), rs, t, kept);
        }
    }
}

/// The F# front end.
pub struct FSharpParser {}

impl FSharpParser {
    /// A new F# front end.
    pub fn new() -> (r: Result<FSharpParser, CoalesceError>)
        ensures
            r is Ok,
    {
        Ok(FSharpParser {  })
    }

    /// Extracts module headers.
    fn parse_modules(source: &str) -> (r: Vec<UIRNode>)
        ensures
            fs_modules_of(source@, r@),
    {
        let mut names: Vec<String> = Vec::new();
        names.push(String::from_str("name"));
        proof {
            assert(names.deep_view() =~= seq!["name"@]);
        }
        let mut out: Vec<UIRNode> = Vec::new();
        let ms = match regex_captures(
            r"(?m)^module\s+(?P<name>\w+(?:\.\w+)*)\s*=?\s*$",
            source,
            &names,
        ) {
            Some(ms) => ms,
            None => {
                return out;
            },
        };
        let n = ms.len();
        proof {
            assert(ms@.take(0) =~= Seq::<ReMatch>::empty());
        }
        let mut i: usize = 0;
        while i < n
            invariant
                i <= n,
                n == ms@.len(),
                ms@ == re_captures(fs_module_re(), source@, seq!["name"@]),
                forall|x: int|
                    0 <= x < ms@.len() ==> (#[trigger] ms@[x]).groups@.len() == 1 && ms@[x].start
                        <= ms@[x].end <= source.spec_bytes().len(),
                fs_module_list(source@, ms@.take(i as int), out@),
            decreases n - i,
        {
            let m = &ms[i];
            proof {
                assert(ms@.take(i + 1) =~= ms@.take(i as int).push(ms@[i as int]));
            }
            match &m.groups[0] {
                Some(name) => {
                    let node = fs_node(
                        source,
                        m,
                        name,
                        "module_",
                        NodeType::Module,
                        "module",
                        None,
                    );
                    proof {
                        lemma_fs_module_snoc(
                            source@,
                            ms@.take(i as int),
                            out@,
                            ms@[i as int],
                            Some(node),
                        );
                    }
                    out.push(node);
                },
                None => {
                    proof {
                        lemma_fs_module_snoc(
                            source@,
                            ms@.take(i as int),
                            out@,
                            ms@[i as int],
                            None,
                        );
                    }
                },
            }
            i += 1;
        }
        proof {
            assert(ms@.take(n as int) =~= ms@);
        }
        out
    }

    /// Extracts type definitions.
    fn parse_types(source: &str) -> (r: Vec<UIRNode>)
        ensures
            fs_types_of(source@, r@),
    {
        let mut names: Vec<String> = Vec::new();
        names.push(String::from_str("name"));
        proof {
            assert(names.deep_view() =~= seq!["name"@]);
        }
        let mut out: Vec<UIRNode> = Vec::new();
        let ms = match regex_captures(r"(?m)^type\s+(?P<name>\w+)(?:\s*=)?", source, &names) {
            Some(ms) => ms,
            None => {
                return out;
            },
        };
        let n = ms.len();
        proof {
            assert(ms@.take(0) =~= Seq::<ReMatch>::empty());
        }
        let mut i: usize = 0;
        while i < n
            invariant
                i <= n,
                n == ms@.len(),
                ms@ == re_captures(fs_type_re(), source@, seq!["name"@]),
                forall|x: int|
                    0 <= x < ms@.len() ==> (#[trigger] ms@[x]).groups@.len() == 1 && ms@[x].start
                        <= ms@[x].end <= source.spec_bytes().len(),
                fs_type_list(source@, ms@.take(i as int), out@),
            decreases n - i,
        {
            let m = &ms[i];
            proof {
                assert(ms@.take(i + 1) =~= ms@.take(i as int).push(ms@[i as int]));
            }
            match &m.groups[0] {
                Some(name) => {
                    let node = fs_node(source, m, name, "type_", NodeType::Class, "type", None);
                    proof {
                        lemma_fs_type_snoc(
                            source@,
                            ms@.take(i as int),
                            out@,
                            ms@[i as int],
                            Some(node),
                        );
                    }
                    out.push(node);
                },
                None => {
                    proof {
                        lemma_fs_type_snoc(source@, ms@.take(i as int), out@, ms@[i as int], None);
                    }
                },
            }
            i += 1;
        }
        proof {
            assert(ms@.take(n as int) =~= ms@);
        }
        out
    }

    /// Extracts function definitions with their parameter leaves.
    #[verifier::rlimit(50)]
    fn parse_functions(source: &str) -> (r: Vec<UIRNode>)
        ensures
            fs_funcs_of(source@, r@),
    {
        let mut names: Vec<String> = Vec::new();
        names.push(String::from_str("name"));
        names.push(String::from_str("params"));
        proof {
            assert(names.deep_view() =~= seq!["name"@, "params"@]);
        }
        let mut out: Vec<UIRNode> = Vec::new();
        let ms = match regex_captures(
            r"(?m)^let\s+(?P<name>\w+)\s+(?P<params>[^=]+?)\s*=",
            source,
            &names,
        ) {
            Some(ms) => ms,
            None => {
                return out;
            },
        };
        let n = ms.len();
        proof {
            assert(ms@.take(0) =~= Seq::<ReMatch>::empty());
        }
        let mut i: usize = 0;
        while i < n
            invariant
                i <= n,
                n == ms@.len(),
                ms@ == re_captures(fs_func_re(), source@, seq!["name"@, "params"@]),
                forall|x: int|
                    0 <= x < ms@.len() ==> (#[trigger] ms@[x]).groups@.len() == 2 && ms@[x].start
                        <= ms@[x].end <= source.spec_bytes().len(),
                fs_func_list(source@, ms@.take(i as int), out@),
            decreases n - i,
        {
            let m = &ms[i];
            proof {
                assert(ms@.take(i + 1) =~= ms@.take(i as int).push(ms@[i as int]));
            }
            let mut kept = false;
            match (&m.groups[0], &m.groups[1]) {
                (Some(name), Some(params)) => {
                    let pstr = trim_str(params.as_str());
                    if pstr.as_str().unicode_len() > 0 && any_alpha(pstr.as_str()) {
                        let toks = tokens_of(pstr.as_str());
                        let line = line_at(source, m.start);
                        let mut children: Vec<UIRNode> = Vec::new();
                        let tn = toks.len();
                        proof {
                            assert(toks.deep_view().take(0) =~= Seq::<Seq<char>>::empty());
                        }
                        let mut j: usize = 0;
                        while j < tn
                            invariant
                                j <= tn,
                                tn == toks@.len(),
                                toks.deep_view() == spec_tokens(pstr@, 0),
                                fs_param_list(
                                    line,
                                    toks.deep_view().take(j as int),
                                    children@,
                                ),
                            decreases tn - j,
                        {
                            let tok = &toks[j];
                            proof {
                                assert(toks.deep_view().take(j + 1) =~= toks.deep_view().take(
                                    j as int,
                                ).push(toks.deep_view()[j as int]));
                                assert(toks.deep_view()[j as int] == toks@[j as int]@);
                            }
                            if all_ident_chars(tok.as_str()) {
                                let mut pid = String::from_str("param_");
                                pid.append(tok.as_str());
                                let mut ptags: Vec<String> = Vec::new();
                                ptags.push(String::from_str("parameter"));
                                proof {
                                    assert(ptags.deep_view() =~= seq!["parameter"@]);
                                }
                                let pmeta = Metadata {
                                    source_language: Language::FSharp,
                                    semantic_tags: ptags,
                                    dependencies: Vec::new(),
                                    annotations: Annotations::empty(),
                                    legacy_patterns: Vec::new(),
                                };
                                let ploc = SourceLocation {
                                    file: String::new(),
                                    start_line: line,
                                    end_line: line,
                                    start_column: 0,
                                    end_column: crate::strutil::sat32_of(tok.as_str().unicode_len()),
                                };
                                let pnode = UIRNode {
                                    id: pid,
                                    node_type: NodeType::Variable,
                                    name: Some(tok.clone()),
                                    children: Vec::new(),
                                    metadata: pmeta,
                                    source_location: Some(ploc),
                                };
                                proof {
                                    lemma_fs_param_snoc(
                                        line,
                                        toks.deep_view().take(j as int),
                                        children@,
                                        toks.deep_view()[j as int],
                                        Some(pnode),
                                    );
                                }
                                children.push(pnode);
                            } else {
                                proof {
                                    lemma_fs_param_snoc(
                                        line,
                                        toks.deep_view().take(j as int),
                                        children@,
                                        toks.deep_view()[j as int],
                                        None,
                                    );
                                }
                            }
                            j += 1;
                        }
                        proof {
                            assert(toks.deep_view().take(tn as int) =~= toks.deep_view());
                        }
                        let mut fid = String::from_str("func_");
                        fid.append(name.as_str());
                        let mut ftags: Vec<String> = Vec::new();
                        ftags.push(String::from_str("function"));
                        proof {
                            assert(ftags.deep_view() =~= seq!["function"@]);
                        }
                        let mut fann = Annotations::empty();
                        fann.original_text = Some(m.text.clone());
                        let fmeta = Metadata {
                            source_language: Language::FSharp,
                            semantic_tags: ftags,
                            dependencies: Vec::new(),
                            annotations: fann,
                            legacy_patterns: Vec::new(),
                        };
                        let floc = SourceLocation {
                            file: String::new(),
                            start_line: line,
                            end_line: line,
                            start_column: 0,
                            end_column: crate::strutil::sat32_of(m.end - m.start),
                        };
                        let fnode = UIRNode {
                            id: fid,
                            node_type: NodeType::Function,
                            name: Some(name.clone()),
                            children,
                            metadata: fmeta,
                            source_location: Some(floc),
                        };
                        proof {
                            assert(ms@[i as int].groups.deep_view()[0] == ms@[i as
                                int].groups@[0].deep_view());
                            assert(ms@[i as int].groups.deep_view()[1] == ms@[i as
                                int].groups@[1].deep_view());
                            assert(match_group(ms@[i as int], 0) == Some(name@));
                            assert(match_group(ms@[i as int], 1) == Some(params@));
                            assert(pstr@ == spec_trim(params@));
                            assert(fs_func_fires(ms@[i as int]));
                            assert(fs_func_node(source@, ms@[i as int], fnode));
                            lemma_fs_func_snoc(
                                source@,
                                ms@.take(i as int),
                                out@,
                                ms@[i as int],
                                Some(fnode),
                            );
                        }
                        out.push(fnode);
                        kept = true;
                    }
                },
                _ => {},
            }
            if !kept {
                proof {
                    lemma_fs_func_snoc(source@, ms@.take(i as int), out@, ms@[i as int], None);
                }
            }
            i += 1;
        }
        proof {
            assert(ms@.take(n as int) =~= ms@);
        }
        out
    }

    /// Extracts simple bindings.
    fn parse_let_bindings(source: &str) -> (r: Vec<UIRNode>)
        ensures
            fs_lets_of(source@, r@),
    {
        let mut names: Vec<String> = Vec::new();
        names.push(String::from_str("name"));
        names.push(String::from_str("value"));
        proof {
            assert(names.deep_view() =~= seq!["name"@, "value"@]);
        }
        let mut out: Vec<UIRNode> = Vec::new();
        let ms = match regex_captures(
            r"(?m)^let\s+(?P<name>\w+)\s*=\s*(?P<value>[^=\r\n]+)",
            source,
            &names,
        ) {
            Some(ms) => ms,
            None => {
                return out;
            },
        };
        let n = ms.len();
        proof {
            assert(ms@.take(0) =~= Seq::<ReMatch>::empty());
        }
        let mut i: usize = 0;
        while i < n
            invariant
                i <= n,
                n == ms@.len(),
                ms@ == re_captures(fs_let_re(), source@, seq!["name"@, "value"@]),
                forall|x: int|
                    0 <= x < ms@.len() ==> (#[trigger] ms@[x]).groups@.len() == 2 && ms@[x].start
                        <= ms@[x].end <= source.spec_bytes().len(),
                fs_let_list(source@, ms@.take(i as int), out@),
            decreases n - i,
        {
            let m = &ms[i];
            proof {
                assert(ms@.take(i + 1) =~= ms@.take(i as int).push(ms@[i as int]));
            }
            let mut kept = false;
            match (&m.groups[0], &m.groups[1]) {
                (Some(name), Some(value)) => {
                    if count_ws(m.text.as_str()) <= 3 {
                        let node = fs_node(
                            source,
                            m,
                            name,
                            "var_",
                            NodeType::Variable,
                            "variable",
                            Some(trim_str(value.as_str())),
                        );
                        proof {
                            lemma_fs_let_snoc(
                                source@,
                                ms@.take(i as int),
                                out@,
                                ms@[i as int],
                                Some(node),
                            );
                        }
                        out.push(node);
                        kept = true;
                    }
                },
                _ => {},
            }
            if !kept {
                proof {
                    lemma_fs_let_snoc(source@, ms@.take(i as int), out@, ms@[i as int], None);
                }
            }
            i += 1;
        }
        proof {
            assert(ms@.take(n as int) =~= ms@);
        }
        out
    }

    /// Extracts a flat module from F# source text by targeted patterns.
    /// This front end is a degraded-fidelity one: it produces shallow trees
    /// with best-effort line numbers and never fails.
    pub fn parse(&self, source: &str) -> (r: Result<UIRNode, CoalesceError>)
        ensures
            r is Ok,
            r matches Ok(u) ==> fsharp_parsed(source@, u),
    {
        let mut children = Self::parse_modules(source);
        let ghost mods_v = children@;
        let ghost k1 = children@.len() as int;
        let mut types = Self::parse_types(source);
        let ghost types_v = types@;
        children.append(&mut types);
        let ghost k2 = children@.len() as int;
        let mut funcs = Self::parse_functions(source);
        let ghost funcs_v = funcs@;
        children.append(&mut funcs);
        let ghost k3 = children@.len() as int;
        let mut lets = Self::parse_let_bindings(source);
        let ghost lets_v = lets@;
        children.append(&mut lets);
        let mut tags: Vec<String> = Vec::new();
        tags.push(String::from_str("source_file"));
        proof {
            assert(tags.deep_view() =~= seq!["source_file"@]);
        }
        let metadata = Metadata {
            source_language: Language::FSharp,
            semantic_tags: tags,
            dependencies: Vec::new(),
            annotations: Annotations::empty(),
            legacy_patterns: Vec::new(),
        };
        let loc = SourceLocation {
            file: String::new(),
            start_line: 1,
            end_line: lines_count(source),
            start_column: 0,
            end_column: crate::strutil::sat32_of(source.len()),
        };
        let root = UIRNode {
            id: String::from_str("fsharp_program"),
            node_type: NodeType::Module,
            name: Some(String::from_str("fsharp_program")),
            children,
            metadata,
            source_location: Some(loc),
        };
        proof {
            assert(root.children@.subrange(0, k1) =~= mods_v);
            assert(root.children@.subrange(k1, k2) =~= types_v);
            assert(root.children@.subrange(k2, k3) =~= funcs_v);
            assert(root.children@.subrange(k3, root.children@.len() as int) =~= lets_v);
            assert(fs_modules_of(source@, root.children@.subrange(0, k1)));
            assert(fs_types_of(source@, root.children@.subrange(k1, k2)));
            assert(fs_funcs_of(source@, root.children@.subrange(k2, k3)));
            assert(fs_lets_of(
                source@,
                root.children@.subrange(k3, root.children@.len() as int),
            ));
        }
        Ok(root)
    }
}

} // verus!
