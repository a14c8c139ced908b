//! The Go front end: normalizes trees of the Go grammar onto the UIR.

use vstd::prelude::*;
use crate::cst::{first_child_of_kind, ts_parse_go, go_cst, CstNode};
use crate::errors::CoalesceError;
use crate::normalize::cst_to_uir;
use crate::strutil::str_eq;
use crate::uir::{Language, UIRNode};

verus! {

/// An import path made into an identifier: quotes dropped, slashes turned
/// into underscores.
pub open spec fn import_ident(s: Seq<char>) -> Seq<char>
    decreases s.len(),
{
    if s.len() == 0 {
        Seq::empty()
    } else {
        let head: Seq<char> = if s[0] == '"' {
            Seq::empty()
        } else if s[0] == '/' {
            seq!['_']
        } else {
            seq![s[0]]
        };
        head + import_ident(s.drop_first())
    }
}

/// Appending a character extends the identifier form at the end.
proof fn lemma_import_ident_push(s: Seq<char>, x: char)
    ensures
        import_ident(s.push(x)) == import_ident(s) + import_ident(seq![x]),
    decreases s.len(),
{
    assert(seq![x].drop_first() =~= Seq::<char>::empty());
    assert(seq![x][0] == x);
    if s.len() == 0 {
        assert(s.push(x)[0] == x);
        assert(s.push(x).drop_first() =~= Seq::<char>::empty());
        assert(import_ident(s) =~= Seq::<char>::empty());
        assert(import_ident(s.push(x)) =~= import_ident(s) + import_ident(seq![x]));
    } else {
        assert(s.push(x)[0] == s[0]);
        assert(s.push(x).drop_first() =~= s.drop_first().push(x));
        lemma_import_ident_push(s.drop_first(), x);
        assert(import_ident(s.push(x)) =~= import_ident(s) + import_ident(seq![x]));
    }
}

/// Turns an import path into an identifier: drops quotes and replaces
/// slashes by underscores.
pub fn import_ident_exec(s: &str) -> (r: String)
    ensures
        r@ == import_ident(s@),
{
    let len = s.unicode_len();
    let mut out = String::new();
    proof {
        assert(s@.take(0) =~= Seq::<char>::empty());
    }
    let mut i: usize = 0;
    while i < len
        invariant
            i <= len,
            len == s@.len(),
            out@ == import_ident(s@.take(i as int)),
        decreases len - i,
    {
        let c = s.get_char(i);
        proof {
            lemma_import_ident_push(s@.take(i as int), s@[i as int]);
            assert(s@.take(i + 1) =~= s@.take(i as int).push(s@[i as int]));
            assert(seq![s@[i as int]].drop_first() =~= Seq::<char>::empty());
            assert(seq![s@[i as int]][0] == s@[i as int]);
            assert(import_ident(Seq::<char>::empty()) =~= Seq::<char>::empty());
        }
        if c == '"' {
            proof {
                assert(import_ident(seq![s@[i as int]]) =~= Seq::<char>::empty());
                assert(out@ =~= import_ident(s@.take(i + 1)));
            }
        } else if c == '/' {
            out.append("_");
            proof {
                reveal_strlit("_");
                assert("_"@ =~= seq!['_']);
                assert(import_ident(seq![s@[i as int]]) =~= seq!['_']);
                assert(out@ =~= import_ident(s@.take(i + 1)));
            }
        } else {
            out.append(s.substring_char(i, i + 1));
            proof {
                assert(s@.subrange(i as int, i + 1) =~= seq![s@[i as int]]);
                assert(import_ident(seq![s@[i as int]]) =~= seq![s@[i as int]]);
                assert(out@ =~= import_ident(s@.take(i + 1)));
            }
        }
        i += 1;
    }
    proof {
        assert(s@.take(len as int) =~= s@);
    }
    out
}

/// The name the Go front end gives a node of the given kind.
pub open spec fn spec_go_name(c: CstNode) -> Option<Seq<char>> {
    let k = c.kind@;
    if k == "source_file"@ {
        Some("go_program"@)
    } else if k == "function_declaration"@ || k == "method_declaration"@ || k
        == "parameter_declaration"@ {
        match first_child_of_kind(c.children@, "identifier"@) {
            Some(ch) => Some(ch.text@),
            None => None,
        }
    } else if k == "type_declaration"@ {
        match first_child_of_kind(c.children@, "type_spec"@) {
            Some(spec_node) => match first_child_of_kind(
                spec_node.children@,
                "type_identifier"@,
            ) {
                Some(ch) => Some(ch.text@),
                None => None,
            },
            None => None,
        }
    } else if k == "struct_type"@ {
        Some("anonymous_struct"@)
    } else if k == "interface_type"@ {
        Some("anonymous_interface"@)
    } else if k == "identifier"@ {
        Some(c.text@)
    } else if k == "package_clause"@ {
        match first_child_of_kind(c.children@, "package_identifier"@) {
            Some(ch) => Some("package_"@ + ch.text@),
            None => Some("main_package"@),
        }
    } else if k == "import_declaration"@ {
        match first_child_of_kind(c.children@, "import_spec"@) {
            Some(ch) => Some("import_"@ + import_ident(ch.text@)),
            None => Some("unknown_import"@),
        }
    } else {
        None
    }
}

/// Extracts the name the Go front end gives a node.
pub fn go_name(c: &CstNode) -> (r: Option<String>)
    ensures
        r.deep_view() == spec_go_name(*c),
{
    let k = c.kind.as_str();
    if str_eq(k, "source_file") {
        Some(String::from_str("go_program"))
    } else if str_eq(k, "function_declaration") || str_eq(k, "method_declaration") || str_eq(
        k,
        "parameter_declaration",
    ) {
        match c.find_child("identifier") {
            Some(ch) => Some(ch.text.clone()),
            None => None,
        }
    } else if str_eq(k, "type_declaration") {
        match c.find_child("type_spec") {
            Some(spec_node) => match spec_node.find_child("type_identifier") {
                Some(ch) => Some(ch.text.clone()),
                None => None,
            },
            None => None,
        }
    } else if str_eq(k, "struct_type") {
        Some(String::from_str("anonymous_struct"))
    } else if str_eq(k, "interface_type") {
        Some(String::from_str("anonymous_interface"))
    } else if str_eq(k, "identifier") {
        Some(c.text.clone())
    } else if str_eq(k, "package_clause") {
        match c.find_child("package_identifier") {
            Some(ch) => {
                let mut s = String::from_str("package_");
                s.append(ch.text.as_str());
                Some(s)
            },
            None => Some(String::from_str("main_package")),
        }
    } else if str_eq(k, "import_declaration") {
        match c.find_child("import_spec") {
            Some(ch) => {
                let mut s = String::from_str("import_");
                let cleaned = import_ident_exec(ch.text.as_str());
                s.append(cleaned.as_str());
                Some(s)
            },
            None => Some(String::from_str("unknown_import")),
        }
    } else {
        None
    }
}

/// The Go front end.
pub struct GoParser {}

impl GoParser {
    /// A new Go front end.
    pub fn new() -> (r: Result<GoParser, CoalesceError>)
        ensures
            r is Ok,
    {
        Ok(GoParser {  })
    }

    /// Normalizes Go source text onto the UIR. Fails only when the grammar
    /// engine yields no tree at all; otherwise the whole tree is normalized
    /// with syntax-error children skipped.
    pub fn parse(&self, source: &str) -> (r: Result<UIRNode, CoalesceError>)
        ensures
            r is Ok <==> go_cst(source@) is Some,
            r matches Ok(u) ==> crate::normalize::uir_of_cst(
                Language::Go,
                go_cst(source@)->Some_0,
                u,
            ),
            r matches Err(e) ==> e matches CoalesceError::ParseError { message, line, column }
                && message@ == "Failed to parse Go source"@ && line == 0 && column == 0,
    {
        match ts_parse_go(source) {
            Some(c) => Ok(cst_to_uir(Language::Go, &c)),
            None => Err(
                CoalesceError::ParseError {
                    message: String::from_str("Failed to parse Go source"),
                    line: 0,
                    column: 0,
                },
            ),
        }
    }
}

} // verus!
