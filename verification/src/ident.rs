//! Node identifier generation: a stable, deterministic identifier derived
//! from a node's construct kind, source position, and a sanitized prefix of
//! its source text.

use vstd::prelude::*;
use crate::strutil::{dec_digits, sanitized, sanitize_prefix, u32_to_string};

verus! {

/// How many characters of a node's source text enter its identifier.
pub const ID_TEXT_PREFIX: usize = 15;

/// The identifier derived from a node's kind, position and text prefix:
/// `kind_row_col_prefix`, where the prefix is the first characters of the
/// node's source text with spaces replaced by underscores.
pub open spec fn spec_node_id(kind: Seq<char>, row: u32, col: u32, text: Seq<char>) -> Seq<
    char,
> {
    sanitized(kind, kind.len()) + "_"@ + dec_digits(row as nat) + "_"@ + dec_digits(col as nat)
        + "_"@ + sanitized(text, ID_TEXT_PREFIX as nat)
}

/// Builds a node identifier from the construct kind, the zero-based start
/// position, and the node's source text.
pub fn generate_node_id(kind: &str, row: u32, col: u32, text: &str) -> (r: String)
    ensures
        r@ == spec_node_id(kind@, row, col, text@),
{
    let klen = kind.unicode_len();
    let mut s = sanitize_prefix(kind, klen);
    s.append("_");
    let rs = u32_to_string(row);
    s.append(rs.as_str());
    s.append("_");
    let cs = u32_to_string(col);
    s.append(cs.as_str());
    s.append("_");
    let ts = sanitize_prefix(text, ID_TEXT_PREFIX);
    s.append(ts.as_str());
    s
}

/// Identifier generation is deterministic: two nodes with the same kind,
/// the same start position, and the same text prefix receive the same
/// identifier, so repeated normalizations of identical source text agree on
/// every identifier.
pub proof fn lemma_node_id_deterministic(
    kind1: Seq<char>,
    row1: u32,
    col1: u32,
    text1: Seq<char>,
    kind2: Seq<char>,
    row2: u32,
    col2: u32,
    text2: Seq<char>,
)
    requires
        kind1 == kind2,
        row1 == row2,
        col1 == col2,
        sanitized(text1, ID_TEXT_PREFIX as nat) == sanitized(text2, ID_TEXT_PREFIX as nat),
    ensures
        spec_node_id(kind1, row1, col1, text1) == spec_node_id(kind2, row2, col2, text2),
{
}

} // verus!
