//! Trusted interface to the regular-expression engine. A pattern's matches
//! over a text are a function of the pattern, the text and the group names
//! asked for; the names below stand for those results, and everything that
//! reads them is verified.

use vstd::prelude::*;
use vstd::string::StringSliceAdditionalSpecFns;

verus! {

/// One match of a pattern in a text: the matched text, its byte offsets,
/// and the values of the requested named capture groups, one entry per
/// requested name.
#[derive(Debug)]
pub struct ReMatch {
    pub text: String,
    pub start: usize,
    pub end: usize,
    pub groups: Vec<Option<String>>,
}

/// Whether a pattern is a valid regular expression.
pub uninterp spec fn re_ok(pattern: Seq<char>) -> bool;

/// Whether a pattern matches anywhere in a text.
pub uninterp spec fn re_match(pattern: Seq<char>, text: Seq<char>) -> bool;

/// The non-overlapping matches of a pattern in a text, with the values of
/// the named capture groups asked for.
pub uninterp spec fn re_captures(
    pattern: Seq<char>,
    text: Seq<char>,
    names: Seq<Seq<char>>,
) -> Seq<ReMatch>;

/// Relies on regex::Regex::new and Regex::is_match: whether a pattern
/// matches somewhere in a text depends on the pattern and the text alone,
/// and compiling fails on exactly the patterns the crate rejects.
#[verifier::external_body]
pub fn regex_is_match(pattern: &str, text: &str) -> (r: Option<bool>)
    ensures
        r is Some <==> re_ok(pattern@),
        r matches Some(b) ==> b == re_match(pattern@, text@),
{
    match regex::Regex::new(pattern) {
        Ok(re) => Some(re.is_match(text)),
        Err(_) => None,
    }
}

/// Relies on regex::Regex::new, Regex::captures_iter, Captures::name and
/// the Match accessors: the matches, their byte offsets and their named
/// capture groups depend on the pattern, the text and the names alone. The
/// match list is nonempty exactly when the pattern matches; each match
/// carries one group entry per requested name; each match's text is the
/// byte slice its offsets span; and the matches come in text order without
/// overlap.
#[verifier::external_body]
pub fn regex_captures(pattern: &str, text: &str, names: &Vec<String>) -> (r: Option<
    Vec<ReMatch>,
>)
    ensures
        r is Some <==> re_ok(pattern@),
        r matches Some(v) ==> {
            &&& v@ == re_captures(pattern@, text@, names.deep_view())
            &&& (v@.len() > 0 <==> re_match(pattern@, text@))
            &&& forall|i: int|
                0 <= i < v@.len() ==> {
                    &&& (#[trigger] v@[i]).groups@.len() == names@.len()
                    &&& v@[i].start <= v@[i].end <= text.spec_bytes().len()
                    &&& vstd::utf8::encode_utf8(v@[i].text@) == text.spec_bytes().subrange(
                        v@[i].start as int,
                        v@[i].end as int,
                    )
                }
            &&& forall|i: int|
                0 <= i && i + 1 < v@.len() ==> (#[trigger] v@[i]).end <= v@[i + 1].start
        },
{
    let re = match regex::Regex::new(pattern) { Ok(re) => re, Err(_) => return None };
    let mut out = Vec::new();
    for caps in re.captures_iter(text) {
        let m = caps.get(0).unwrap();
        let groups = names.iter().map(
            |n: &String| caps.name(n).map(|g| g.as_str().to_string()),
        ).collect();
        out.push(ReMatch { text: m.as_str().to_string(), start: m.start(), end: m.end(), groups });
    }
    Some(out)
}

} // verus!
