//! Template rendering: substitutes `{{param}}` placeholders with values
//! from a parameter map; a placeholder without a corresponding parameter is
//! left verbatim, signalling an incomplete rule rather than failing
//! silently.

use vstd::prelude::*;

verus! {

/// The first value stored under a parameter name.
pub open spec fn lookup_param(params: Seq<(Seq<char>, Seq<char>)>, name: Seq<char>) -> Option<
    Seq<char>,
>
    decreases params.len(),
{
    if params.len() == 0 {
        None
    } else if params[0].0 == name {
        Some(params[0].1)
    } else {
        lookup_param(params.drop_first(), name)
    }
}

/// The position of the first closing brace pair at or after `i`.
pub open spec fn spec_find_close(t: Seq<char>, i: int) -> Option<int>
    decreases t.len() - i,
{
    if i < 0 || i + 2 > t.len() {
        None
    } else if t[i] == '}' && t[i + 1] == '}' {
        Some(i)
    } else {
        spec_find_close(t, i + 1)
    }
}

/// A found closing pair lies at or after the scan start and within the
/// text.
pub proof fn lemma_find_close_bounds(t: Seq<char>, i: int)
    ensures
        spec_find_close(t, i) matches Some(j) ==> i <= j && j + 2 <= t.len(),
    decreases t.len() - i,
{
    if !(i < 0 || i + 2 > t.len()) && !(t[i] == '}' && t[i + 1] == '}') {
        lemma_find_close_bounds(t, i + 1);
    }
}

/// The rendering of a template from position `i` on: at each `{{` with a
/// closing `}}`, the name between them is substituted when the parameter
/// map holds it and left verbatim when it does not; everything else is
/// copied.
pub open spec fn spec_render_from(
    t: Seq<char>,
    i: int,
    params: Seq<(Seq<char>, Seq<char>)>,
) -> Seq<char>
    decreases t.len() - i,
    via spec_render_from_dec
{
    if i < 0 || i >= t.len() {
        Seq::empty()
    } else if i + 2 <= t.len() && t[i] == '{' && t[i + 1] == '{' {
        match spec_find_close(t, i + 2) {
            None => t.subrange(i, t.len() as int),
            Some(j) => {
                let rest = spec_render_from(t, j + 2, params);
                match lookup_param(params, t.subrange(i + 2, j)) {
                    Some(v) => v + rest,
                    None => t.subrange(i, j + 2) + rest,
                }
            },
        }
    } else {
        seq![t[i]] + spec_render_from(t, i + 1, params)
    }
}

#[via_fn]
proof fn spec_render_from_dec(t: Seq<char>, i: int, params: Seq<(Seq<char>, Seq<char>)>) {
    lemma_find_close_bounds(t, i + 2);
}

/// The rendering of a whole template.
pub open spec fn spec_render(t: Seq<char>, params: Seq<(Seq<char>, Seq<char>)>) -> Seq<char> {
    spec_render_from(t, 0, params)
}

/// Looks up a parameter value by name.
fn find_param<'a>(params: &'a Vec<(String, String)>, name: &str) -> (r: Option<&'a String>)
    ensures
        match r {
            Some(v) => lookup_param(
                params@.map_values(|p: (String, String)| (p.0@, p.1@)),
                name@,
            ) == Some(v@),
            None => lookup_param(
                params@.map_values(|p: (String, String)| (p.0@, p.1@)),
                name@,
            ) is None,
        },
{
    let ghost m = params@.map_values(|p: (String, String)| (p.0@, p.1@));
    let n = params.len();
    proof {
        assert(m.skip(0) =~= m);
    }
    let mut i: usize = 0;
    while i < n
        invariant
            i <= n,
            n == params@.len(),
            m == params@.map_values(|p: (String, String)| (p.0@, p.1@)),
            lookup_param(m, name@) == lookup_param(m.skip(i as int), name@),
        decreases n - i,
    {
        proof {
            assert(m.skip(i as int)[0] == m[i as int]);
            assert(m.skip(i as int).drop_first() =~= m.skip(i + 1));
        }
        if crate::strutil::str_eq(params[i].0.as_str(), name) {
            return Some(&params[i].1);
        }
        i += 1;
    }
    proof {
        assert(m.skip(n as int).len() == 0);
    }
    None
}

/// Finds the first closing brace pair at or after `i`.
fn find_close(t: &str, i: usize) -> (r: Option<usize>)
    requires
        i <= t@.len(),
    ensures
        match r {
            Some(j) => spec_find_close(t@, i as int) == Some(j as int) && i <= j && j + 2
                <= t@.len(),
            None => spec_find_close(t@, i as int) is None,
        },
{
    let len = t.unicode_len();
    let mut j: usize = i;
    while j < len && j + 1 < len
        invariant
            i <= j,
            j <= len,
            len == t@.len(),
            spec_find_close(t@, i as int) == spec_find_close(t@, j as int),
        decreases len - j,
    {
        if t.get_char(j) == '}' && t.get_char(j + 1) == '}' {
            return Some(j);
        }
        j += 1;
    }
    None
}

/// Renders a template from position `i` on.
fn render_from(t: &str, i: usize, params: &Vec<(String, String)>) -> (r: String)
    requires
        i <= t@.len(),
    ensures
        r@ == spec_render_from(
            t@,
            i as int,
            params@.map_values(|p: (String, String)| (p.0@, p.1@)),
        ),
    decreases t@.len() - i,
{
    let ghost m = params@.map_values(|p: (String, String)| (p.0@, p.1@));
    let len = t.unicode_len();
    if i >= len {
        String::new()
    } else if i < len && i + 1 < len && t.get_char(i) == '{' && t.get_char(i + 1) == '{' {
        match find_close(t, i + 2) {
            None => String::from_str(t.substring_char(i, len)),
            Some(j) => {
                let name = t.substring_char(i + 2, j);
                let rest = render_from(t, j + 2, params);
                match find_param(params, name) {
                    Some(v) => {
                        let mut out = v.clone();
                        out.append(rest.as_str());
                        out
                    },
                    None => {
                        let mut out = String::from_str(t.substring_char(i, j + 2));
                        out.append(rest.as_str());
                        out
                    },
                }
            },
        }
    } else {
        let mut out = String::from_str(t.substring_char(i, i + 1));
        out.append(render_from(t, i + 1, params).as_str());
        proof {
            assert(t@.subrange(i as int, i + 1) =~= seq![t@[i as int]]);
        }
        out
    }
}

/// Renders a transformation template by substituting each `{{param}}`
/// placeholder with the corresponding parameter value; placeholders without
/// a corresponding parameter are left verbatim.
pub fn render_template(template: &str, params: &Vec<(String, String)>) -> (r: String)
    ensures
        r@ == spec_render(
            template@,
            params@.map_values(|p: (String, String)| (p.0@, p.1@)),
        ),
{
    render_from(template, 0, params)
}

/// The first closing pair of a placeholder-only template sits right after
/// the name.
proof fn lemma_find_close_in_placeholder(t: Seq<char>, name: Seq<char>, i: int)
    requires
        t =~= seq!['{', '{'] + name + seq!['}', '}'],
        2 <= i <= 2 + name.len(),
        forall|k: int| 0 <= k < name.len() ==> name[k] != '}',
    ensures
        spec_find_close(t, i) == Some(2 + name.len() as int),
    decreases t.len() - i,
{
    let close = 2 + name.len() as int;
    assert(t.len() == name.len() + 4);
    assert(t[close] == '}');
    assert(t[close + 1] == '}');
    if i < close {
        assert(t[i] == name[i - 2]);
        assert(t[i] != '}');
        lemma_find_close_in_placeholder(t, name, i + 1);
    }
}

/// Substitution is the identity on unknown placeholders: a template that
/// is exactly one placeholder whose name the parameter map does not hold is
/// rendered verbatim — not emptied and not an error.
pub proof fn lemma_unknown_placeholder_verbatim(
    name: Seq<char>,
    params: Seq<(Seq<char>, Seq<char>)>,
)
    requires
        forall|k: int| 0 <= k < name.len() ==> name[k] != '}',
        lookup_param(params, name) is None,
    ensures
        spec_render(seq!['{', '{'] + name + seq!['}', '}'], params) == seq!['{', '{'] + name
            + seq!['}', '}'],
{
    let t = seq!['{', '{'] + name + seq!['}', '}'];
    let close = 2 + name.len() as int;
    lemma_find_close_in_placeholder(t, name, 2);
    assert(t[0] == '{');
    assert(t[1] == '{');
    assert(t.subrange(2, close) =~= name);
    assert(spec_render_from(t, close + 2, params) =~= Seq::<char>::empty());
    assert(t.subrange(0, close + 2) =~= t);
    assert(t + Seq::<char>::empty() =~= t);
}

} // verus!
