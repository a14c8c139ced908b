//! Verified string utilities: equality, substring search, prefix/suffix
//! tests, decimal rendering, and identifier sanitization over `Seq<char>`
//! views.

use vstd::prelude::*;
use vstd::string::StringSliceAdditionalSpecFns;

verus! {

/// True when `n` occurs in `h` starting at position `i`.
pub open spec fn matches_at(h: Seq<char>, n: Seq<char>, i: int) -> bool {
    0 <= i && i + n.len() <= h.len() && h.subrange(i, i + n.len() as int) == n
}

/// True when `n` occurs anywhere in `h`.
pub open spec fn contains_seq(h: Seq<char>, n: Seq<char>) -> bool {
    exists|i: int| matches_at(h, n, i)
}

/// True when `h` ends with `n`.
pub open spec fn ends_with_seq(h: Seq<char>, n: Seq<char>) -> bool {
    n.len() <= h.len() && h.subrange(h.len() - n.len(), h.len() as int) == n
}

/// Character-wise equality of two string slices.
pub fn str_eq(a: &str, b: &str) -> (r: bool)
    ensures
        r == (a@ == b@),
{
    let alen = a.unicode_len();
    let blen = b.unicode_len();
    if alen != blen {
        assert(a@ != b@) by {
            assert(a@.len() != b@.len());
        }
        return false;
    }
    let mut i: usize = 0;
    while i < alen
        invariant
            i <= alen,
            alen == a@.len(),
            alen == b@.len(),
            forall|j: int| 0 <= j < i ==> a@[j] == b@[j],
        decreases alen - i,
    {
        if a.get_char(i) != b.get_char(i) {
            return false;
        }
        i += 1;
    }
    proof {
        assert(a@ =~= b@);
    }
    true
}

/// Tests whether `n` occurs in `h` at character position `i`.
fn str_matches_at(h: &str, n: &str, i: usize) -> (r: bool)
    requires
        i + n@.len() <= h@.len(),
    ensures
        r == matches_at(h@, n@, i as int),
{
    let hlen = h.unicode_len();
    let nlen = n.unicode_len();
    let mut j: usize = 0;
    while j < nlen
        invariant
            j <= nlen,
            nlen == n@.len(),
            hlen == h@.len(),
            i + nlen <= hlen,
            forall|k: int| 0 <= k < j ==> h@[i + k] == n@[k],
        decreases nlen - j,
    {
        if h.get_char(i + j) != n.get_char(j) {
            assert(h@.subrange(i as int, i + n@.len() as int)[j as int] != n@[j as int]);
            return false;
        }
        j += 1;
    }
    proof {
        assert(h@.subrange(i as int, i + n@.len() as int) =~= n@);
    }
    true
}

/// Substring search by characters.
pub fn contains_str(h: &str, n: &str) -> (r: bool)
    ensures
        r == contains_seq(h@, n@),
{
    let hlen = h.unicode_len();
    let nlen = n.unicode_len();
    if nlen > hlen {
        assert(forall|i: int| !matches_at(h@, n@, i));
        return false;
    }
    if nlen == 0 {
        assert(matches_at(h@, n@, 0)) by {
            assert(h@.subrange(0, 0) =~= n@);
        }
        return true;
    }
    let mut i: usize = 0;
    while i <= hlen - nlen
        invariant
            i <= hlen - nlen + 1,
            1 <= nlen <= hlen,
            hlen == h@.len(),
            nlen == n@.len(),
            forall|k: int| 0 <= k < i ==> !matches_at(h@, n@, k),
        decreases hlen + 1 - nlen - i,
    {
        if str_matches_at(h, n, i) {
            return true;
        }
        i += 1;
    }
    assert(forall|k: int| matches_at(h@, n@, k) ==> 0 <= k <= hlen - nlen);
    false
}

/// Suffix test by characters.
pub fn ends_with_str(h: &str, n: &str) -> (r: bool)
    ensures
        r == ends_with_seq(h@, n@),
{
    let hlen = h.unicode_len();
    let nlen = n.unicode_len();
    if nlen > hlen {
        return false;
    }
    str_matches_at(h, n, hlen - nlen)
}


/// The character for a single decimal digit.
pub open spec fn digit_char(d: nat) -> char {
    seq!['0', '1', '2', '3', '4', '5', '6', '7', '8', '9'][d as int]
}

/// Decimal rendering of a natural number, most significant digit first.
pub open spec fn dec_digits(n: nat) -> Seq<char>
    decreases n,
{
    if n < 10 {
        seq![digit_char(n)]
    } else {
        dec_digits(n / 10) + seq![digit_char(n % 10)]
    }
}

/// Renders `n` in decimal.
pub fn u32_to_string(n: u32) -> (r: String)
    ensures
        r@ == dec_digits(n as nat),
    decreases n,
{
    let table = "0123456789";
    proof {
        reveal_strlit("0123456789");
    }
    if n < 10 {
        let d = table.substring_char(n as usize, n as usize + 1);
        let r = String::from_str(d);
        proof {
            assert(r@ =~= dec_digits(n as nat));
        }
        r
    } else {
        let mut r = u32_to_string(n / 10);
        let d = (n % 10) as usize;
        r.append(table.substring_char(d, d + 1));
        proof {
            assert(r@ =~= dec_digits(n as nat));
        }
        r
    }
}

/// The first `k` characters of `s`, with each space replaced by an
/// underscore.
pub open spec fn sanitized(s: Seq<char>, k: nat) -> Seq<char> {
    let cut = if s.len() <= k {
        s
    } else {
        s.take(k as int)
    };
    cut.map_values(|c: char| if c == ' ' { '_' } else { c })
}

/// Takes the first `k` characters of `s` and replaces spaces by
/// underscores.
pub fn sanitize_prefix(s: &str, k: usize) -> (r: String)
    ensures
        r@ == sanitized(s@, k as nat),
{
    let len = s.unicode_len();
    let end = if len < k { len } else { k };
    let mut out = String::new();
    let mut i: usize = 0;
    while i < end
        invariant
            i <= end,
            end == if len < k { len } else { k },
            len == s@.len(),
            out@ == sanitized(s@, k as nat).take(i as int),
        decreases end - i,
    {
        let c = s.get_char(i);
        if c == ' ' {
            out.append("_");
            proof {
                reveal_strlit("_");
                assert(out@ =~= sanitized(s@, k as nat).take(i + 1));
            }
        } else {
            out.append(s.substring_char(i, i + 1));
            proof {
                assert(out@ =~= sanitized(s@, k as nat).take(i + 1));
            }
        }
        i += 1;
    }
    proof {
        assert(out@ =~= sanitized(s@, k as nat));
    }
    out
}

/// Renders `n` in decimal.
pub fn u64_to_string(n: u64) -> (r: String)
    ensures
        r@ == dec_digits(n as nat),
    decreases n,
{
    let table = "0123456789";
    proof {
        reveal_strlit("0123456789");
    }
    if n < 10 {
        let d = table.substring_char(n as usize, n as usize + 1);
        let r = String::from_str(d);
        proof {
            assert(r@ =~= dec_digits(n as nat));
        }
        r
    } else {
        let mut r = u64_to_string(n / 10);
        let d = (n % 10) as usize;
        r.append(table.substring_char(d, d + 1));
        proof {
            assert(r@ =~= dec_digits(n as nat));
        }
        r
    }
}


/// `s` with every occurrence of `from` replaced by `to`.
pub open spec fn replaced(s: Seq<char>, from: char, to: char) -> Seq<char> {
    s.map_values(
        |c: char|
            if c == from {
                to
            } else {
                c
            },
    )
}

/// Replaces every occurrence of `from` in `s` by `to`.
pub fn replace_char(s: &str, from: char, to: char, to_str: &str) -> (r: String)
    requires
        to_str@ == seq![to],
    ensures
        r@ == replaced(s@, from, to),
{
    let len = s.unicode_len();
    let mut out = String::new();
    let mut i: usize = 0;
    while i < len
        invariant
            i <= len,
            len == s@.len(),
            to_str@ == seq![to],
            out@ == replaced(s@, from, to).take(i as int),
        decreases len - i,
    {
        let c = s.get_char(i);
        if c == from {
            out.append(to_str);
        } else {
            out.append(s.substring_char(i, i + 1));
        }
        proof {
            assert(out@ =~= replaced(s@, from, to).take(i + 1));
        }
        i += 1;
    }
    proof {
        assert(out@ =~= replaced(s@, from, to));
    }
    out
}

/// Clones a list of strings, preserving its contents.
pub fn clone_strings(v: &Vec<String>) -> (r: Vec<String>)
    ensures
        r.deep_view() == v.deep_view(),
{
    let mut out: Vec<String> = Vec::new();
    let n = v.len();
    let mut i: usize = 0;
    while i < n
        invariant
            i <= n,
            n == v@.len(),
            out@.len() == i,
            forall|j: int| 0 <= j < i ==> (#[trigger] out@[j])@ == v@[j]@,
        decreases n - i,
    {
        out.push(v[i].clone());
        i += 1;
    }
    proof {
        assert(out.deep_view() =~= v.deep_view());
    }
    out
}

/// A natural number clamped to what a 32-bit counter holds.
pub open spec fn sat32(n: nat) -> u32 {
    if n > u32::MAX {
        u32::MAX
    } else {
        n as u32
    }
}

/// Clamps a count to a 32-bit counter.
pub fn sat32_of(n: usize) -> (r: u32)
    ensures
        r == sat32(n as nat),
{
    if n > u32::MAX as usize {
        u32::MAX
    } else {
        n as u32
    }
}

/// The number of line-feed bytes before a byte offset.
pub open spec fn newlines_before(b: Seq<u8>, end: int) -> nat
    decreases end,
{
    if end <= 0 || end > b.len() {
        0
    } else {
        newlines_before(b, end - 1) + (if b[end - 1] == 10 {
            1nat
        } else {
            0nat
        })
    }
}

/// The one-based line of a byte offset, saturating.
pub open spec fn spec_line_at(b: Seq<u8>, off: int) -> u32 {
    sat32(newlines_before(b, off) + 1)
}

/// The number of lines of a text: its line feeds, plus one for a final
/// unterminated line.
pub open spec fn spec_lines_count(b: Seq<u8>) -> nat {
    newlines_before(b, b.len() as int) + (if b.len() > 0 && b[b.len() - 1] != 10 {
        1nat
    } else {
        0nat
    })
}

/// Counts the line-feed bytes of a text before a byte offset.
pub fn count_newlines(s: &str, end: usize) -> (r: usize)
    requires
        end <= s.spec_bytes().len(),
    ensures
        r as nat == newlines_before(s.spec_bytes(), end as int),
        r <= end,
{
    let b = s.as_bytes();
    let mut count: usize = 0;
    let mut j: usize = 0;
    while j < end
        invariant
            j <= end,
            end <= b@.len(),
            b@ == s.spec_bytes(),
            count as nat == newlines_before(s.spec_bytes(), j as int),
            count <= j,
        decreases end - j,
    {
        if b[j] == 10 {
            count += 1;
        }
        j += 1;
    }
    count
}

/// The one-based line of a byte offset.
pub fn line_at(s: &str, off: usize) -> (r: u32)
    requires
        off <= s.spec_bytes().len(),
    ensures
        r == spec_line_at(s.spec_bytes(), off as int),
{
    let c = count_newlines(s, off);
    if c >= u32::MAX as usize {
        u32::MAX
    } else {
        (c + 1) as u32
    }
}

/// Counts the lines of a text.
pub fn lines_count(s: &str) -> (r: u32)
    ensures
        r == sat32(spec_lines_count(s.spec_bytes())),
{
    let b = s.as_bytes();
    let len = b.len();
    let nl = count_newlines(s, len);
    let extra: usize = if len > 0 && b[len - 1] != 10 {
        1
    } else {
        0
    };
    if nl >= u32::MAX as usize {
        u32::MAX
    } else {
        sat32_of(nl + extra)
    }
}

/// An ASCII whitespace character.
pub open spec fn is_ascii_ws(c: char) -> bool {
    c == ' ' || c == '\t' || c == '\r' || c == '\n'
}

/// Tests for ASCII whitespace.
pub fn is_ws(c: char) -> (r: bool)
    ensures
        r == is_ascii_ws(c),
{
    c == ' ' || c == '\t' || c == '\r' || c == '\n'
}

/// An ASCII identifier character: a letter, a digit or an underscore.
/// This is the exactly specified stand-in for the standard library's
/// Unicode alphanumeric class, which carries no specification here.
pub open spec fn is_ident_char(c: char) -> bool {
    ||| 'a' <= c <= 'z'
    ||| 'A' <= c <= 'Z'
    ||| '0' <= c <= '9'
    ||| c == '_'
}

/// An ASCII letter; the exactly specified stand-in for the standard
/// library's Unicode alphabetic class.
pub open spec fn is_ascii_alpha(c: char) -> bool {
    ||| 'a' <= c <= 'z'
    ||| 'A' <= c <= 'Z'
}

/// Tests whether every character of `s` is an identifier character.
pub fn all_ident_chars(s: &str) -> (r: bool)
    ensures
        r == forall|k: int| 0 <= k < s@.len() ==> is_ident_char(#[trigger] s@[k]),
{
    let len = s.unicode_len();
    let mut i: usize = 0;
    while i < len
        invariant
            i <= len,
            len == s@.len(),
            forall|k: int| 0 <= k < i ==> is_ident_char(#[trigger] s@[k]),
        decreases len - i,
    {
        let c = s.get_char(i);
        if !(('a' <= c && c <= 'z') || ('A' <= c && c <= 'Z') || ('0' <= c && c <= '9') || c
            == '_') {
            return false;
        }
        i += 1;
    }
    true
}

/// Tests whether any character of `s` is an ASCII letter.
pub fn any_alpha(s: &str) -> (r: bool)
    ensures
        r == exists|k: int| 0 <= k < s@.len() && is_ascii_alpha(#[trigger] s@[k]),
{
    let len = s.unicode_len();
    let mut i: usize = 0;
    while i < len
        invariant
            i <= len,
            len == s@.len(),
            forall|k: int| 0 <= k < i ==> !is_ascii_alpha(#[trigger] s@[k]),
        decreases len - i,
    {
        let c = s.get_char(i);
        if ('a' <= c && c <= 'z') || ('A' <= c && c <= 'Z') {
            return true;
        }
        i += 1;
    }
    false
}

/// The number of ASCII whitespace characters in `s`.
pub open spec fn ws_count(s: Seq<char>) -> nat
    decreases s.len(),
{
    if s.len() == 0 {
        0
    } else {
        ws_count(s.drop_last()) + (if is_ascii_ws(s.last()) {
            1nat
        } else {
            0nat
        })
    }
}

/// Counts the ASCII whitespace characters of `s`.
pub fn count_ws(s: &str) -> (r: usize)
    ensures
        r as nat == ws_count(s@),
{
    let len = s.unicode_len();
    let mut count: usize = 0;
    let mut i: usize = 0;
    while i < len
        invariant
            i <= len,
            len == s@.len(),
            count as nat == ws_count(s@.take(i as int)),
            count <= i,
        decreases len - i,
    {
        proof {
            assert(s@.take(i + 1).drop_last() =~= s@.take(i as int));
            assert(s@.take(i + 1).last() == s@[i as int]);
        }
        if is_ws(s.get_char(i)) {
            count += 1;
        }
        i += 1;
    }
    proof {
        assert(s@.take(len as int) =~= s@);
    }
    count
}

/// The end of the whitespace prefix starting at `i`.
pub open spec fn ws_prefix_end(s: Seq<char>, i: int) -> int
    decreases s.len() - i,
{
    if i < 0 || i >= s.len() || !is_ascii_ws(s[i]) {
        i
    } else {
        ws_prefix_end(s, i + 1)
    }
}

/// The start of the whitespace suffix ending at `j`.
pub open spec fn ws_suffix_start(s: Seq<char>, j: int) -> int
    decreases j,
{
    if j <= 0 || j > s.len() || !is_ascii_ws(s[j - 1]) {
        j
    } else {
        ws_suffix_start(s, j - 1)
    }
}

/// The whitespace-prefix end lies within bounds.
pub proof fn lemma_ws_prefix_bounds(s: Seq<char>, i: int)
    requires
        0 <= i <= s.len(),
    ensures
        i <= ws_prefix_end(s, i) <= s.len(),
    decreases s.len() - i,
{
    if !(i >= s.len() || !is_ascii_ws(s[i])) {
        lemma_ws_prefix_bounds(s, i + 1);
    }
}

/// The whitespace-suffix start lies within bounds.
pub proof fn lemma_ws_suffix_bounds(s: Seq<char>, j: int)
    requires
        0 <= j <= s.len(),
    ensures
        0 <= ws_suffix_start(s, j) <= j,
    decreases j,
{
    if !(j <= 0 || !is_ascii_ws(s[j - 1])) {
        lemma_ws_suffix_bounds(s, j - 1);
    }
}


/// `s` with ASCII whitespace stripped from both ends.
pub open spec fn spec_trim(s: Seq<char>) -> Seq<char> {
    let a = ws_prefix_end(s, 0);
    let b = ws_suffix_start(s, s.len() as int);
    if a <= b {
        s.subrange(a, b)
    } else {
        Seq::empty()
    }
}

/// Strips ASCII whitespace from both ends of `s`.
pub fn trim_str(s: &str) -> (r: String)
    ensures
        r@ == spec_trim(s@),
{
    let len = s.unicode_len();
    proof {
        lemma_ws_prefix_bounds(s@, 0);
        lemma_ws_suffix_bounds(s@, len as int);
    }
    let mut a: usize = 0;
    while a < len && is_ws(s.get_char(a))
        invariant
            a <= len,
            len == s@.len(),
            ws_prefix_end(s@, 0) == ws_prefix_end(s@, a as int),
        decreases len - a,
    {
        a += 1;
    }
    let mut b: usize = len;
    while b > 0 && is_ws(s.get_char(b - 1))
        invariant
            b <= len,
            len == s@.len(),
            ws_suffix_start(s@, len as int) == ws_suffix_start(s@, b as int),
        decreases b,
    {
        b -= 1;
    }
    proof {
        assert(ws_prefix_end(s@, a as int) == a as int);
        assert(ws_suffix_start(s@, b as int) == b as int);
    }
    if a <= b {
        String::from_str(s.substring_char(a, b))
    } else {
        String::new()
    }
}

/// The end of the token starting at `i`: the first whitespace position at
/// or after it.
pub open spec fn token_end(s: Seq<char>, i: int) -> int
    decreases s.len() - i,
{
    if i < 0 || i >= s.len() || is_ascii_ws(s[i]) {
        i
    } else {
        token_end(s, i + 1)
    }
}

/// The token end lies within bounds.
pub proof fn lemma_token_end_bounds(s: Seq<char>, i: int)
    requires
        0 <= i <= s.len(),
    ensures
        i <= token_end(s, i) <= s.len(),
    decreases s.len() - i,
{
    if !(i >= s.len() || is_ascii_ws(s[i])) {
        lemma_token_end_bounds(s, i + 1);
    }
}

/// The whitespace-separated tokens of `s` from position `i` on.
pub open spec fn spec_tokens(s: Seq<char>, i: int) -> Seq<Seq<char>>
    decreases s.len() - i,
    via spec_tokens_dec
{
    if i < 0 || i >= s.len() {
        Seq::empty()
    } else if is_ascii_ws(s[i]) {
        spec_tokens(s, i + 1)
    } else {
        let j = token_end(s, i);
        seq![s.subrange(i, j)] + spec_tokens(s, j)
    }
}

#[via_fn]
proof fn spec_tokens_dec(s: Seq<char>, i: int) {
    if 0 <= i < s.len() && !is_ascii_ws(s[i]) {
        lemma_token_end_bounds(s, i + 1);
        assert(token_end(s, i) == token_end(s, i + 1));
        assert(token_end(s, i) >= i + 1);
    }
}

/// Splits `s` into its whitespace-separated tokens.
pub fn tokens_of(s: &str) -> (r: Vec<String>)
    ensures
        r.deep_view() == spec_tokens(s@, 0),
{
    let len = s.unicode_len();
    let mut out: Vec<String> = Vec::new();
    let mut i: usize = 0;
    proof {
        assert(out.deep_view() + spec_tokens(s@, 0) =~= spec_tokens(s@, 0));
    }
    while i < len
        invariant
            i <= len,
            len == s@.len(),
            spec_tokens(s@, 0) =~= out.deep_view() + spec_tokens(s@, i as int),
        decreases len - i,
    {
        if is_ws(s.get_char(i)) {
            i += 1;
        } else {
            proof {
                lemma_token_end_bounds(s@, i + 1);
                assert(token_end(s@, i as int) == token_end(s@, i + 1));
                assert(token_end(s@, i as int) >= i + 1);
            }
            let mut j: usize = i;
            while j < len && !is_ws(s.get_char(j))
                invariant
                    i <= j <= len,
                    len == s@.len(),
                    token_end(s@, i as int) == token_end(s@, j as int),
                decreases len - j,
            {
                j += 1;
            }
            proof {
                assert(token_end(s@, j as int) == j as int);
            }
            let ghost pre = out.deep_view();
            out.push(String::from_str(s.substring_char(i, j)));
            proof {
                assert(out.deep_view() =~= pre.push(s@.subrange(i as int, j as int)));
                assert(pre.push(s@.subrange(i as int, j as int)) + spec_tokens(s@, j as int)
                    =~= pre + (seq![s@.subrange(i as int, j as int)] + spec_tokens(s@, j as int)));
            }
            i = j;
        }
    }
    proof {
        assert(out.deep_view() + spec_tokens(s@, len as int) =~= out.deep_view());
    }
    out
}

/// The position of the first comma at or after `i`, or the text's end.
pub open spec fn comma_end(s: Seq<char>, i: int) -> int
    decreases s.len() - i,
{
    if i < 0 || i >= s.len() || s[i] == ',' {
        i
    } else {
        comma_end(s, i + 1)
    }
}

/// The comma position lies within bounds.
pub proof fn lemma_comma_end_bounds(s: Seq<char>, i: int)
    requires
        0 <= i <= s.len(),
    ensures
        i <= comma_end(s, i) <= s.len(),
    decreases s.len() - i,
{
    if !(i >= s.len() || s[i] == ',') {
        lemma_comma_end_bounds(s, i + 1);
    }
}

/// The comma-separated pieces of `s` from position `i` on, empty pieces
/// kept.
pub open spec fn spec_split_comma(s: Seq<char>, i: int) -> Seq<Seq<char>>
    decreases s.len() - i,
    via spec_split_comma_dec
{
    if i < 0 || i > s.len() {
        Seq::empty()
    } else {
        let j = comma_end(s, i);
        if j < s.len() {
            seq![s.subrange(i, j)] + spec_split_comma(s, j + 1)
        } else {
            seq![s.subrange(i, j)]
        }
    }
}

#[via_fn]
proof fn spec_split_comma_dec(s: Seq<char>, i: int) {
    if 0 <= i <= s.len() {
        lemma_comma_end_bounds(s, i);
    }
}

/// Splits `s` at commas, keeping empty pieces.
pub fn split_comma(s: &str) -> (r: Vec<String>)
    ensures
        r.deep_view() == spec_split_comma(s@, 0),
{
    let len = s.unicode_len();
    let mut out: Vec<String> = Vec::new();
    let mut i: usize = 0;
    proof {
        assert(out.deep_view() + spec_split_comma(s@, 0) =~= spec_split_comma(s@, 0));
    }
    loop
        invariant
            i <= len,
            len == s@.len(),
            spec_split_comma(s@, 0) =~= out.deep_view() + spec_split_comma(s@, i as int),
        decreases len - i,
    {
        proof {
            lemma_comma_end_bounds(s@, i as int);
        }
        let mut j: usize = i;
        while j < len && s.get_char(j) != ','
            invariant
                i <= j <= len,
                len == s@.len(),
                comma_end(s@, i as int) == comma_end(s@, j as int),
            decreases len - j,
        {
            j += 1;
        }
        proof {
            assert(comma_end(s@, j as int) == j as int);
        }
        let ghost pre = out.deep_view();
        out.push(String::from_str(s.substring_char(i, j)));
        proof {
            assert(out.deep_view() =~= pre.push(s@.subrange(i as int, j as int)));
        }
        if j < len {
            proof {
                assert(pre.push(s@.subrange(i as int, j as int)) + spec_split_comma(s@, j + 1)
                    =~= pre + (seq![s@.subrange(i as int, j as int)] + spec_split_comma(
                    s@,
                    j + 1,
                )));
            }
            i = j + 1;
        } else {
            proof {
                assert(pre.push(s@.subrange(i as int, j as int)) =~= pre + seq![
                    s@.subrange(i as int, j as int),
                ]);
                assert(out.deep_view() =~= spec_split_comma(s@, 0));
            }
            return out;
        }
    }
}

} // verus!
