//! Detection of library dependencies and usage idioms in raw source text.
//! Each registered library has an import signature and usage signatures; a
//! usage counts only when the import is present, and one dependency record
//! is emitted per library name.

use vstd::prelude::*;
use vstd::string::StringSliceAdditionalSpecFns;
use vstd::utf8::encode_utf8;
use crate::errors::CoalesceError;
use crate::lal::{LibraryDependency, LibraryUsage};
use crate::regexutil::{re_captures, re_match, re_ok, regex_captures, regex_is_match, ReMatch};
use crate::strutil::str_eq;
use crate::uir::Language;

verus! {

/// One usage signature of a library: a pattern, the semantic intent of a
/// hit, and the capture groups to copy into the usage's parameters.
#[derive(Debug)]
pub struct UsagePattern {
    pub name: String,
    pub pattern: String,
    pub semantic_intent: String,
    pub extract_params: Vec<String>,
}

/// A library's detection record for one import variant.
#[derive(Debug)]
pub struct DetectionPattern {
    pub library_name: String,
    pub import_pattern: String,
    pub ecosystem: String,
    pub usage_patterns: Vec<UsagePattern>,
}

/// The value level of one detected usage.
pub ghost struct UsageModel {
    pub pattern_name: Seq<char>,
    pub method_name: Seq<char>,
    pub parameters: Seq<(Seq<char>, Seq<char>)>,
    pub semantic_intent: Seq<char>,
    pub start: usize,
    pub end: usize,
}

/// The value level of one detected dependency.
pub ghost struct DepModel {
    pub name: Seq<char>,
    pub version: Option<Seq<char>>,
    pub ecosystem: Seq<char>,
    pub import_path: Option<Seq<char>>,
    pub usages: Seq<UsageModel>,
}

/// The value level of a usage record.
pub open spec fn usage_model(u: LibraryUsage) -> UsageModel {
    UsageModel {
        pattern_name: u.pattern_name@,
        method_name: u.method_name@,
        parameters: u.parameters@.map_values(|p: (String, String)| (p.0@, p.1@)),
        semantic_intent: u.semantic_intent@,
        start: u.source_location.0,
        end: u.source_location.1,
    }
}

/// The value level of a dependency record.
pub open spec fn dep_model(d: LibraryDependency) -> DepModel {
    DepModel {
        name: d.name@,
        version: d.version.deep_view(),
        ecosystem: d.ecosystem@,
        import_path: d.import_path.deep_view(),
        usages: d.usage_patterns@.map_values(|u: LibraryUsage| usage_model(u)),
    }
}

/// The parameters copied from a match: one pair per requested group name
/// whose group participated, in the order the names were requested.
pub open spec fn spec_params(names: Seq<Seq<char>>, groups: Seq<Option<Seq<char>>>, i: int) -> Seq<
    (Seq<char>, Seq<char>),
>
    decreases names.len() - i,
{
    if i < 0 || i >= names.len() || i >= groups.len() {
        Seq::empty()
    } else {
        match groups[i] {
            Some(v) => seq![(names[i], v)] + spec_params(names, groups, i + 1),
            None => spec_params(names, groups, i + 1),
        }
    }
}

/// The usage the detector derives from one match of one usage signature.
pub open spec fn spec_usage_of(up: UsagePattern, m: ReMatch) -> UsageModel {
    UsageModel {
        pattern_name: up.name@,
        method_name: m.text@,
        parameters: spec_params(up.extract_params.deep_view(), m.groups.deep_view(), 0),
        semantic_intent: up.semantic_intent@,
        start: m.start,
        end: m.end,
    }
}

/// The usages one usage signature contributes: one per match of its
/// pattern; a signature that does not compile contributes none.
pub open spec fn spec_usages_of_pattern(up: UsagePattern, code: Seq<char>) -> Seq<UsageModel> {
    if re_ok(up.pattern@) {
        re_captures(up.pattern@, code, up.extract_params.deep_view()).map_values(
            |m: ReMatch| spec_usage_of(up, m),
        )
    } else {
        Seq::empty()
    }
}

/// The usages a detection record's signatures contribute, in order.
pub open spec fn spec_usages(ups: Seq<UsagePattern>, code: Seq<char>) -> Seq<UsageModel>
    decreases ups.len(),
{
    if ups.len() == 0 {
        Seq::empty()
    } else {
        spec_usages_of_pattern(ups[0], code) + spec_usages(ups.drop_first(), code)
    }
}

/// A usage's span lies within the text and its matched text is exactly
/// the byte slice the span names.
pub open spec fn usage_in_text(code_bytes: Seq<u8>, u: UsageModel) -> bool {
    &&& u.start <= u.end <= code_bytes.len()
    &&& encode_utf8(u.method_name) == code_bytes.subrange(u.start as int, u.end as int)
}

/// Whether a detection record fires on a text: its import signature
/// compiles and is present, and at least one usage matched.
pub open spec fn spec_fires(p: DetectionPattern, code: Seq<char>) -> bool {
    &&& re_ok(p.import_pattern@)
    &&& re_match(p.import_pattern@, code)
    &&& spec_usages(p.usage_patterns@, code).len() > 0
}

/// The index of the dependency already recorded for a library name.
pub open spec fn spec_dep_index(acc: Seq<DepModel>, name: Seq<char>) -> Option<int>
    decreases acc.len(),
{
    if acc.len() == 0 {
        None
    } else if acc[0].name == name {
        Some(0)
    } else {
        match spec_dep_index(acc.drop_first(), name) {
            Some(i) => Some(i + 1),
            None => None,
        }
    }
}

/// Adds one detection record's findings to the accumulated dependencies:
/// nothing when the record does not fire; otherwise its usages extend the
/// dependency already recorded under the same library name, or a new
/// dependency is appended.
pub open spec fn spec_add_dep(acc: Seq<DepModel>, p: DetectionPattern, code: Seq<char>) -> Seq<
    DepModel,
> {
    if !spec_fires(p, code) {
        acc
    } else {
        let us = spec_usages(p.usage_patterns@, code);
        match spec_dep_index(acc, p.library_name@) {
            Some(i) => acc.update(
                i,
                DepModel { usages: acc[i].usages + us, ..acc[i] },
            ),
            None => acc.push(
                DepModel {
                    name: p.library_name@,
                    version: None,
                    ecosystem: p.ecosystem@,
                    import_path: None,
                    usages: us,
                },
            ),
        }
    }
}

/// The dependencies detected by a sequence of detection records, processed
/// in order over an accumulator.
pub open spec fn spec_detect(pats: Seq<DetectionPattern>, code: Seq<char>, acc: Seq<DepModel>) -> Seq<
    DepModel,
>
    decreases pats.len(),
{
    if pats.len() == 0 {
        acc
    } else {
        spec_detect(pats.drop_first(), code, spec_add_dep(acc, pats[0], code))
    }
}

/// Processing one more record at the end folds onto the accumulated
/// result.
pub proof fn lemma_spec_detect_snoc(
    pats: Seq<DetectionPattern>,
    code: Seq<char>,
    acc: Seq<DepModel>,
    p: DetectionPattern,
)
    ensures
        spec_detect(pats.push(p), code, acc) == spec_add_dep(spec_detect(pats, code, acc), p, code),
    decreases pats.len(),
{
    if pats.len() == 0 {
        assert(pats.push(p)[0] == p);
        assert(pats.push(p).drop_first() =~= pats);
        assert(spec_detect(pats.push(p), code, acc) == spec_detect(
            pats,
            code,
            spec_add_dep(acc, p, code),
        ));
    } else {
        assert(pats.push(p)[0] == pats[0]);
        assert(pats.push(p).drop_first() =~= pats.drop_first().push(p));
        lemma_spec_detect_snoc(pats.drop_first(), code, spec_add_dep(acc, pats[0], code), p);
    }
}

/// Import-gating: a detection record whose import signature is absent from
/// the text contributes nothing, whatever its usage signatures would match.
/// A text with none of the imports present yields no dependencies at all.
pub proof fn lemma_import_gating(pats: Seq<DetectionPattern>, code: Seq<char>)
    requires
        forall|i: int|
            0 <= i < pats.len() ==> !re_match((#[trigger] pats[i]).import_pattern@, code),
    ensures
        spec_detect(pats, code, Seq::empty()) == Seq::<DepModel>::empty(),
    decreases pats.len(),
{
    if pats.len() > 0 {
        assert(!spec_fires(pats[0], code));
        assert(forall|i: int|
            0 <= i < pats.drop_first().len() ==> !re_match(
                (#[trigger] pats.drop_first()[i]).import_pattern@,
                code,
            ));
        lemma_import_gating(pats.drop_first(), code);
    }
}

/// Appending a usage signature appends its contribution.
proof fn lemma_spec_usages_snoc(ups: Seq<UsagePattern>, code: Seq<char>, u: UsagePattern)
    ensures
        spec_usages(ups.push(u), code) == spec_usages(ups, code) + spec_usages_of_pattern(
            u,
            code,
        ),
    decreases ups.len(),
{
    if ups.len() == 0 {
        assert(ups.push(u)[0] == u);
        assert(ups.push(u).drop_first() =~= ups);
        assert(spec_usages(ups.push(u), code) =~= spec_usages(ups, code)
            + spec_usages_of_pattern(u, code));
    } else {
        assert(ups.push(u)[0] == ups[0]);
        assert(ups.push(u).drop_first() =~= ups.drop_first().push(u));
        lemma_spec_usages_snoc(ups.drop_first(), code, u);
        assert(spec_usages(ups.push(u), code) =~= spec_usages(ups, code)
            + spec_usages_of_pattern(u, code));
    }
}

/// A first dependency index found by scan agrees with the specification.
proof fn lemma_dep_index_found(acc: Seq<DepModel>, name: Seq<char>, i: int)
    requires
        0 <= i < acc.len(),
        acc[i].name == name,
        forall|j: int| 0 <= j < i ==> (#[trigger] acc[j]).name != name,
    ensures
        spec_dep_index(acc, name) == Some(i),
    decreases i,
{
    if i > 0 {
        assert(acc.drop_first()[i - 1] == acc[i]);
        assert(forall|j: int|
            0 <= j < i - 1 ==> (#[trigger] acc.drop_first()[j]).name != name);
        lemma_dep_index_found(acc.drop_first(), name, i - 1);
    }
}

/// A scan that found no dependency agrees with the specification.
proof fn lemma_dep_index_none(acc: Seq<DepModel>, name: Seq<char>)
    requires
        forall|j: int| 0 <= j < acc.len() ==> (#[trigger] acc[j]).name != name,
    ensures
        spec_dep_index(acc, name) is None,
    decreases acc.len(),
{
    if acc.len() > 0 {
        assert(forall|j: int|
            0 <= j < acc.drop_first().len() ==> (#[trigger] acc.drop_first()[j]).name != name);
        lemma_dep_index_none(acc.drop_first(), name);
    }
}

/// Copies the participating named groups of one match into parameters.
fn build_params(names: &Vec<String>, groups: &Vec<Option<String>>) -> (r: Vec<(String, String)>)
    requires
        names@.len() == groups@.len(),
    ensures
        r@.map_values(|p: (String, String)| (p.0@, p.1@)) == spec_params(
            names.deep_view(),
            groups.deep_view(),
            0,
        ),
{
    let mut out: Vec<(String, String)> = Vec::new();
    let n = names.len();
    let mut i: usize = 0;
    while i < n
        invariant
            i <= n,
            n == names@.len(),
            n == groups@.len(),
            spec_params(names.deep_view(), groups.deep_view(), 0) =~= out@.map_values(
                |p: (String, String)| (p.0@, p.1@),
            ) + spec_params(names.deep_view(), groups.deep_view(), i as int),
        decreases n - i,
    {
        match &groups[i] {
            Some(v) => {
                let pair = (names[i].clone(), v.clone());
                proof {
                    assert(out@.push(pair).map_values(|p: (String, String)| (p.0@, p.1@)) =~= out@.map_values(
                        |p: (String, String)| (p.0@, p.1@),
                    ).push((pair.0@, pair.1@)));
                    assert(spec_params(names.deep_view(), groups.deep_view(), i as int) =~= seq![
                        (names.deep_view()[i as int], groups.deep_view()[i as int]->Some_0),
                    ] + spec_params(names.deep_view(), groups.deep_view(), i + 1));
                    assert(out@.map_values(|p: (String, String)| (p.0@, p.1@)).push(
                        (pair.0@, pair.1@),
                    ) + spec_params(names.deep_view(), groups.deep_view(), i + 1)
                        =~= out@.map_values(|p: (String, String)| (p.0@, p.1@)) + spec_params(
                        names.deep_view(),
                        groups.deep_view(),
                        i as int,
                    ));
                }
                out.push(pair);
            },
            None => {
                proof {
                    assert(groups.deep_view()[i as int] is None);
                }
            },
        }
        i += 1;
    }
    proof {
        assert(spec_params(names.deep_view(), groups.deep_view(), n as int) =~= Seq::<(
            Seq<char>,
            Seq<char>,
        )>::empty());
        assert(out@.map_values(|p: (String, String)| (p.0@, p.1@)) + Seq::<(
            Seq<char>,
            Seq<char>,
        )>::empty() =~= out@.map_values(|p: (String, String)| (p.0@, p.1@)));
    }
    out
}


/// Finds the dependency already recorded under a library name.
fn find_dep_index(deps: &Vec<LibraryDependency>, name: &str) -> (r: Option<usize>)
    ensures
        match r {
            Some(i) => i < deps@.len() && spec_dep_index(
                deps@.map_values(|d: LibraryDependency| dep_model(d)),
                name@,
            ) == Some(i as int),
            None => spec_dep_index(
                deps@.map_values(|d: LibraryDependency| dep_model(d)),
                name@,
            ) is None,
        },
{
    let ghost models = deps@.map_values(|d: LibraryDependency| dep_model(d));
    let n = deps.len();
    let mut i: usize = 0;
    while i < n
        invariant
            i <= n,
            n == deps@.len(),
            models == deps@.map_values(|d: LibraryDependency| dep_model(d)),
            forall|j: int| 0 <= j < i ==> (#[trigger] models[j]).name != name@,
        decreases n - i,
    {
        if str_eq(deps[i].name.as_str(), name) {
            proof {
                lemma_dep_index_found(models, name@, i as int);
            }
            return Some(i);
        }
        i += 1;
    }
    proof {
        lemma_dep_index_none(models, name@);
    }
    None
}

/// The detector: registered detection records per source language.
pub struct DependencyDetector {
    pub js_patterns: Vec<DetectionPattern>,
    pub python_patterns: Vec<DetectionPattern>,
    pub c_patterns: Vec<DetectionPattern>,
}

impl DependencyDetector {
    /// The detection records registered for a language; detection is
    /// unsupported for languages without a record set.
    pub open spec fn spec_sets(self, lang: Language) -> Option<Seq<DetectionPattern>> {
        if lang == Language::JavaScript {
            Some(self.js_patterns@)
        } else if lang == Language::Python {
            Some(self.python_patterns@)
        } else if lang == Language::C {
            Some(self.c_patterns@)
        } else {
            None
        }
    }

    /// Detects the library dependencies of a source text: each registered
    /// record whose import signature is present and whose usage signatures
    /// hit contributes its usages, merged per library name. Fails exactly
    /// when no record set is registered for the language.
    pub fn detect_dependencies(&self, code: &str, language: Language) -> (r: Result<
        Vec<LibraryDependency>,
        CoalesceError,
    >)
        ensures
            r is Ok <==> self.spec_sets(language) is Some,
            r matches Ok(deps) ==> deps@.map_values(|d: LibraryDependency| dep_model(d))
                == spec_detect(self.spec_sets(language)->Some_0, code@, Seq::empty()),
            r matches Ok(deps) ==> forall|i: int, j: int|
                0 <= i < deps@.len() && 0 <= j < deps@[i].usage_patterns@.len()
                    ==> usage_in_text(
                    code.spec_bytes(),
                    usage_model(#[trigger] deps@[i].usage_patterns@[j]),
                ),
            r matches Err(e) ==> (e matches CoalesceError::UnsupportedLanguage(l) && l
                == language),
    {
        let patterns: &Vec<DetectionPattern> = if matches!(language, Language::JavaScript) {
            &self.js_patterns
        } else if matches!(language, Language::Python) {
            &self.python_patterns
        } else if matches!(language, Language::C) {
            &self.c_patterns
        } else {
            return Err(CoalesceError::UnsupportedLanguage(language));
        };
        let mut deps: Vec<LibraryDependency> = Vec::new();
        let n = patterns.len();
        proof {
            assert(patterns@.take(0) =~= Seq::<DetectionPattern>::empty());
            assert(deps@.map_values(|d: LibraryDependency| dep_model(d)) =~= Seq::<
                DepModel,
            >::empty());
        }
        let mut i: usize = 0;
        while i < n
            invariant
                i <= n,
                n == patterns@.len(),
                deps@.map_values(|d: LibraryDependency| dep_model(d)) == spec_detect(
                    patterns@.take(i as int),
                    code@,
                    Seq::empty(),
                ),
                forall|x: int, y: int|
                    0 <= x < deps@.len() && 0 <= y < deps@[x].usage_patterns@.len()
                        ==> usage_in_text(
                        code.spec_bytes(),
                        usage_model(#[trigger] deps@[x].usage_patterns@[y]),
                    ),
            decreases n - i,
        {
            let p = &patterns[i];
            proof {
                lemma_spec_detect_snoc(
                    patterns@.take(i as int),
                    code@,
                    Seq::empty(),
                    patterns@[i as int],
                );
                assert(patterns@.take(i + 1) =~= patterns@.take(i as int).push(
                    patterns@[i as int],
                ));
            }
            match Self::detect_library_usage(code, p) {
                Some(dep) => {
                    let ghost pre = deps@.map_values(|d: LibraryDependency| dep_model(d));
                    match find_dep_index(&deps, dep.name.as_str()) {
                        Some(idx) => {
                            let ghost deps0 = deps@;
                            let ghost us_models = dep.usage_patterns@.map_values(
                                |u: LibraryUsage| usage_model(u),
                            );
                            let mut existing = deps.remove(idx);
                            let ghost existing0 = existing;
                            let mut dep_mut = dep;
                            existing.usage_patterns.append(&mut dep_mut.usage_patterns);
                            let ghost merged = existing;
                            deps.insert(idx, existing);
                            proof {
                                assert(existing0 == deps0[idx as int]);
                                assert(merged.usage_patterns@.map_values(
                                    |u: LibraryUsage| usage_model(u),
                                ) =~= existing0.usage_patterns@.map_values(
                                    |u: LibraryUsage| usage_model(u),
                                ) + us_models);
                                assert(dep_model(merged).usages =~= pre[idx as int].usages
                                    + spec_usages(patterns@[i as int].usage_patterns@, code@));
                                assert(deps@ =~= deps0.update(idx as int, merged));
                                assert(deps@.map_values(|d: LibraryDependency| dep_model(d))
                                    =~= spec_add_dep(pre, patterns@[i as int], code@));
                            }
                        },
                        None => {
                            deps.push(dep);
                            proof {
                                assert(deps@.map_values(|d: LibraryDependency| dep_model(d))
                                    =~= spec_add_dep(pre, patterns@[i as int], code@));
                            }
                        },
                    }
                },
                None => {},
            }
            i += 1;
        }
        proof {
            assert(patterns@.take(n as int) =~= patterns@);
        }
        Ok(deps)
    }

    /// Tests one detection record on a text: nothing when its import
    /// signature is absent or nothing matched; otherwise the dependency
    /// record with every usage, in signature order.
    fn detect_library_usage(code: &str, p: &DetectionPattern) -> (r: Option<LibraryDependency>)
        ensures
            r is Some <==> spec_fires(*p, code@),
            r matches Some(d) ==> {
                &&& d.name@ == p.library_name@
                &&& d.version is None
                &&& d.ecosystem@ == p.ecosystem@
                &&& d.import_path is None
                &&& d.usage_patterns@.map_values(|u: LibraryUsage| usage_model(u)) == spec_usages(
                    p.usage_patterns@,
                    code@,
                )
                &&& forall|j: int|
                    0 <= j < d.usage_patterns@.len() ==> usage_in_text(
                        code.spec_bytes(),
                        usage_model(#[trigger] d.usage_patterns@[j]),
                    )
            },
    {
        match regex_is_match(p.import_pattern.as_str(), code) {
            Some(true) => {},
            Some(false) => {
                return None;
            },
            None => {
                return None;
            },
        }
        let mut usages: Vec<LibraryUsage> = Vec::new();
        let n = p.usage_patterns.len();
        proof {
            assert(p.usage_patterns@.take(0) =~= Seq::<UsagePattern>::empty());
            assert(usages@.map_values(|u: LibraryUsage| usage_model(u)) =~= Seq::<
                UsageModel,
            >::empty());
        }
        let mut i: usize = 0;
        while i < n
            invariant
                i <= n,
                n == p.usage_patterns@.len(),
                usages@.map_values(|u: LibraryUsage| usage_model(u)) == spec_usages(
                    p.usage_patterns@.take(i as int),
                    code@,
                ),
                forall|x: int|
                    0 <= x < usages@.len() ==> usage_in_text(
                        code.spec_bytes(),
                        usage_model(#[trigger] usages@[x]),
                    ),
            decreases n - i,
        {
            let up = &p.usage_patterns[i];
            proof {
                lemma_spec_usages_snoc(
                    p.usage_patterns@.take(i as int),
                    code@,
                    p.usage_patterns@[i as int],
                );
                assert(p.usage_patterns@.take(i + 1) =~= p.usage_patterns@.take(i as int).push(
                    p.usage_patterns@[i as int],
                ));
            }
            let ghost pre = usages@.map_values(|u: LibraryUsage| usage_model(u));
            match regex_captures(up.pattern.as_str(), code, &up.extract_params) {
                Some(ms) => {
                    let k = ms.len();
                    proof {
                        assert(re_captures(
                            up.pattern@,
                            code@,
                            up.extract_params.deep_view(),
                        ).take(0) =~= Seq::<ReMatch>::empty());
                        assert(pre + re_captures(
                            up.pattern@,
                            code@,
                            up.extract_params.deep_view(),
                        ).take(0).map_values(
                            |m: ReMatch| spec_usage_of(p.usage_patterns@[i as int], m),
                        ) =~= pre);
                    }
                    let mut j: usize = 0;
                    while j < k
                        invariant
                            j <= k,
                            k == ms@.len(),
                            i < n,
                            n == p.usage_patterns@.len(),
                            up == &p.usage_patterns[i as int],
                            ms@ == re_captures(up.pattern@, code@, up.extract_params.deep_view()),
                            forall|x: int|
                                0 <= x < ms@.len() ==> {
                                    &&& (#[trigger] ms@[x]).groups@.len()
                                        == up.extract_params@.len()
                                    &&& ms@[x].start <= ms@[x].end <= code.spec_bytes().len()
                                    &&& encode_utf8(ms@[x].text@) == code.spec_bytes().subrange(
                                        ms@[x].start as int,
                                        ms@[x].end as int,
                                    )
                                },
                            forall|x: int|
                                0 <= x < usages@.len() ==> usage_in_text(
                                    code.spec_bytes(),
                                    usage_model(#[trigger] usages@[x]),
                                ),
                            usages@.map_values(|u: LibraryUsage| usage_model(u)) == pre
                                + ms@.take(j as int).map_values(
                                |m: ReMatch| spec_usage_of(p.usage_patterns@[i as int], m),
                            ),
                        decreases k - j,
                    {
                        let m = &ms[j];
                        let params = build_params(&up.extract_params, &m.groups);
                        let usage = LibraryUsage {
                            pattern_name: up.name.clone(),
                            method_name: m.text.clone(),
                            parameters: params,
                            semantic_intent: up.semantic_intent.clone(),
                            source_location: (m.start, m.end),
                        };
                        proof {
                            assert(usage_model(usage) == spec_usage_of(
                                p.usage_patterns@[i as int],
                                ms@[j as int],
                            ));
                            assert(usages@.push(usage).map_values(
                                |u: LibraryUsage| usage_model(u),
                            ) =~= usages@.map_values(|u: LibraryUsage| usage_model(u)).push(
                                usage_model(usage),
                            ));
                            assert(ms@.take(j + 1) =~= ms@.take(j as int).push(ms@[j as int]));
                            assert(ms@.take(j + 1).map_values(
                                |m: ReMatch| spec_usage_of(p.usage_patterns@[i as int], m),
                            ) =~= ms@.take(j as int).map_values(
                                |m: ReMatch| spec_usage_of(p.usage_patterns@[i as int], m),
                            ).push(spec_usage_of(p.usage_patterns@[i as int], ms@[j as int])));
                            assert(pre + ms@.take(j + 1).map_values(
                                |m: ReMatch| spec_usage_of(p.usage_patterns@[i as int], m),
                            ) =~= (pre + ms@.take(j as int).map_values(
                                |m: ReMatch| spec_usage_of(p.usage_patterns@[i as int], m),
                            )).push(spec_usage_of(p.usage_patterns@[i as int], ms@[j as int])));
                        }
                        usages.push(usage);
                        j += 1;
                    }
                    proof {
                        assert(ms@.take(k as int) =~= ms@);
                        assert(spec_usages_of_pattern(p.usage_patterns@[i as int], code@)
                            == ms@.map_values(
                            |m: ReMatch| spec_usage_of(p.usage_patterns@[i as int], m),
                        ));
                    }
                },
                None => {
                    proof {
                        assert(spec_usages_of_pattern(p.usage_patterns@[i as int], code@) =~= Seq::<
                            UsageModel,
                        >::empty());
                        assert(pre + Seq::<UsageModel>::empty() =~= pre);
                    }
                },
            }
            i += 1;
        }
        proof {
            assert(p.usage_patterns@.take(n as int) =~= p.usage_patterns@);
        }
        if usages.len() == 0 {
            return None;
        }
        Some(
            LibraryDependency {
                name: p.library_name.clone(),
                version: None,
                ecosystem: p.ecosystem.clone(),
                import_path: None,
                usage_patterns: usages,
            },
        )
    }
}

/// The built-in React detection records: a stateful-hook import variant
/// with its state-hook usage signature, and an effect-hook import variant
/// with its effect usage signature.
pub open spec fn react_detection(v: Seq<DetectionPattern>) -> bool {
    &&& v.len() == 2
    &&& v[0].library_name@ == "react"@
    &&& v[0].import_pattern@ == r#"import.*\{[^}]*useState[^}]*\}.*from.*['"]react['"]"#@
    &&& v[0].ecosystem@ == "javascript"@
    &&& v[0].usage_patterns@.len() == 1
    &&& v[0].usage_patterns@[0].name@ == "useState"@
    &&& v[0].usage_patterns@[0].pattern@
        == r"const\s*\[\s*(?P<state>\w+)\s*,\s*(?P<setter>\w+)\s*\]\s*=\s*useState\s*\(\s*(?P<initial>[^)]*)\s*\)"@
    &&& v[0].usage_patterns@[0].semantic_intent@ == "reactive_state_management"@
    &&& v[0].usage_patterns@[0].extract_params.deep_view() =~= seq![
        "state"@,
        "setter"@,
        "initial"@,
    ]
    &&& v[1].library_name@ == "react"@
    &&& v[1].import_pattern@ == r#"import.*\{[^}]*useEffect[^}]*\}.*from.*['"]react['"]"#@
    &&& v[1].ecosystem@ == "javascript"@
    &&& v[1].usage_patterns@.len() == 1
    &&& v[1].usage_patterns@[0].name@ == "useEffect"@
    &&& v[1].usage_patterns@[0].pattern@
        == r"useEffect\s*\(\s*(?P<callback>[^,]+)\s*,\s*(?P<deps>\[[^\]]*\])\s*\)"@
    &&& v[1].usage_patterns@[0].semantic_intent@ == "side_effect_lifecycle"@
    &&& v[1].usage_patterns@[0].extract_params.deep_view() =~= seq!["callback"@, "deps"@]
}

/// The built-in Django detection record: the ORM import with model and
/// text-field usage signatures.
pub open spec fn django_detection(v: Seq<DetectionPattern>) -> bool {
    &&& v.len() == 1
    &&& v[0].library_name@ == "django"@
    &&& v[0].import_pattern@ == r"from\s+django\.db\s+import\s+models"@
    &&& v[0].ecosystem@ == "python"@
    &&& v[0].usage_patterns@.len() == 2
    &&& v[0].usage_patterns@[0].name@ == "Model"@
    &&& v[0].usage_patterns@[0].pattern@
        == r"class\s+(?P<name>\w+)\s*\(\s*models\.Model\s*\)"@
    &&& v[0].usage_patterns@[0].semantic_intent@ == "orm_model"@
    &&& v[0].usage_patterns@[0].extract_params.deep_view() =~= seq!["name"@]
    &&& v[0].usage_patterns@[1].name@ == "CharField"@
    &&& v[0].usage_patterns@[1].pattern@
        == r"(?P<field>\w+)\s*=\s*models\.CharField\s*\(\s*max_length\s*=\s*(?P<length>\d+)"@
    &&& v[0].usage_patterns@[1].semantic_intent@ == "text_field"@
    &&& v[0].usage_patterns@[1].extract_params.deep_view() =~= seq!["field"@, "length"@]
}

/// The built-in networking detection record: the socket header include with
/// the socket-creation usage signature.
pub open spec fn networking_detection(v: Seq<DetectionPattern>) -> bool {
    &&& v.len() == 1
    &&& v[0].library_name@ == "socket"@
    &&& v[0].import_pattern@ == r"#include\s+<sys/socket\.h>"@
    &&& v[0].ecosystem@ == "c"@
    &&& v[0].usage_patterns@.len() == 1
    &&& v[0].usage_patterns@[0].name@ == "socket"@
    &&& v[0].usage_patterns@[0].pattern@
        == r"(?P<var>\w+)\s*=\s*socket\s*\(\s*(?P<family>AF_\w+)\s*,\s*(?P<type>SOCK_\w+)\s*,\s*(?P<protocol>\d+)\s*\)"@
    &&& v[0].usage_patterns@[0].semantic_intent@ == "tcp_socket_creation"@
    &&& v[0].usage_patterns@[0].extract_params.deep_view() =~= seq!["var"@, "type"@, "family"@]
}

impl DependencyDetector {
    /// A detector with the built-in detection records registered.
    pub fn new() -> (r: DependencyDetector)
        ensures
            react_detection(r.js_patterns@),
            django_detection(r.python_patterns@),
            networking_detection(r.c_patterns@),
            r.spec_sets(Language::JavaScript) == Some(r.js_patterns@),
            r.spec_sets(Language::Python) == Some(r.python_patterns@),
            r.spec_sets(Language::C) == Some(r.c_patterns@),
    {
        let mut state_params: Vec<String> = Vec::new();
        state_params.push(String::from_str("state"));
        state_params.push(String::from_str("setter"));
        state_params.push(String::from_str("initial"));
        proof {
            assert(state_params.deep_view() =~= seq!["state"@, "setter"@, "initial"@]);
        }
        let use_state = UsagePattern {
            name: String::from_str("useState"),
            pattern: String::from_str(
                r"const\s*\[\s*(?P<state>\w+)\s*,\s*(?P<setter>\w+)\s*\]\s*=\s*useState\s*\(\s*(?P<initial>[^)]*)\s*\)",
            ),
            semantic_intent: String::from_str("reactive_state_management"),
            extract_params: state_params,
        };
        let mut effect_params: Vec<String> = Vec::new();
        effect_params.push(String::from_str("callback"));
        effect_params.push(String::from_str("deps"));
        proof {
            assert(effect_params.deep_view() =~= seq!["callback"@, "deps"@]);
        }
        let use_effect = UsagePattern {
            name: String::from_str("useEffect"),
            pattern: String::from_str(
                r"useEffect\s*\(\s*(?P<callback>[^,]+)\s*,\s*(?P<deps>\[[^\]]*\])\s*\)",
            ),
            semantic_intent: String::from_str("side_effect_lifecycle"),
            extract_params: effect_params,
        };
        let mut state_usages: Vec<UsagePattern> = Vec::new();
        state_usages.push(use_state);
        let mut effect_usages: Vec<UsagePattern> = Vec::new();
        effect_usages.push(use_effect);
        let mut js_patterns: Vec<DetectionPattern> = Vec::new();
        js_patterns.push(
            DetectionPattern {
                library_name: String::from_str("react"),
                import_pattern: String::from_str(
                    r#"import.*\{[^}]*useState[^}]*\}.*from.*['"]react['"]"#,
                ),
                ecosystem: String::from_str("javascript"),
                usage_patterns: state_usages,
            },
        );
        js_patterns.push(
            DetectionPattern {
                library_name: String::from_str("react"),
                import_pattern: String::from_str(
                    r#"import.*\{[^}]*useEffect[^}]*\}.*from.*['"]react['"]"#,
                ),
                ecosystem: String::from_str("javascript"),
                usage_patterns: effect_usages,
            },
        );
        let mut model_params: Vec<String> = Vec::new();
        model_params.push(String::from_str("name"));
        proof {
            assert(model_params.deep_view() =~= seq!["name"@]);
        }
        let model_usage = UsagePattern {
            name: String::from_str("Model"),
            pattern: String::from_str(r"class\s+(?P<name>\w+)\s*\(\s*models\.Model\s*\)"),
            semantic_intent: String::from_str("orm_model"),
            extract_params: model_params,
        };
        let mut field_params: Vec<String> = Vec::new();
        field_params.push(String::from_str("field"));
        field_params.push(String::from_str("length"));
        proof {
            assert(field_params.deep_view() =~= seq!["field"@, "length"@]);
        }
        let field_usage = UsagePattern {
            name: String::from_str("CharField"),
            pattern: String::from_str(
                r"(?P<field>\w+)\s*=\s*models\.CharField\s*\(\s*max_length\s*=\s*(?P<length>\d+)",
            ),
            semantic_intent: String::from_str("text_field"),
            extract_params: field_params,
        };
        let mut django_usages: Vec<UsagePattern> = Vec::new();
        django_usages.push(model_usage);
        django_usages.push(field_usage);
        let mut python_patterns: Vec<DetectionPattern> = Vec::new();
        python_patterns.push(
            DetectionPattern {
                library_name: String::from_str("django"),
                import_pattern: String::from_str(r"from\s+django\.db\s+import\s+models"),
                ecosystem: String::from_str("python"),
                usage_patterns: django_usages,
            },
        );
        let mut socket_params: Vec<String> = Vec::new();
        socket_params.push(String::from_str("var"));
        socket_params.push(String::from_str("type"));
        socket_params.push(String::from_str("family"));
        proof {
            assert(socket_params.deep_view() =~= seq!["var"@, "type"@, "family"@]);
        }
        let socket_usage = UsagePattern {
            name: String::from_str("socket"),
            pattern: String::from_str(
                r"(?P<var>\w+)\s*=\s*socket\s*\(\s*(?P<family>AF_\w+)\s*,\s*(?P<type>SOCK_\w+)\s*,\s*(?P<protocol>\d+)\s*\)",
            ),
            semantic_intent: String::from_str("tcp_socket_creation"),
            extract_params: socket_params,
        };
        let mut socket_usages: Vec<UsagePattern> = Vec::new();
        socket_usages.push(socket_usage);
        let mut c_patterns: Vec<DetectionPattern> = Vec::new();
        c_patterns.push(
            DetectionPattern {
                library_name: String::from_str("socket"),
                import_pattern: String::from_str(r"#include\s+<sys/socket\.h>"),
                ecosystem: String::from_str("c"),
                usage_patterns: socket_usages,
            },
        );
        DependencyDetector { js_patterns, python_patterns, c_patterns }
    }
}

} // verus!
