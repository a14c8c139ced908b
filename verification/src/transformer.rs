//! The library transformer: walks a UIR tree, looks detected dependency
//! annotations up in the registry, and either rewrites each usage for the
//! target ecosystem or marks it for manual porting. Missing rules never
//! fail: the fallback marker is a first-class result.

use vstd::prelude::*;
use crate::detector::{dep_model, usage_model, DepModel, UsageModel};
use crate::errors::CoalesceError;
use crate::lal::{LibraryDependency, LibraryUsage};
use crate::patterns::{spec_rule_for, LibraryPattern, TransformRule};
use crate::registry::{spec_get, LibraryRegistry};
use crate::strutil::clone_strings;
use crate::template::{render_template, spec_render};
use crate::uir::{Annotations, Language, LegacyPattern, Metadata, SourceLocation, UIRNode};

verus! {

/// The value level of an annotation record.
pub ghost struct AnnModel {
    pub original_text: Option<Seq<char>>,
    pub value: Option<Seq<char>>,
    pub parse_error: Option<Seq<char>>,
    pub library_dependency: Option<DepModel>,
    pub library_pattern: Option<Seq<char>>,
    pub semantic_intent: Option<Seq<char>>,
    pub transformed_from: Option<Seq<char>>,
    pub transformed_to: Option<Seq<char>>,
    pub generated_code: Option<Seq<char>>,
    pub required_imports: Option<Seq<Seq<char>>>,
    pub setup_code: Option<Seq<char>>,
    pub cleanup_code: Option<Seq<char>>,
    pub fallback_implementation: Option<Seq<char>>,
    pub requires_manual_implementation: bool,
    pub extra: Seq<(Seq<char>, Seq<char>)>,
}

/// The value level of an annotation record.
pub open spec fn ann_model(a: Annotations) -> AnnModel {
    AnnModel {
        original_text: a.original_text.deep_view(),
        value: a.value.deep_view(),
        parse_error: a.parse_error.deep_view(),
        library_dependency: match a.library_dependency {
            Some(d) => Some(dep_model(d)),
            None => None,
        },
        library_pattern: a.library_pattern.deep_view(),
        semantic_intent: a.semantic_intent.deep_view(),
        transformed_from: a.transformed_from.deep_view(),
        transformed_to: a.transformed_to.deep_view(),
        generated_code: a.generated_code.deep_view(),
        required_imports: match a.required_imports {
            Some(v) => Some(v.deep_view()),
            None => None,
        },
        setup_code: a.setup_code.deep_view(),
        cleanup_code: a.cleanup_code.deep_view(),
        fallback_implementation: a.fallback_implementation.deep_view(),
        requires_manual_implementation: a.requires_manual_implementation,
        extra: a.extra@.map_values(|p: (String, String)| (p.0@, p.1@)),
    }
}

/// The default target ecosystem of a language, used when the caller names
/// none.
pub open spec fn spec_default_ecosystem(lang: Language) -> Seq<char> {
    match lang {
        Language::JavaScript => "vanilla"@,
        Language::Rust => "std"@,
        Language::Cpp => "std"@,
        Language::CSharp => "dotnet"@,
        Language::FSharp => "dotnet"@,
        Language::VisualBasic => "dotnet"@,
        _ => "stdlib"@,
    }
}

/// The porting note recorded when no rule exists for a pattern.
pub open spec fn spec_fallback_text(lib: Seq<char>, name: Seq<char>, behavior: Seq<char>) -> Seq<
    char,
> {
    "// TODO: Implement equivalent of "@ + lib + ":"@ + name + "\n// Original behavior: "@
        + behavior
}

/// The annotations after a rule rewrote one usage: where it came from,
/// where it went, the rendered code, and the rule's imports and snippets.
pub open spec fn spec_apply_rule(
    a: AnnModel,
    lib: Seq<char>,
    name: Seq<char>,
    rule: TransformRule,
    u: UsageModel,
) -> AnnModel {
    AnnModel {
        transformed_from: Some(lib + ":"@ + name),
        transformed_to: Some(rule.target_library@ + ":"@ + rule.target_pattern@),
        generated_code: Some(spec_render(rule.template@, u.parameters)),
        required_imports: if rule.imports@.len() > 0 {
            Some(rule.imports.deep_view())
        } else {
            a.required_imports
        },
        setup_code: match rule.setup_code {
            Some(sc) => Some(sc@),
            None => a.setup_code,
        },
        cleanup_code: match rule.cleanup_code {
            Some(cc) => Some(cc@),
            None => a.cleanup_code,
        },
        ..a
    }
}

/// The annotations after a usage without a rule was marked for manual
/// porting.
pub open spec fn spec_fallback(
    a: AnnModel,
    lib: Seq<char>,
    name: Seq<char>,
    behavior: Seq<char>,
) -> AnnModel {
    AnnModel {
        fallback_implementation: Some(spec_fallback_text(lib, name, behavior)),
        requires_manual_implementation: true,
        ..a
    }
}

/// The annotations after one usage was processed: a registered pattern
/// with a rule for the ecosystem is rewritten, one without a rule is marked
/// for manual porting, and an unregistered pattern changes nothing.
pub open spec fn spec_apply_usage(
    pats: Seq<LibraryPattern>,
    eco: Seq<char>,
    dep_name: Seq<char>,
    u: UsageModel,
    a: AnnModel,
) -> AnnModel {
    match spec_get(pats, dep_name, u.pattern_name) {
        Some(p) => match spec_rule_for(p.transformations@, eco) {
            Some(rule) => spec_apply_rule(a, p.library@, p.name@, rule, u),
            None => spec_fallback(a, p.library@, p.name@, p.semantics.behavior@),
        },
        None => a,
    }
}

/// The annotations after every usage of a dependency was processed, in
/// order.
pub open spec fn spec_apply_usages(
    pats: Seq<LibraryPattern>,
    eco: Seq<char>,
    dep_name: Seq<char>,
    us: Seq<UsageModel>,
    a: AnnModel,
) -> AnnModel
    decreases us.len(),
{
    if us.len() == 0 {
        a
    } else {
        spec_apply_usages(
            pats,
            eco,
            dep_name,
            us.drop_first(),
            spec_apply_usage(pats, eco, dep_name, us[0], a),
        )
    }
}

/// Processing one more usage at the end folds onto the accumulated
/// annotations.
proof fn lemma_apply_usages_snoc(
    pats: Seq<LibraryPattern>,
    eco: Seq<char>,
    dep_name: Seq<char>,
    us: Seq<UsageModel>,
    a: AnnModel,
    u: UsageModel,
)
    ensures
        spec_apply_usages(pats, eco, dep_name, us.push(u), a) == spec_apply_usage(
            pats,
            eco,
            dep_name,
            u,
            spec_apply_usages(pats, eco, dep_name, us, a),
        ),
    decreases us.len(),
{
    if us.len() == 0 {
        let a1 = spec_apply_usage(pats, eco, dep_name, u, a);
        assert(us.push(u)[0] == u);
        assert(us.push(u).drop_first() =~= us);
        assert(spec_apply_usages(pats, eco, dep_name, us.push(u), a) == spec_apply_usages(
            pats,
            eco,
            dep_name,
            us,
            a1,
        ));
        assert(spec_apply_usages(pats, eco, dep_name, us, a1) == a1);
    } else {
        assert(us.push(u)[0] == us[0]);
        assert(us.push(u).drop_first() =~= us.drop_first().push(u));
        assert(spec_apply_usages(pats, eco, dep_name, us.push(u), a) == spec_apply_usages(
            pats,
            eco,
            dep_name,
            us.drop_first().push(u),
            spec_apply_usage(pats, eco, dep_name, us[0], a),
        ));
        lemma_apply_usages_snoc(
            pats,
            eco,
            dep_name,
            us.drop_first(),
            spec_apply_usage(pats, eco, dep_name, us[0], a),
            u,
        );
    }
}

/// The manual-porting flag, once set, survives every later usage: neither
/// a rewrite nor another fallback clears it.
pub proof fn lemma_manual_flag_persists(
    pats: Seq<LibraryPattern>,
    eco: Seq<char>,
    dep_name: Seq<char>,
    us: Seq<UsageModel>,
    a: AnnModel,
)
    requires
        a.requires_manual_implementation,
    ensures
        spec_apply_usages(pats, eco, dep_name, us, a).requires_manual_implementation,
    decreases us.len(),
{
    if us.len() > 0 {
        lemma_manual_flag_persists(
            pats,
            eco,
            dep_name,
            us.drop_first(),
            spec_apply_usage(pats, eco, dep_name, us[0], a),
        );
    }
}

/// The fallback guarantee: a detected usage whose pattern is registered
/// but has no rule for the resolved ecosystem is never silently dropped —
/// after the transformation the node carries the manual-porting flag and a
/// fallback note, whatever the other usages did.
pub proof fn lemma_fallback_guarantee(
    pats: Seq<LibraryPattern>,
    eco: Seq<char>,
    dep_name: Seq<char>,
    us: Seq<UsageModel>,
    a: AnnModel,
    i: int,
)
    requires
        0 <= i < us.len(),
        spec_get(pats, dep_name, us[i].pattern_name) is Some,
        spec_rule_for(spec_get(pats, dep_name, us[i].pattern_name)->Some_0.transformations@, eco)
            is None,
    ensures
        spec_apply_usages(pats, eco, dep_name, us, a).requires_manual_implementation,
    decreases us.len(),
{
    let a1 = spec_apply_usage(pats, eco, dep_name, us[0], a);
    if i == 0 {
        lemma_manual_flag_persists(pats, eco, dep_name, us.drop_first(), a1);
    } else {
        assert(us.drop_first()[i - 1] == us[i]);
        lemma_fallback_guarantee(pats, eco, dep_name, us.drop_first(), a1, i - 1);
    }
}

/// Clones an optional string, preserving its contents.
fn clone_opt_string(o: &Option<String>) -> (r: Option<String>)
    ensures
        r.deep_view() == o.deep_view(),
{
    match o {
        Some(s) => Some(s.clone()),
        None => None,
    }
}

/// Clones an optional source span, preserving its contents.
pub open spec fn loc_opt_model(o: Option<SourceLocation>) -> Option<
    (Seq<char>, u32, u32, u32, u32),
> {
    match o {
        Some(l) => Some((l.file@, l.start_line, l.end_line, l.start_column, l.end_column)),
        None => None,
    }
}

fn clone_opt_loc(o: &Option<SourceLocation>) -> (r: Option<SourceLocation>)
    ensures
        loc_opt_model(r) == loc_opt_model(*o),
{
    match o {
        Some(l) => Some(
            SourceLocation {
                file: l.file.clone(),
                start_line: l.start_line,
                end_line: l.end_line,
                start_column: l.start_column,
                end_column: l.end_column,
            },
        ),
        None => None,
    }
}

/// The value level of a legacy pattern.
pub open spec fn legacy_model(l: LegacyPattern) -> (Seq<char>, Seq<char>, Option<Seq<char>>, bool) {
    (l.pattern_type@, l.original_construct@, l.modernization_hint.deep_view(), l.preserve_exactly)
}

/// Clones a legacy-pattern list, preserving its contents.
fn clone_legacy(v: &Vec<LegacyPattern>) -> (r: Vec<LegacyPattern>)
    ensures
        r@.map_values(|l: LegacyPattern| legacy_model(l)) == v@.map_values(
            |l: LegacyPattern| legacy_model(l),
        ),
{
    let mut out: Vec<LegacyPattern> = Vec::new();
    let n = v.len();
    let mut i: usize = 0;
    while i < n
        invariant
            i <= n,
            n == v@.len(),
            out@.len() == i,
            forall|j: int|
                0 <= j < i ==> legacy_model(#[trigger] out@[j]) == legacy_model(v@[j]),
        decreases n - i,
    {
        let l = &v[i];
        out.push(
            LegacyPattern {
                pattern_type: l.pattern_type.clone(),
                original_construct: l.original_construct.clone(),
                modernization_hint: clone_opt_string(&l.modernization_hint),
                preserve_exactly: l.preserve_exactly,
            },
        );
        i += 1;
    }
    proof {
        assert(out@.map_values(|l: LegacyPattern| legacy_model(l)) =~= v@.map_values(
            |l: LegacyPattern| legacy_model(l),
        ));
    }
    out
}

/// Clones a string-pair list, preserving its contents.
fn clone_pairs(v: &Vec<(String, String)>) -> (r: Vec<(String, String)>)
    ensures
        r@.map_values(|p: (String, String)| (p.0@, p.1@)) == v@.map_values(
            |p: (String, String)| (p.0@, p.1@),
        ),
{
    let mut out: Vec<(String, String)> = Vec::new();
    let n = v.len();
    let mut i: usize = 0;
    while i < n
        invariant
            i <= n,
            n == v@.len(),
            out@.len() == i,
            forall|j: int|
                0 <= j < i ==> ((#[trigger] out@[j]).0@, out@[j].1@) == (v@[j].0@, v@[j].1@),
        decreases n - i,
    {
        out.push((v[i].0.clone(), v[i].1.clone()));
        i += 1;
    }
    proof {
        assert(out@.map_values(|p: (String, String)| (p.0@, p.1@)) =~= v@.map_values(
            |p: (String, String)| (p.0@, p.1@),
        ));
    }
    out
}

/// Clones a usage record, preserving its contents.
fn clone_usage(u: &LibraryUsage) -> (r: LibraryUsage)
    ensures
        usage_model(r) == usage_model(*u),
{
    LibraryUsage {
        pattern_name: u.pattern_name.clone(),
        method_name: u.method_name.clone(),
        parameters: clone_pairs(&u.parameters),
        semantic_intent: u.semantic_intent.clone(),
        source_location: (u.source_location.0, u.source_location.1),
    }
}

/// Clones a dependency record, preserving its contents.
pub fn clone_dep(d: &LibraryDependency) -> (r: LibraryDependency)
    ensures
        dep_model(r) == dep_model(*d),
{
    let mut usages: Vec<LibraryUsage> = Vec::new();
    let n = d.usage_patterns.len();
    let mut i: usize = 0;
    while i < n
        invariant
            i <= n,
            n == d.usage_patterns@.len(),
            usages@.len() == i,
            forall|j: int|
                0 <= j < i ==> usage_model(#[trigger] usages@[j]) == usage_model(
                    d.usage_patterns@[j],
                ),
        decreases n - i,
    {
        usages.push(clone_usage(&d.usage_patterns[i]));
        i += 1;
    }
    let r = LibraryDependency {
        name: d.name.clone(),
        version: clone_opt_string(&d.version),
        ecosystem: d.ecosystem.clone(),
        import_path: clone_opt_string(&d.import_path),
        usage_patterns: usages,
    };
    proof {
        assert(r.usage_patterns@.map_values(|u: LibraryUsage| usage_model(u))
            =~= d.usage_patterns@.map_values(|u: LibraryUsage| usage_model(u)));
    }
    r
}

/// Clones an annotation record, preserving its contents.
fn clone_annotations(a: &Annotations) -> (r: Annotations)
    ensures
        ann_model(r) == ann_model(*a),
{
    let r = Annotations {
        original_text: clone_opt_string(&a.original_text),
        value: clone_opt_string(&a.value),
        parse_error: clone_opt_string(&a.parse_error),
        library_dependency: match &a.library_dependency {
            Some(d) => Some(clone_dep(d)),
            None => None,
        },
        library_pattern: clone_opt_string(&a.library_pattern),
        semantic_intent: clone_opt_string(&a.semantic_intent),
        transformed_from: clone_opt_string(&a.transformed_from),
        transformed_to: clone_opt_string(&a.transformed_to),
        generated_code: clone_opt_string(&a.generated_code),
        required_imports: match &a.required_imports {
            Some(v) => Some(clone_strings(v)),
            None => None,
        },
        setup_code: clone_opt_string(&a.setup_code),
        cleanup_code: clone_opt_string(&a.cleanup_code),
        fallback_implementation: clone_opt_string(&a.fallback_implementation),
        requires_manual_implementation: a.requires_manual_implementation,
        extra: clone_pairs(&a.extra),
    };
    r
}

/// `t` is the transformation of `orig` for the given patterns and target
/// ecosystem: everything is kept except the annotations, which absorb the
/// outcome of processing each detected usage; children are transformed in
/// order.
pub open spec fn node_transformed(
    pats: Seq<LibraryPattern>,
    eco: Seq<char>,
    orig: UIRNode,
    t: UIRNode,
) -> bool
    decreases orig, 1int,
{
    &&& t.id@ == orig.id@
    &&& t.node_type == orig.node_type
    &&& t.name.deep_view() == orig.name.deep_view()
    &&& loc_opt_model(t.source_location) == loc_opt_model(orig.source_location)
    &&& t.metadata.source_language == orig.metadata.source_language
    &&& t.metadata.semantic_tags.deep_view() == orig.metadata.semantic_tags.deep_view()
    &&& t.metadata.dependencies.deep_view() == orig.metadata.dependencies.deep_view()
    &&& t.metadata.legacy_patterns@.map_values(|l: LegacyPattern| legacy_model(l))
        == orig.metadata.legacy_patterns@.map_values(|l: LegacyPattern| legacy_model(l))
    &&& ann_model(t.metadata.annotations) == (match orig.metadata.annotations.library_dependency {
        Some(dep) => spec_apply_usages(
            pats,
            eco,
            dep.name@,
            dep_model(dep).usages,
            ann_model(orig.metadata.annotations),
        ),
        None => ann_model(orig.metadata.annotations),
    })
    &&& children_transformed(pats, eco, orig.children@, t.children@)
}

/// Pointwise transformation of child lists.
pub open spec fn children_transformed(
    pats: Seq<LibraryPattern>,
    eco: Seq<char>,
    cs: Seq<UIRNode>,
    ts: Seq<UIRNode>,
) -> bool
    decreases cs, 0int,
{
    if cs.len() == 0 {
        ts.len() == 0
    } else {
        &&& ts.len() > 0
        &&& node_transformed(pats, eco, cs[0], ts[0])
        &&& children_transformed(pats, eco, cs.drop_first(), ts.drop_first())
    }
}

/// A transformed child extends the children relation.
proof fn lemma_children_transformed_snoc(
    pats: Seq<LibraryPattern>,
    eco: Seq<char>,
    cs: Seq<UIRNode>,
    ts: Seq<UIRNode>,
    c: UIRNode,
    t: UIRNode,
)
    requires
        children_transformed(pats, eco, cs, ts),
        node_transformed(pats, eco, c, t),
    ensures
        children_transformed(pats, eco, cs.push(c), ts.push(t)),
    decreases cs.len(),
{
    if cs.len() == 0 {
        assert(cs.push(c)[0] == c);
        assert(ts.push(t)[0] == t);
        assert(cs.push(c).drop_first() =~= cs);
        assert(ts.push(t).drop_first() =~= ts);
    } else {
        assert(cs.push(c)[0] == cs[0]);
        assert(ts.push(t)[0] == ts[0]);
        assert(cs.push(c).drop_first() =~= cs.drop_first().push(c));
        assert(ts.push(t).drop_first() =~= ts.drop_first().push(t));
        lemma_children_transformed_snoc(pats, eco, cs.drop_first(), ts.drop_first(), c, t);
    }
}

/// Transforms library-specific patterns between ecosystems against a
/// shared, read-only registry.
pub struct LibraryTransformer<'a> {
    pub registry: &'a LibraryRegistry,
}

impl<'a> LibraryTransformer<'a> {
    /// A transformer over the given registry.
    pub fn new(registry: &'a LibraryRegistry) -> (r: LibraryTransformer<'a>)
        ensures
            r.registry == registry,
    {
        LibraryTransformer { registry }
    }

    /// The default target ecosystem of a language.
    pub fn get_default_ecosystem(&self, language: Language) -> (r: String)
        ensures
            r@ == spec_default_ecosystem(language),
    {
        match language {
            Language::JavaScript => String::from_str("vanilla"),
            Language::Rust => String::from_str("std"),
            Language::Cpp => String::from_str("std"),
            Language::CSharp => String::from_str("dotnet"),
            Language::FSharp => String::from_str("dotnet"),
            Language::VisualBasic => String::from_str("dotnet"),
            _ => String::from_str("stdlib"),
        }
    }

    /// Processes every usage of a dependency against the registry for one
    /// target ecosystem, folding the outcomes into the annotations.
    fn apply_usages(&self, annotations: Annotations, dep: &LibraryDependency, eco: &str) -> (r:
        Annotations)
        ensures
            ann_model(r) == spec_apply_usages(
                self.registry.patterns@,
                eco@,
                dep.name@,
                dep_model(*dep).usages,
                ann_model(annotations),
            ),
    {
        let mut ann = annotations;
        let ghost a0 = ann_model(ann);
        let ghost us = dep_model(*dep).usages;
        let n = dep.usage_patterns.len();
        proof {
            assert(us.take(0) =~= Seq::<UsageModel>::empty());
        }
        let mut i: usize = 0;
        while i < n
            invariant
                i <= n,
                n == dep.usage_patterns@.len(),
                us == dep_model(*dep).usages,
                us.len() == n,
                ann_model(ann) == spec_apply_usages(
                    self.registry.patterns@,
                    eco@,
                    dep.name@,
                    us.take(i as int),
                    a0,
                ),
            decreases n - i,
        {
            let usage = &dep.usage_patterns[i];
            proof {
                lemma_apply_usages_snoc(
                    self.registry.patterns@,
                    eco@,
                    dep.name@,
                    us.take(i as int),
                    a0,
                    us[i as int],
                );
                assert(us.take(i + 1) =~= us.take(i as int).push(us[i as int]));
                assert(us[i as int] == usage_model(dep.usage_patterns@[i as int]));
            }
            match self.registry.get_pattern(dep.name.as_str(), usage.pattern_name.as_str()) {
                Some(pattern) => {
                    match pattern.rule_for(eco) {
                        Some(rule) => {
                            let mut from = pattern.library.clone();
                            from.append(":");
                            from.append(pattern.name.as_str());
                            ann.transformed_from = Some(from);
                            let mut to = rule.target_library.clone();
                            to.append(":");
                            to.append(rule.target_pattern.as_str());
                            ann.transformed_to = Some(to);
                            ann.generated_code = Some(
                                render_template(rule.template.as_str(), &usage.parameters),
                            );
                            if rule.imports.len() > 0 {
                                ann.required_imports = Some(clone_strings(&rule.imports));
                            }
                            match &rule.setup_code {
                                Some(sc) => {
                                    ann.setup_code = Some(sc.clone());
                                },
                                None => {},
                            }
                            match &rule.cleanup_code {
                                Some(cc) => {
                                    ann.cleanup_code = Some(cc.clone());
                                },
                                None => {},
                            }
                        },
                        None => {
                            let mut note = String::from_str("// TODO: Implement equivalent of ");
                            note.append(pattern.library.as_str());
                            note.append(":");
                            note.append(pattern.name.as_str());
                            note.append("\n// Original behavior: ");
                            note.append(pattern.semantics.behavior.as_str());
                            ann.fallback_implementation = Some(note);
                            ann.requires_manual_implementation = true;
                        },
                    }
                },
                None => {},
            }
            i += 1;
        }
        proof {
            assert(us.take(n as int) =~= us);
        }
        ann
    }

    /// Transforms a UIR tree for a target language: each node's detected
    /// usages are rewritten or marked per the registry, the target
    /// ecosystem defaulting by language, and every child is transformed in
    /// order. Missing rules never fail the call.
    pub fn transform(&self, node: &UIRNode, target_lang: Language, target_ecosystem: Option<
        &str,
    >) -> (r: Result<UIRNode, CoalesceError>)
        ensures
            r is Ok,
            r matches Ok(t) ==> node_transformed(
                self.registry.patterns@,
                match target_ecosystem {
                    Some(e) => e@,
                    None => spec_default_ecosystem(target_lang),
                },
                *node,
                t,
            ),
    {
        let default_eco = self.get_default_ecosystem(target_lang);
        let eco: &str = match target_ecosystem {
            Some(e) => e,
            None => default_eco.as_str(),
        };
        Ok(self.transform_node(node, eco))
    }

    /// Transforms one node and its subtree for a resolved target
    /// ecosystem.
    fn transform_node(&self, node: &UIRNode, eco: &str) -> (t: UIRNode)
        ensures
            node_transformed(self.registry.patterns@, eco@, *node, t),
        decreases *node,
    {
        let annotations = clone_annotations(&node.metadata.annotations);
        let annotations = match &node.metadata.annotations.library_dependency {
            Some(dep) => self.apply_usages(annotations, dep, eco),
            None => annotations,
        };
        let metadata = Metadata {
            source_language: node.metadata.source_language,
            semantic_tags: clone_strings(&node.metadata.semantic_tags),
            dependencies: clone_strings(&node.metadata.dependencies),
            annotations,
            legacy_patterns: clone_legacy(&node.metadata.legacy_patterns),
        };
        let n = node.children.len();
        let mut children: Vec<UIRNode> = Vec::new();
        proof {
            assert(node.children@.take(0) =~= Seq::<UIRNode>::empty());
        }
        let mut i: usize = 0;
        while i < n
            invariant
                i <= n,
                n == node.children@.len(),
                children_transformed(
                    self.registry.patterns@,
                    eco@,
                    node.children@.take(i as int),
                    children@,
                ),
            decreases n - i,
        {
            proof {
                assert(decreases_to!(*node => node.children));
                assert(decreases_to!(node.children => node.children@));
                assert(decreases_to!(node.children@ => node.children@[i as int]));
            }
            let t = self.transform_node(&node.children[i], eco);
            proof {
                lemma_children_transformed_snoc(
                    self.registry.patterns@,
                    eco@,
                    node.children@.take(i as int),
                    children@,
                    node.children@[i as int],
                    t,
                );
                assert(node.children@.take(i + 1) =~= node.children@.take(i as int).push(
                    node.children@[i as int],
                ));
            }
            children.push(t);
            i += 1;
        }
        proof {
            assert(node.children@.take(n as int) =~= node.children@);
        }
        UIRNode {
            id: node.id.clone(),
            node_type: node.node_type,
            name: clone_opt_string(&node.name),
            children,
            metadata,
            source_location: clone_opt_loc(&node.source_location),
        }
    }
}

} // verus!
