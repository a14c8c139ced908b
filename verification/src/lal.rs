//! Library abstraction layer: detected dependencies and their usage
//! records, and the facade tying detection, the pattern registry and the
//! transformer together.

use vstd::prelude::*;
use vstd::string::StringSliceAdditionalSpecFns;
use crate::detector::{dep_model, spec_detect, usage_model, DepModel, DependencyDetector, UsageModel};
use crate::errors::CoalesceError;
use crate::registry::LibraryRegistry;
use crate::transformer::{
    ann_model, node_transformed, spec_default_ecosystem, AnnModel, LibraryTransformer,
};
use crate::uir::{Language, UIRNode};

verus! {

/// One concrete occurrence of a library pattern in source text.
#[derive(Debug)]
pub struct LibraryUsage {
    pub pattern_name: String,
    /// The full matched text of the occurrence.
    pub method_name: String,
    /// Named parameters captured from the occurrence.
    pub parameters: Vec<(String, String)>,
    pub semantic_intent: String,
    /// Byte offsets `(start, end)` of the occurrence in the source text.
    pub source_location: (usize, usize),
}

/// A library dependency detected in a source unit.
#[derive(Debug)]
pub struct LibraryDependency {
    pub name: String,
    pub version: Option<String>,
    pub ecosystem: String,
    pub import_path: Option<String>,
    pub usage_patterns: Vec<LibraryUsage>,
}

/// The annotations after one usage of a dependency marked a node: when the
/// node's name equals the usage's matched text, the pattern name and
/// semantic intent are recorded.
pub open spec fn spec_mark_usage(u: UsageModel, name: Option<Seq<char>>, a: AnnModel) -> AnnModel {
    if name == Some(u.method_name) {
        AnnModel { library_pattern: Some(u.pattern_name), semantic_intent: Some(u.semantic_intent), ..a }
    } else {
        a
    }
}

/// The annotations after every usage of a dependency marked a node, in
/// order.
pub open spec fn spec_mark_usages(us: Seq<UsageModel>, name: Option<Seq<char>>, a: AnnModel) -> AnnModel
    decreases us.len(),
{
    if us.len() == 0 {
        a
    } else {
        spec_mark_usages(us.drop_first(), name, spec_mark_usage(us[0], name, a))
    }
}

/// The annotations after a dependency was attached to a node: the
/// dependency is recorded, then each of its usages may mark the node.
pub open spec fn spec_enhance_one(d: DepModel, name: Option<Seq<char>>, a: AnnModel) -> AnnModel {
    spec_mark_usages(d.usages, name, AnnModel { library_dependency: Some(d), ..a })
}

/// The annotations after every detected dependency was attached, in order.
pub open spec fn spec_enhance(
    deps: Seq<DepModel>,
    name: Option<Seq<char>>,
    a: AnnModel,
) -> AnnModel
    decreases deps.len(),
{
    if deps.len() == 0 {
        a
    } else {
        spec_enhance(deps.drop_first(), name, spec_enhance_one(deps[0], name, a))
    }
}

/// Attaching one more dependency at the end folds onto the accumulated
/// annotations.
proof fn lemma_enhance_snoc(deps: Seq<DepModel>, name: Option<Seq<char>>, a: AnnModel, d: DepModel)
    ensures
        spec_enhance(deps.push(d), name, a) == spec_enhance_one(d, name, spec_enhance(deps, name, a)),
    decreases deps.len(),
{
    if deps.len() == 0 {
        let a1 = spec_enhance_one(d, name, a);
        assert(deps.push(d)[0] == d);
        assert(deps.push(d).drop_first() =~= deps);
        assert(spec_enhance(deps.push(d), name, a) == spec_enhance(deps, name, a1));
    } else {
        assert(deps.push(d)[0] == deps[0]);
        assert(deps.push(d).drop_first() =~= deps.drop_first().push(d));
        assert(spec_enhance(deps.push(d), name, a) == spec_enhance(
            deps.drop_first().push(d),
            name,
            spec_enhance_one(deps[0], name, a),
        ));
        lemma_enhance_snoc(deps.drop_first(), name, spec_enhance_one(deps[0], name, a), d);
    }
}

/// Marking one more usage at the end folds onto the accumulated
/// annotations.
proof fn lemma_mark_snoc(us: Seq<UsageModel>, name: Option<Seq<char>>, a: AnnModel, u: UsageModel)
    ensures
        spec_mark_usages(us.push(u), name, a) == spec_mark_usage(
            u,
            name,
            spec_mark_usages(us, name, a),
        ),
    decreases us.len(),
{
    if us.len() == 0 {
        let a1 = spec_mark_usage(u, name, a);
        assert(us.push(u)[0] == u);
        assert(us.push(u).drop_first() =~= us);
        assert(spec_mark_usages(us.push(u), name, a) == spec_mark_usages(us, name, a1));
    } else {
        assert(us.push(u)[0] == us[0]);
        assert(us.push(u).drop_first() =~= us.drop_first().push(u));
        assert(spec_mark_usages(us.push(u), name, a) == spec_mark_usages(
            us.drop_first().push(u),
            name,
            spec_mark_usage(us[0], name, a),
        ));
        lemma_mark_snoc(us.drop_first(), name, spec_mark_usage(us[0], name, a), u);
    }
}

/// The main entry point of the library abstraction layer: a detector for
/// raw source text and a registry of known patterns, built once and then
/// read-only.
pub struct LibraryAbstractionLayer {
    pub registry: LibraryRegistry,
    pub detector: DependencyDetector,
}

impl LibraryAbstractionLayer {
    /// An abstraction layer with the built-in patterns registered and the
    /// built-in detection records in place.
    pub fn new() -> (r: Result<LibraryAbstractionLayer, CoalesceError>)
        ensures
            r is Ok,
            r matches Ok(l) ==> {
                &&& l.registry.patterns@.len() == 5
                &&& crate::patterns::react_patterns_shape(l.registry.patterns@.subrange(0, 2))
                &&& crate::patterns::django_patterns_shape(l.registry.patterns@.subrange(2, 4))
                &&& crate::patterns::networking_patterns_shape(
                    l.registry.patterns@.subrange(4, 5),
                )
                &&& crate::registry::ecosystem_mappings_shape(l.registry.ecosystems@)
                &&& crate::detector::react_detection(l.detector.js_patterns@)
                &&& crate::detector::django_detection(l.detector.python_patterns@)
                &&& crate::detector::networking_detection(l.detector.c_patterns@)
            },
    {
        let mut registry = LibraryRegistry::new();
        let res = registry.register_defaults();
        if res.is_err() {
            match res {
                Err(e) => {
                    return Err(e);
                },
                Ok(_) => {},
            }
        }
        let detector = DependencyDetector::new();
        Ok(LibraryAbstractionLayer { registry, detector })
    }

    /// Detects the library dependencies of a source text.
    pub fn analyze_dependencies(&self, code: &str, language: Language) -> (r: Result<
        Vec<LibraryDependency>,
        CoalesceError,
    >)
        ensures
            r is Ok <==> self.detector.spec_sets(language) is Some,
            r matches Ok(deps) ==> deps@.map_values(|d: LibraryDependency| dep_model(d))
                == spec_detect(
                self.detector.spec_sets(language)->Some_0,
                code@,
                Seq::empty(),
            ),
            r matches Ok(deps) ==> forall|i: int, j: int|
                0 <= i < deps@.len() && 0 <= j < deps@[i].usage_patterns@.len()
                    ==> crate::detector::usage_in_text(
                    code.spec_bytes(),
                    usage_model(#[trigger] deps@[i].usage_patterns@[j]),
                ),
            r matches Err(e) ==> (e matches CoalesceError::UnsupportedLanguage(l) && l
                == language),
    {
        self.detector.detect_dependencies(code, language)
    }

    /// Attaches detected dependencies to a node's metadata: each dependency
    /// is recorded on the node, and a node named like a usage's matched
    /// text is marked with the pattern name and semantic intent.
    pub fn enhance_uir(&self, node: &mut UIRNode, deps: &Vec<LibraryDependency>) -> (r: Result<
        (),
        CoalesceError,
    >)
        ensures
            r is Ok,
            final(node).id == old(node).id,
            final(node).node_type == old(node).node_type,
            final(node).name == old(node).name,
            final(node).children == old(node).children,
            final(node).source_location == old(node).source_location,
            final(node).metadata.source_language == old(node).metadata.source_language,
            final(node).metadata.semantic_tags == old(node).metadata.semantic_tags,
            final(node).metadata.dependencies == old(node).metadata.dependencies,
            final(node).metadata.legacy_patterns == old(node).metadata.legacy_patterns,
            ann_model(final(node).metadata.annotations) == spec_enhance(
                deps@.map_values(|d: LibraryDependency| dep_model(d)),
                old(node).name.deep_view(),
                ann_model(old(node).metadata.annotations),
            ),
    {
        let ghost ms = deps@.map_values(|d: LibraryDependency| dep_model(d));
        let ghost name_v = node.name.deep_view();
        let ghost a0 = ann_model(node.metadata.annotations);
        let n = deps.len();
        proof {
            assert(ms.take(0) =~= Seq::<DepModel>::empty());
        }
        let mut i: usize = 0;
        while i < n
            invariant
                i <= n,
                n == deps@.len(),
                ms == deps@.map_values(|d: LibraryDependency| dep_model(d)),
                node.name.deep_view() == name_v,
                node.id == old(node).id,
                node.node_type == old(node).node_type,
                node.name == old(node).name,
                node.children == old(node).children,
                node.source_location == old(node).source_location,
                node.metadata.source_language == old(node).metadata.source_language,
                node.metadata.semantic_tags == old(node).metadata.semantic_tags,
                node.metadata.dependencies == old(node).metadata.dependencies,
                node.metadata.legacy_patterns == old(node).metadata.legacy_patterns,
                ann_model(node.metadata.annotations) == spec_enhance(ms.take(i as int), name_v, a0),
            decreases n - i,
        {
            proof {
                lemma_enhance_snoc(ms.take(i as int), name_v, a0, ms[i as int]);
                assert(ms.take(i + 1) =~= ms.take(i as int).push(ms[i as int]));
            }
            self.add_library_metadata(node, &deps[i]);
            i += 1;
        }
        proof {
            assert(ms.take(n as int) =~= ms);
        }
        Ok(())
    }

    /// Records one dependency on a node and marks the node when its name
    /// equals a usage's matched text.
    fn add_library_metadata(&self, node: &mut UIRNode, dep: &LibraryDependency)
        ensures
            final(node).id == old(node).id,
            final(node).node_type == old(node).node_type,
            final(node).name == old(node).name,
            final(node).children == old(node).children,
            final(node).source_location == old(node).source_location,
            final(node).metadata.source_language == old(node).metadata.source_language,
            final(node).metadata.semantic_tags == old(node).metadata.semantic_tags,
            final(node).metadata.dependencies == old(node).metadata.dependencies,
            final(node).metadata.legacy_patterns == old(node).metadata.legacy_patterns,
            ann_model(final(node).metadata.annotations) == spec_enhance_one(
                dep_model(*dep),
                old(node).name.deep_view(),
                ann_model(old(node).metadata.annotations),
            ),
    {
        node.metadata.annotations.library_dependency = Some(crate::transformer::clone_dep(dep));
        let ghost a1 = ann_model(node.metadata.annotations);
        let ghost us = dep_model(*dep).usages;
        let ghost name_v = node.name.deep_view();
        let n = dep.usage_patterns.len();
        proof {
            assert(us.take(0) =~= Seq::<UsageModel>::empty());
        }
        let mut i: usize = 0;
        while i < n
            invariant
                i <= n,
                n == dep.usage_patterns@.len(),
                us == dep_model(*dep).usages,
                us.len() == n,
                node.name.deep_view() == name_v,
                node.id == old(node).id,
                node.node_type == old(node).node_type,
                node.name == old(node).name,
                node.children == old(node).children,
                node.source_location == old(node).source_location,
                node.metadata.source_language == old(node).metadata.source_language,
                node.metadata.semantic_tags == old(node).metadata.semantic_tags,
                node.metadata.dependencies == old(node).metadata.dependencies,
                node.metadata.legacy_patterns == old(node).metadata.legacy_patterns,
                ann_model(node.metadata.annotations) == spec_mark_usages(
                    us.take(i as int),
                    name_v,
                    a1,
                ),
            decreases n - i,
        {
            let usage = &dep.usage_patterns[i];
            proof {
                lemma_mark_snoc(us.take(i as int), name_v, a1, us[i as int]);
                assert(us.take(i + 1) =~= us.take(i as int).push(us[i as int]));
                assert(us[i as int] == usage_model(dep.usage_patterns@[i as int]));
            }
            let matches_name = match &node.name {
                Some(nm) => crate::strutil::str_eq(nm.as_str(), usage.method_name.as_str()),
                None => false,
            };
            if matches_name {
                node.metadata.annotations.library_pattern = Some(usage.pattern_name.clone());
                node.metadata.annotations.semantic_intent = Some(usage.semantic_intent.clone());
            }
            i += 1;
        }
        proof {
            assert(us.take(n as int) =~= us);
        }
    }

    /// Transforms a UIR tree's library patterns for a target language and
    /// ecosystem.
    pub fn transform_library_calls(
        &self,
        node: &UIRNode,
        target_lang: Language,
        target_ecosystem: Option<&str>,
    ) -> (r: Result<UIRNode, CoalesceError>)
        ensures
            r is Ok,
            r matches Ok(t) ==> node_transformed(
                self.registry.patterns@,
                match target_ecosystem {
                    Some(e) => e@,
                    None => spec_default_ecosystem(target_lang),
                },
                *node,
                t,
            ),
    {
        let transformer = LibraryTransformer::new(&self.registry);
        transformer.transform(node, target_lang, target_ecosystem)
    }

    /// The known target ecosystems of a source library.
    pub fn get_target_ecosystems(&self, source_library: &str) -> (r: Vec<String>)
        ensures
            r.deep_view() == match crate::registry::spec_ecosystems(
                self.registry.ecosystems@,
                source_library@,
            ) {
                Some(v) => v,
                None => Seq::<Seq<char>>::empty(),
            },
    {
        self.registry.get_target_ecosystems(source_library)
    }
}

impl Default for LibraryAbstractionLayer {
    /// An abstraction layer with the built-in patterns and detection
    /// records in place.
    fn default() -> (r: LibraryAbstractionLayer)
        ensures
            r.registry.patterns@.len() == 5,
            crate::detector::react_detection(r.detector.js_patterns@),
    {
        match LibraryAbstractionLayer::new() {
            Ok(l) => l,
            Err(_) => vstd::pervasive::unreached(),
        }
    }
}

} // verus!
