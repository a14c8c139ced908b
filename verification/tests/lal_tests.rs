//! Library-abstraction-layer tests: detection precision and import gating,
//! registry lookups and suggestion ranking, template substitution, and the
//! transformer's rewrite and fallback paths.

use coalesce::detector::DependencyDetector;
use coalesce::lal::LibraryAbstractionLayer;
use coalesce::patterns::PatternLibrary;
use coalesce::registry::{LibraryRegistry, SuggestionType};
use coalesce::template::render_template;
use coalesce::transformer::LibraryTransformer;
use coalesce::uir::{Language, NodeType, UIRNode};

const REACT_SNIPPET: &str =
    "import React, { useState } from 'react'\nconst [count, setCount] = useState(0)";

#[test]
fn detects_state_hook_with_exact_parameters() {
    let detector = DependencyDetector::new();
    let deps = detector.detect_dependencies(REACT_SNIPPET, Language::JavaScript).unwrap();
    assert_eq!(deps.len(), 1);
    assert_eq!(deps[0].name, "react");
    assert_eq!(deps[0].ecosystem, "javascript");
    assert_eq!(deps[0].usage_patterns.len(), 1);
    let usage = &deps[0].usage_patterns[0];
    assert_eq!(usage.pattern_name, "useState");
    assert_eq!(usage.semantic_intent, "reactive_state_management");
    assert_eq!(usage.method_name, "const [count, setCount] = useState(0)");
    assert_eq!(usage.parameters.len(), 3);
    assert_eq!(usage.parameters[0], ("state".to_string(), "count".to_string()));
    assert_eq!(usage.parameters[1], ("setter".to_string(), "setCount".to_string()));
    assert_eq!(usage.parameters[2], ("initial".to_string(), "0".to_string()));
}

#[test]
fn usage_without_import_yields_no_dependencies() {
    let detector = DependencyDetector::new();
    let deps = detector
        .detect_dependencies("const [count, setCount] = useState(0)", Language::JavaScript)
        .unwrap();
    assert!(deps.is_empty());
}

#[test]
fn detection_fails_for_unregistered_language() {
    let detector = DependencyDetector::new();
    let result = detector.detect_dependencies("fn main() {}", Language::Rust);
    assert!(result.is_err());
}

#[test]
fn django_model_detected_with_import() {
    let detector = DependencyDetector::new();
    let code = "from django.db import models\nclass Person(models.Model):\n    name = models.CharField(max_length=100)";
    let deps = detector.detect_dependencies(code, Language::Python).unwrap();
    assert_eq!(deps.len(), 1);
    assert_eq!(deps[0].name, "django");
    assert_eq!(deps[0].usage_patterns.len(), 2);
    assert_eq!(deps[0].usage_patterns[0].pattern_name, "Model");
    assert_eq!(deps[0].usage_patterns[1].pattern_name, "CharField");
    assert_eq!(
        deps[0].usage_patterns[1].parameters[1],
        ("length".to_string(), "100".to_string())
    );
}

#[test]
fn registry_lookup_finds_registered_patterns() {
    let mut registry = LibraryRegistry::new();
    registry.register_defaults().unwrap();
    let p = registry.get_pattern("react", "useState").unwrap();
    assert_eq!(p.semantics.intent, "reactive_state_management");
    assert!(registry.get_pattern("react", "useReducer").is_none());
    let eq = registry.find_equivalent_patterns("orm_model");
    assert_eq!(eq.len(), 1);
    assert_eq!(eq[0].name, "Model");
}

#[test]
fn registry_ranks_direct_rule_before_semantic_equivalent() {
    let mut registry = LibraryRegistry::new();
    registry.register_defaults().unwrap();
    // A second library whose pattern shares the state hook's intent and
    // lives in the target ecosystem of the direct rule.
    let mut patterns = PatternLibrary::react_patterns();
    let mut rival = patterns.remove(0);
    rival.library = "signals".to_string();
    rival.name = "createSignal".to_string();
    rival.ecosystem = "vue".to_string();
    registry.register_pattern(rival).unwrap();
    let suggestions = registry.get_transformation_suggestions("react", "useState", "vue");
    assert_eq!(suggestions.len(), 2);
    assert_eq!(suggestions[0].confidence, 100);
    assert!(matches!(suggestions[0].suggestion_type, SuggestionType::DirectTransform));
    assert_eq!(suggestions[0].target_library, "vue");
    assert_eq!(suggestions[0].target_pattern, "ref");
    assert_eq!(suggestions[1].confidence, 80);
    assert!(matches!(suggestions[1].suggestion_type, SuggestionType::SemanticEquivalent));
    assert_eq!(suggestions[1].target_library, "signals");
    assert!(suggestions[0].confidence >= suggestions[1].confidence);
}

#[test]
fn target_ecosystem_table_lists_portable_targets() {
    let lal = LibraryAbstractionLayer::new().unwrap();
    let targets = lal.get_target_ecosystems("react");
    assert_eq!(targets, vec!["vue", "svelte", "angular", "vanilla"]);
    assert!(lal.get_target_ecosystems("nonexistent").is_empty());
}

#[test]
fn template_substitutes_known_parameters() {
    let params = vec![
        ("state".to_string(), "count".to_string()),
        ("initialValue".to_string(), "0".to_string()),
    ];
    let rendered = render_template("const {{state}} = ref({{initialValue}})", &params);
    assert_eq!(rendered, "const count = ref(0)");
}

#[test]
fn template_leaves_unknown_placeholder_verbatim() {
    let params = vec![("state".to_string(), "count".to_string())];
    let rendered = render_template("{{missing}}", &params);
    assert_eq!(rendered, "{{missing}}");
    let mixed = render_template("a {{state}} b {{missing}} c", &params);
    assert_eq!(mixed, "a count b {{missing}} c");
}

/// Builds a node carrying the detected state-hook dependency.
fn annotated_node() -> UIRNode {
    let lal = LibraryAbstractionLayer::new().unwrap();
    let deps = lal.analyze_dependencies(REACT_SNIPPET, Language::JavaScript).unwrap();
    let mut node = UIRNode::new("n".to_string(), NodeType::Module);
    lal.enhance_uir(&mut node, &deps).unwrap();
    node
}

#[test]
fn enhance_attaches_dependency_annotation() {
    let node = annotated_node();
    let dep = node.metadata.annotations.library_dependency.as_ref().unwrap();
    assert_eq!(dep.name, "react");
    assert_eq!(dep.usage_patterns.len(), 1);
    assert!(node.metadata.annotations.library_pattern.is_none());
}

#[test]
fn transform_rewrites_usage_with_direct_rule() {
    let lal = LibraryAbstractionLayer::new().unwrap();
    let node = annotated_node();
    let out = lal.transform_library_calls(&node, Language::JavaScript, Some("vue")).unwrap();
    let ann = &out.metadata.annotations;
    assert_eq!(ann.transformed_from.as_deref(), Some("react:useState"));
    assert_eq!(ann.transformed_to.as_deref(), Some("vue:ref"));
    // The built-in rule's template names `initialValue`, which the detector
    // does not extract; it stays verbatim, signalling an incomplete rule.
    assert_eq!(ann.generated_code.as_deref(), Some("const count = ref({{initialValue}})"));
    assert_eq!(
        ann.required_imports.as_ref().unwrap(),
        &vec!["import { ref } from 'vue'".to_string()]
    );
    assert!(!ann.requires_manual_implementation);
}

#[test]
fn transform_marks_missing_rule_for_manual_port() {
    let lal = LibraryAbstractionLayer::new().unwrap();
    let node = annotated_node();
    // No rule is registered for the state hook toward this ecosystem.
    let out = lal.transform_library_calls(&node, Language::JavaScript, Some("angular")).unwrap();
    let ann = &out.metadata.annotations;
    assert!(ann.requires_manual_implementation);
    let note = ann.fallback_implementation.as_deref().unwrap();
    assert_eq!(
        note,
        "// TODO: Implement equivalent of react:useState\n// Original behavior: Creates reactive state that triggers re-renders"
    );
    assert!(ann.generated_code.is_none());
}

#[test]
fn transform_defaults_ecosystem_by_language() {
    let lal = LibraryAbstractionLayer::new().unwrap();
    let registry_ref = &lal.registry;
    let transformer = LibraryTransformer::new(registry_ref);
    assert_eq!(transformer.get_default_ecosystem(Language::JavaScript), "vanilla");
    assert_eq!(transformer.get_default_ecosystem(Language::Rust), "std");
    assert_eq!(transformer.get_default_ecosystem(Language::Python), "stdlib");
    assert_eq!(transformer.get_default_ecosystem(Language::CSharp), "dotnet");
    // The state hook has no rule for the vanilla default, so the default
    // transformation path falls back.
    let node = annotated_node();
    let out = lal.transform_library_calls(&node, Language::JavaScript, None).unwrap();
    assert!(out.metadata.annotations.requires_manual_implementation);
}

#[test]
fn transform_recurses_into_children() {
    let lal = LibraryAbstractionLayer::new().unwrap();
    let mut child = annotated_node();
    child.id = "child".to_string();
    let parent = UIRNode::new("parent".to_string(), NodeType::Module).add_child(child);
    let out = lal.transform_library_calls(&parent, Language::JavaScript, Some("vue")).unwrap();
    assert!(out.metadata.annotations.generated_code.is_none());
    assert_eq!(out.children.len(), 1);
    assert_eq!(
        out.children[0].metadata.annotations.generated_code.as_deref(),
        Some("const count = ref({{initialValue}})")
    );
}

#[test]
fn c_socket_pattern_detected_behind_include() {
    let detector = DependencyDetector::new();
    let code = "#include <sys/socket.h>\nint s;\ns = socket(AF_INET, SOCK_STREAM, 0)";
    let deps = detector.detect_dependencies(code, Language::C).unwrap();
    assert_eq!(deps.len(), 1);
    assert_eq!(deps[0].name, "socket");
    let usage = &deps[0].usage_patterns[0];
    assert_eq!(usage.semantic_intent, "tcp_socket_creation");
    assert_eq!(usage.parameters[0], ("var".to_string(), "s".to_string()));
    assert_eq!(usage.parameters[1], ("type".to_string(), "SOCK_STREAM".to_string()));
    assert_eq!(usage.parameters[2], ("family".to_string(), "AF_INET".to_string()));
}

#[test]
fn suggestions_empty_for_unknown_pattern() {
    let mut registry = LibraryRegistry::new();
    registry.register_defaults().unwrap();
    assert!(registry.get_transformation_suggestions("react", "useMemo", "vue").is_empty());
    assert!(registry.get_transformation_suggestions("lodash", "map", "vue").is_empty());
}

#[test]
fn library_patterns_grouped_by_library() {
    let mut registry = LibraryRegistry::new();
    registry.register_defaults().unwrap();
    let react = registry.get_library_patterns("react").unwrap();
    assert_eq!(react.len(), 2);
    assert_eq!(react[0].name, "useState");
    assert_eq!(react[1].name, "useEffect");
    assert!(registry.get_library_patterns("lodash").is_none());
}

#[test]
fn register_pattern_replaces_same_key() {
    let mut registry = LibraryRegistry::new();
    registry.register_defaults().unwrap();
    let mut patterns = PatternLibrary::react_patterns();
    let mut replacement = patterns.remove(0);
    replacement.signature = "changed".to_string();
    registry.register_pattern(replacement).unwrap();
    let react = registry.get_library_patterns("react").unwrap();
    assert_eq!(react.len(), 2);
    assert_eq!(registry.get_pattern("react", "useState").unwrap().signature, "changed");
}
