//! The universal intermediate representation (UIR): the typed tree every
//! front end produces and every back end consumes, together with its
//! metadata and the reserved annotation fields of the cross-component
//! protocol.

use vstd::prelude::*;
use crate::lal::LibraryDependency;

verus! {

/// Source or target programming language.
#[derive(Clone, Copy, PartialEq, Eq, Structural, Debug)]
pub enum Language {
    JavaScript,
    TypeScript,
    Python,
    Rust,
    Go,
    Java,
    CSharp,
    FSharp,
    VisualBasic,
    Cobol,
    Fortran,
    C,
    Cpp,
}

/// Loop flavour of a control-flow node.
#[derive(Clone, Copy, PartialEq, Eq, Structural, Debug)]
pub enum LoopType {
    For,
    While,
    DoWhile,
    ForEach,
}

/// Control-flow construct kinds.
#[derive(Clone, Copy, PartialEq, Eq, Structural, Debug)]
pub enum ControlFlowType {
    Conditional,
    Loop(LoopType),
    Switch,
    Try,
    Goto,
}

/// Expression kinds.
#[derive(Clone, Copy, PartialEq, Eq, Structural, Debug)]
pub enum ExpressionType {
    Literal,
    Variable,
    FunctionCall,
    Arithmetic,
    Comparison,
    Logical,
    Assignment,
}

/// Statement kinds.
#[derive(Clone, Copy, PartialEq, Eq, Structural, Debug)]
pub enum StatementType {
    Expression,
    Return,
    Break,
    Continue,
    Throw,
}

/// The closed union of UIR node classifications.
#[derive(Clone, Copy, PartialEq, Eq, Structural, Debug)]
pub enum NodeType {
    Module,
    Function,
    Class,
    Interface,
    Variable,
    Constant,
    ControlFlow(ControlFlowType),
    Expression(ExpressionType),
    Statement(StatementType),
}

/// A source construct flagged for verbatim preservation or explicit
/// modernization during emission.
#[derive(Debug)]
pub struct LegacyPattern {
    pub pattern_type: String,
    pub original_construct: String,
    pub modernization_hint: Option<String>,
    pub preserve_exactly: bool,
}

/// File, line and column span of a node in its source text.
#[derive(Debug)]
pub struct SourceLocation {
    pub file: String,
    pub start_line: u32,
    pub end_line: u32,
    pub start_column: u32,
    pub end_column: u32,
}

/// The reserved annotation fields of the cross-component protocol, plus an
/// open escape hatch for keys outside it.
#[derive(Debug)]
pub struct Annotations {
    /// Original source text of the node, recorded when short.
    pub original_text: Option<String>,
    /// Initializer text of a simple binding.
    pub value: Option<String>,
    /// Diagnostic recorded when a front end recovered from syntax errors.
    pub parse_error: Option<String>,
    /// Detected library dependency attached by the abstraction layer.
    pub library_dependency: Option<LibraryDependency>,
    /// Name of the library pattern a node was matched against.
    pub library_pattern: Option<String>,
    /// Semantic intent of the matched pattern.
    pub semantic_intent: Option<String>,
    /// `library:pattern` a node was transformed from.
    pub transformed_from: Option<String>,
    /// `library:pattern` a node was transformed to.
    pub transformed_to: Option<String>,
    /// Rendered target-ecosystem code for the node.
    pub generated_code: Option<String>,
    /// Imports the rendered code requires.
    pub required_imports: Option<Vec<String>>,
    /// Setup snippet the rendered code requires.
    pub setup_code: Option<String>,
    /// Cleanup snippet the rendered code requires.
    pub cleanup_code: Option<String>,
    /// Human-readable porting note attached when no rule applied.
    pub fallback_implementation: Option<String>,
    /// Set when a detected usage could not be rewritten automatically.
    pub requires_manual_implementation: bool,
    /// Annotation keys outside the reserved protocol.
    pub extra: Vec<(String, String)>,
}

/// Per-node metadata: source language, semantic tags, dependency names, the
/// annotation record, and legacy patterns.
#[derive(Debug)]
pub struct Metadata {
    pub source_language: Language,
    pub semantic_tags: Vec<String>,
    pub dependencies: Vec<String>,
    pub annotations: Annotations,
    pub legacy_patterns: Vec<LegacyPattern>,
}

/// A node of the universal intermediate representation.
#[derive(Debug)]
pub struct UIRNode {
    pub id: String,
    pub node_type: NodeType,
    pub name: Option<String>,
    pub children: Vec<UIRNode>,
    pub metadata: Metadata,
    pub source_location: Option<SourceLocation>,
}

/// All annotation fields empty.
pub open spec fn annotations_empty(a: Annotations) -> bool {
    &&& a.original_text is None
    &&& a.value is None
    &&& a.parse_error is None
    &&& a.library_dependency is None
    &&& a.library_pattern is None
    &&& a.semantic_intent is None
    &&& a.transformed_from is None
    &&& a.transformed_to is None
    &&& a.generated_code is None
    &&& a.required_imports is None
    &&& a.setup_code is None
    &&& a.cleanup_code is None
    &&& a.fallback_implementation is None
    &&& a.requires_manual_implementation == false
    &&& a.extra@.len() == 0
}

/// Default metadata for the given source language: no tags, no
/// dependencies, empty annotations, no legacy patterns.
pub open spec fn metadata_default_for(m: Metadata, lang: Language) -> bool {
    &&& m.source_language == lang
    &&& m.semantic_tags@.len() == 0
    &&& m.dependencies@.len() == 0
    &&& annotations_empty(m.annotations)
    &&& m.legacy_patterns@.len() == 0
}

impl Annotations {
    /// An annotation record with every field empty.
    pub fn empty() -> (r: Annotations)
        ensures
            annotations_empty(r),
    {
        Annotations {
            original_text: None,
            value: None,
            parse_error: None,
            library_dependency: None,
            library_pattern: None,
            semantic_intent: None,
            transformed_from: None,
            transformed_to: None,
            generated_code: None,
            required_imports: None,
            setup_code: None,
            cleanup_code: None,
            fallback_implementation: None,
            requires_manual_implementation: false,
            extra: Vec::new(),
        }
    }
}

impl Metadata {
    /// Empty metadata tagged with the given source language.
    pub fn new_for(lang: Language) -> (r: Metadata)
        ensures
            metadata_default_for(r, lang),
    {
        Metadata {
            source_language: lang,
            semantic_tags: Vec::new(),
            dependencies: Vec::new(),
            annotations: Annotations::empty(),
            legacy_patterns: Vec::new(),
        }
    }
}

impl Default for Metadata {
    /// Empty metadata; the source language defaults to JavaScript.
    fn default() -> (r: Metadata)
        ensures
            metadata_default_for(r, Language::JavaScript),
    {
        Metadata::new_for(Language::JavaScript)
    }
}

impl UIRNode {
    /// A node with the given identifier and classification, no name, no
    /// children, default metadata and no source location.
    pub fn new(id: String, node_type: NodeType) -> (r: UIRNode)
        ensures
            r.id == id,
            r.node_type == node_type,
            r.name is None,
            r.children@.len() == 0,
            metadata_default_for(r.metadata, Language::JavaScript),
            r.source_location is None,
    {
        UIRNode {
            id,
            node_type,
            name: None,
            children: Vec::new(),
            metadata: Metadata::default(),
            source_location: None,
        }
    }

    /// Names the node.
    pub fn with_name(self, name: String) -> (r: UIRNode)
        ensures
            r.id == self.id,
            r.node_type == self.node_type,
            r.name == Some(name),
            r.children == self.children,
            r.metadata == self.metadata,
            r.source_location == self.source_location,
    {
        UIRNode { name: Some(name), ..self }
    }

    /// Replaces the node's metadata.
    pub fn with_metadata(self, metadata: Metadata) -> (r: UIRNode)
        ensures
            r.id == self.id,
            r.node_type == self.node_type,
            r.name == self.name,
            r.children == self.children,
            r.metadata == metadata,
            r.source_location == self.source_location,
    {
        UIRNode { metadata, ..self }
    }

    /// Appends a child node.
    pub fn add_child(self, child: UIRNode) -> (r: UIRNode)
        ensures
            r.id == self.id,
            r.node_type == self.node_type,
            r.name == self.name,
            r.children@ == self.children@.push(child),
            r.metadata == self.metadata,
            r.source_location == self.source_location,
    {
        let mut node = self;
        node.children.push(child);
        node
    }
}

} // verus!
