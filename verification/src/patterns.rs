//! Library patterns: named, semantically described library idioms with
//! their per-ecosystem transformation rules, and the built-in pattern
//! tables.

use vstd::prelude::*;

verus! {

/// What a pattern means, independent of syntax; used for cross-ecosystem
/// equivalence matching.
#[derive(Debug)]
pub struct PatternSemantics {
    pub intent: String,
    pub category: String,
    pub behavior: String,
    pub side_effects: Vec<String>,
    pub requirements: Vec<String>,
    pub mutability: bool,
    pub reactivity: bool,
}

/// One declared parameter of a pattern.
#[derive(Debug)]
pub struct PatternParameter {
    pub name: String,
    pub param_type: String,
    pub required: bool,
    pub default_value: Option<String>,
    pub description: String,
}

/// A rule rewriting a pattern for one target ecosystem: a template with
/// `{{param}}` placeholders, the imports the rendered code needs, and
/// optional setup and cleanup snippets.
#[derive(Debug)]
pub struct TransformRule {
    pub target_library: String,
    pub target_pattern: String,
    pub template: String,
    pub imports: Vec<String>,
    pub setup_code: Option<String>,
    pub cleanup_code: Option<String>,
    pub parameter_mappings: Vec<(String, String)>,
}

/// A named library idiom with its semantics and its transformation rules,
/// keyed by target ecosystem.
#[derive(Debug)]
pub struct LibraryPattern {
    pub name: String,
    pub library: String,
    pub ecosystem: String,
    pub signature: String,
    pub semantics: PatternSemantics,
    pub parameters: Vec<PatternParameter>,
    pub transformations: Vec<(String, TransformRule)>,
}

/// The first transformation rule stored under a target ecosystem.
pub open spec fn spec_rule_for(rules: Seq<(String, TransformRule)>, eco: Seq<char>) -> Option<
    TransformRule,
>
    decreases rules.len(),
{
    if rules.len() == 0 {
        None
    } else if rules[0].0@ == eco {
        Some(rules[0].1)
    } else {
        spec_rule_for(rules.drop_first(), eco)
    }
}

impl LibraryPattern {
    /// Looks up the transformation rule for a target ecosystem.
    pub fn rule_for<'a>(&'a self, eco: &str) -> (r: Option<&'a TransformRule>)
        ensures
            match r {
                Some(rule) => spec_rule_for(self.transformations@, eco@) == Some(*rule),
                None => spec_rule_for(self.transformations@, eco@) is None,
            },
    {
        let n = self.transformations.len();
        proof {
            assert(self.transformations@.skip(0) =~= self.transformations@);
        }
        let mut i: usize = 0;
        while i < n
            invariant
                i <= n,
                n == self.transformations@.len(),
                spec_rule_for(self.transformations@, eco@) == spec_rule_for(
                    self.transformations@.skip(i as int),
                    eco@,
                ),
            decreases n - i,
        {
            proof {
                assert(self.transformations@.skip(i as int)[0] == self.transformations@[i as int]);
                assert(self.transformations@.skip(i as int).drop_first()
                    =~= self.transformations@.skip(i + 1));
            }
            if crate::strutil::str_eq(self.transformations[i].0.as_str(), eco) {
                return Some(&self.transformations[i].1);
            }
            i += 1;
        }
        proof {
            assert(self.transformations@.skip(n as int).len() == 0);
        }
        None
    }
}

/// Essential shape of a transformation rule: where it points and what it
/// renders.
pub open spec fn rule_is(
    r: TransformRule,
    target_library: Seq<char>,
    target_pattern: Seq<char>,
    template: Seq<char>,
    imports: Seq<Seq<char>>,
) -> bool {
    &&& r.target_library@ == target_library
    &&& r.target_pattern@ == target_pattern
    &&& r.template@ == template
    &&& r.imports.deep_view() == imports
    &&& r.setup_code is None
    &&& r.cleanup_code is None
}

/// Essential shape of a pattern: its key, where it lives, and what it
/// means.
pub open spec fn pattern_is(
    p: LibraryPattern,
    name: Seq<char>,
    library: Seq<char>,
    ecosystem: Seq<char>,
    intent: Seq<char>,
    category: Seq<char>,
    behavior: Seq<char>,
    mutability: bool,
    reactivity: bool,
) -> bool {
    &&& p.name@ == name
    &&& p.library@ == library
    &&& p.ecosystem@ == ecosystem
    &&& p.semantics.intent@ == intent
    &&& p.semantics.category@ == category
    &&& p.semantics.behavior@ == behavior
    &&& p.semantics.mutability == mutability
    &&& p.semantics.reactivity == reactivity
}

/// The built-in pattern tables.
pub struct PatternLibrary {}

/// The shape of the built-in React patterns: the state hook with rules for
/// two reactive frameworks, and the effect hook with one.
pub open spec fn react_patterns_shape(v: Seq<LibraryPattern>) -> bool {
    &&& v.len() == 2
    &&& pattern_is(
        v[0],
        "useState"@,
        "react"@,
        "javascript"@,
        "reactive_state_management"@,
        "state"@,
        "Creates reactive state that triggers re-renders"@,
        true,
        true,
    )
    &&& v[0].signature@ == "const [state, setState] = useState(initialValue)"@
    &&& v[0].parameters@.len() == 1
    &&& v[0].transformations@.len() == 2
    &&& v[0].transformations@[0].0@ == "vue"@
    &&& rule_is(
        v[0].transformations@[0].1,
        "vue"@,
        "ref"@,
        "const {{state}} = ref({{initialValue}})"@,
        seq!["import { ref } from 'vue'"@],
    )
    &&& v[0].transformations@[1].0@ == "svelte"@
    &&& rule_is(
        v[0].transformations@[1].1,
        "svelte"@,
        "writable"@,
        "const {{state}} = writable({{initialValue}})"@,
        seq!["import { writable } from 'svelte/store'"@],
    )
    &&& pattern_is(
        v[1],
        "useEffect"@,
        "react"@,
        "javascript"@,
        "side_effect_lifecycle"@,
        "lifecycle"@,
        "Executes side effects after render"@,
        false,
        true,
    )
    &&& v[1].signature@ == "useEffect(callback, dependencies)"@
    &&& v[1].parameters@.len() == 2
    &&& v[1].transformations@.len() == 1
    &&& v[1].transformations@[0].0@ == "vue"@
    &&& rule_is(
        v[1].transformations@[0].1,
        "vue"@,
        "watchEffect"@,
        "watchEffect(() => { {{callback}} })"@,
        seq!["import { watchEffect } from 'vue'"@],
    )
}

/// The shape of the built-in Django patterns: the model declaration and
/// the text field, each with one relational-toolkit rule.
pub open spec fn django_patterns_shape(v: Seq<LibraryPattern>) -> bool {
    &&& v.len() == 2
    &&& pattern_is(
        v[0],
        "Model"@,
        "django"@,
        "python"@,
        "orm_model"@,
        "database"@,
        "Defines a database table structure"@,
        true,
        false,
    )
    &&& v[0].signature@ == "class MyModel(models.Model)"@
    &&& v[0].parameters@.len() == 0
    &&& v[0].transformations@.len() == 1
    &&& v[0].transformations@[0].0@ == "sqlalchemy"@
    &&& rule_is(
        v[0].transformations@[0].1,
        "sqlalchemy"@,
        "declarative_base"@,
        "class {{name}}(Base):\n    __tablename__ = '{{table_name}}'"@,
        seq![
            "from sqlalchemy.ext.declarative import declarative_base"@,
            "Base = declarative_base()"@,
        ],
    )
    &&& pattern_is(
        v[1],
        "CharField"@,
        "django"@,
        "python"@,
        "text_field"@,
        "database_field"@,
        "Defines a text field in database"@,
        true,
        false,
    )
    &&& v[1].signature@ == "field = models.CharField(max_length=100)"@
    &&& v[1].parameters@.len() == 1
    &&& v[1].transformations@.len() == 1
    &&& v[1].transformations@[0].0@ == "sqlalchemy"@
    &&& rule_is(
        v[1].transformations@[0].1,
        "sqlalchemy"@,
        "String"@,
        "{{field_name}} = Column(String({{max_length}}))"@,
        seq!["from sqlalchemy import Column, String"@],
    )
}

/// The shape of the built-in networking patterns: socket creation with
/// rules for three target ecosystems.
pub open spec fn networking_patterns_shape(v: Seq<LibraryPattern>) -> bool {
    &&& v.len() == 1
    &&& pattern_is(
        v[0],
        "tcp_socket"@,
        "socket"@,
        "c"@,
        "tcp_socket_creation"@,
        "networking"@,
        "Creates a TCP socket for network communication"@,
        false,
        false,
    )
    &&& v[0].signature@ == "int sock = socket(AF_INET, SOCK_STREAM, 0)"@
    &&& v[0].parameters@.len() == 0
    &&& v[0].transformations@.len() == 3
    &&& v[0].transformations@[0].0@ == "rust"@
    &&& rule_is(
        v[0].transformations@[0].1,
        "std"@,
        "TcpStream"@,
        "let stream = TcpStream::connect(\"{{address}}:{{port}}\")"@,
        seq!["use std::net::TcpStream"@],
    )
    &&& v[0].transformations@[1].0@ == "go"@
    &&& rule_is(
        v[0].transformations@[1].1,
        "net"@,
        "Dial"@,
        "conn, err := net.Dial(\"tcp\", \"{{address}}:{{port}}\")"@,
        seq!["import \"net\""@],
    )
    &&& v[0].transformations@[2].0@ == "python"@
    &&& rule_is(
        v[0].transformations@[2].1,
        "socket"@,
        "socket"@,
        "sock = socket.socket(socket.AF_INET, socket.SOCK_STREAM)"@,
        seq!["import socket"@],
    )
}

/// Builds a transformation rule without setup or cleanup snippets.
fn plain_rule(
    target_library: &str,
    target_pattern: &str,
    template: &str,
    imports: Vec<String>,
    parameter_mappings: Vec<(String, String)>,
) -> (r: TransformRule)
    ensures
        r.target_library@ == target_library@,
        r.target_pattern@ == target_pattern@,
        r.template@ == template@,
        r.imports == imports,
        r.setup_code is None,
        r.cleanup_code is None,
        r.parameter_mappings == parameter_mappings,
{
    TransformRule {
        target_library: String::from_str(target_library),
        target_pattern: String::from_str(target_pattern),
        template: String::from_str(template),
        imports,
        setup_code: None,
        cleanup_code: None,
        parameter_mappings,
    }
}

/// Builds a one-element string list.
fn one_string(a: &str) -> (r: Vec<String>)
    ensures
        r.deep_view() == seq![a@],
{
    let mut v: Vec<String> = Vec::new();
    v.push(String::from_str(a));
    proof {
        assert(v.deep_view() =~= seq![a@]);
    }
    v
}

impl PatternLibrary {
    /// The built-in React patterns.
    pub fn react_patterns() -> (r: Vec<LibraryPattern>)
        ensures
            react_patterns_shape(r@),
    {
        let mut vue_state_mappings: Vec<(String, String)> = Vec::new();
        vue_state_mappings.push(
            (String::from_str("setState"), String::from_str("{{state}}.value = ")),
        );
        let vue_state_rule = plain_rule(
            "vue",
            "ref",
            "const {{state}} = ref({{initialValue}})",
            one_string("import { ref } from 'vue'"),
            vue_state_mappings,
        );
        let svelte_state_rule = plain_rule(
            "svelte",
            "writable",
            "const {{state}} = writable({{initialValue}})",
            one_string("import { writable } from 'svelte/store'"),
            Vec::new(),
        );
        let mut state_rules: Vec<(String, TransformRule)> = Vec::new();
        state_rules.push((String::from_str("vue"), vue_state_rule));
        state_rules.push((String::from_str("svelte"), svelte_state_rule));
        let mut state_params: Vec<PatternParameter> = Vec::new();
        state_params.push(
            PatternParameter {
                name: String::from_str("initialValue"),
                param_type: String::from_str("any"),
                required: true,
                default_value: Some(String::from_str("undefined")),
                description: String::from_str("Initial state value"),
            },
        );
        let use_state = LibraryPattern {
            name: String::from_str("useState"),
            library: String::from_str("react"),
            ecosystem: String::from_str("javascript"),
            signature: String::from_str("const [state, setState] = useState(initialValue)"),
            semantics: PatternSemantics {
                intent: String::from_str("reactive_state_management"),
                category: String::from_str("state"),
                behavior: String::from_str("Creates reactive state that triggers re-renders"),
                side_effects: one_string("component_rerender"),
                requirements: one_string("react_component_context"),
                mutability: true,
                reactivity: true,
            },
            parameters: state_params,
            transformations: state_rules,
        };
        let vue_effect_rule = plain_rule(
            "vue",
            "watchEffect",
            "watchEffect(() => { {{callback}} })",
            one_string("import { watchEffect } from 'vue'"),
            Vec::new(),
        );
        let mut effect_rules: Vec<(String, TransformRule)> = Vec::new();
        effect_rules.push((String::from_str("vue"), vue_effect_rule));
        let mut effect_params: Vec<PatternParameter> = Vec::new();
        effect_params.push(
            PatternParameter {
                name: String::from_str("callback"),
                param_type: String::from_str("function"),
                required: true,
                default_value: None,
                description: String::from_str("Effect callback function"),
            },
        );
        effect_params.push(
            PatternParameter {
                name: String::from_str("dependencies"),
                param_type: String::from_str("array"),
                required: false,
                default_value: Some(String::from_str("[]")),
                description: String::from_str("Dependency array"),
            },
        );
        let mut effect_side_effects: Vec<String> = Vec::new();
        effect_side_effects.push(String::from_str("dom_mutation"));
        effect_side_effects.push(String::from_str("api_calls"));
        effect_side_effects.push(String::from_str("subscriptions"));
        let use_effect = LibraryPattern {
            name: String::from_str("useEffect"),
            library: String::from_str("react"),
            ecosystem: String::from_str("javascript"),
            signature: String::from_str("useEffect(callback, dependencies)"),
            semantics: PatternSemantics {
                intent: String::from_str("side_effect_lifecycle"),
                category: String::from_str("lifecycle"),
                behavior: String::from_str("Executes side effects after render"),
                side_effects: effect_side_effects,
                requirements: one_string("react_component_context"),
                mutability: false,
                reactivity: true,
            },
            parameters: effect_params,
            transformations: effect_rules,
        };
        let mut out: Vec<LibraryPattern> = Vec::new();
        out.push(use_state);
        out.push(use_effect);
        out
    }

    /// The built-in Django patterns.
    pub fn django_patterns() -> (r: Vec<LibraryPattern>)
        ensures
            django_patterns_shape(r@),
    {
        let mut model_imports: Vec<String> = Vec::new();
        model_imports.push(String::from_str("from sqlalchemy.ext.declarative import declarative_base"));
        model_imports.push(String::from_str("Base = declarative_base()"));
        proof {
            assert(model_imports.deep_view() =~= seq![
                "from sqlalchemy.ext.declarative import declarative_base"@,
                "Base = declarative_base()"@,
            ]);
        }
        let model_rule = plain_rule(
            "sqlalchemy",
            "declarative_base",
            "class {{name}}(Base):\n    __tablename__ = '{{table_name}}'",
            model_imports,
            Vec::new(),
        );
        let mut model_rules: Vec<(String, TransformRule)> = Vec::new();
        model_rules.push((String::from_str("sqlalchemy"), model_rule));
        let model = LibraryPattern {
            name: String::from_str("Model"),
            library: String::from_str("django"),
            ecosystem: String::from_str("python"),
            signature: String::from_str("class MyModel(models.Model)"),
            semantics: PatternSemantics {
                intent: String::from_str("orm_model"),
                category: String::from_str("database"),
                behavior: String::from_str("Defines a database table structure"),
                side_effects: one_string("database_table_creation"),
                requirements: one_string("django_orm"),
                mutability: true,
                reactivity: false,
            },
            parameters: Vec::new(),
            transformations: model_rules,
        };
        let field_rule = plain_rule(
            "sqlalchemy",
            "String",
            "{{field_name}} = Column(String({{max_length}}))",
            one_string("from sqlalchemy import Column, String"),
            Vec::new(),
        );
        let mut field_rules: Vec<(String, TransformRule)> = Vec::new();
        field_rules.push((String::from_str("sqlalchemy"), field_rule));
        let mut field_params: Vec<PatternParameter> = Vec::new();
        field_params.push(
            PatternParameter {
                name: String::from_str("max_length"),
                param_type: String::from_str("integer"),
                required: true,
                default_value: None,
                description: String::from_str("Maximum character length"),
            },
        );
        let char_field = LibraryPattern {
            name: String::from_str("CharField"),
            library: String::from_str("django"),
            ecosystem: String::from_str("python"),
            signature: String::from_str("field = models.CharField(max_length=100)"),
            semantics: PatternSemantics {
                intent: String::from_str("text_field"),
                category: String::from_str("database_field"),
                behavior: String::from_str("Defines a text field in database"),
                side_effects: one_string("database_column_creation"),
                requirements: one_string("django_model"),
                mutability: true,
                reactivity: false,
            },
            parameters: field_params,
            transformations: field_rules,
        };
        let mut out: Vec<LibraryPattern> = Vec::new();
        out.push(model);
        out.push(char_field);
        out
    }

    /// The built-in cross-platform networking patterns.
    pub fn networking_patterns() -> (r: Vec<LibraryPattern>)
        ensures
            networking_patterns_shape(r@),
    {
        let rust_rule = plain_rule(
            "std",
            "TcpStream",
            "let stream = TcpStream::connect(\"{{address}}:{{port}}\")",
            one_string("use std::net::TcpStream"),
            Vec::new(),
        );
        let go_rule = plain_rule(
            "net",
            "Dial",
            "conn, err := net.Dial(\"tcp\", \"{{address}}:{{port}}\")",
            one_string("import \"net\""),
            Vec::new(),
        );
        let python_rule = plain_rule(
            "socket",
            "socket",
            "sock = socket.socket(socket.AF_INET, socket.SOCK_STREAM)",
            one_string("import socket"),
            Vec::new(),
        );
        let mut rules: Vec<(String, TransformRule)> = Vec::new();
        rules.push((String::from_str("rust"), rust_rule));
        rules.push((String::from_str("go"), go_rule));
        rules.push((String::from_str("python"), python_rule));
        let socket_pattern = LibraryPattern {
            name: String::from_str("tcp_socket"),
            library: String::from_str("socket"),
            ecosystem: String::from_str("c"),
            signature: String::from_str("int sock = socket(AF_INET, SOCK_STREAM, 0)"),
            semantics: PatternSemantics {
                intent: String::from_str("tcp_socket_creation"),
                category: String::from_str("networking"),
                behavior: String::from_str("Creates a TCP socket for network communication"),
                side_effects: one_string("system_resource_allocation"),
                requirements: one_string("socket_library"),
                mutability: false,
                reactivity: false,
            },
            parameters: Vec::new(),
            transformations: rules,
        };
        let mut out: Vec<LibraryPattern> = Vec::new();
        out.push(socket_pattern);
        out
    }
}

} // verus!
