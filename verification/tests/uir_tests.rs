//! UIR and normalization tests: mapping totality, identifier determinism,
//! the end-to-end JavaScript scenario, error recovery, language detection,
//! and the error taxonomy.

use coalesce::errors::CoalesceError;
use coalesce::ident::generate_node_id;
use coalesce::javascript::JavaScriptParser;
use coalesce::mapping::{fallback_node_type, map_kind_cpp, map_kind_go, map_kind_js, map_kind_rust};
use coalesce::parser::{create_parser, detect_language, parse_go, parse_python, AnyParser};
use coalesce::strutil::u32_to_string;
use coalesce::uir::{ExpressionType, Language, NodeType, StatementType, UIRNode};

#[test]
fn unknown_kinds_classify_by_substring_fallback() {
    // Unlisted kinds never fail: kinds containing "statement" become
    // expression statements, kinds containing "expression" become variable
    // expressions, everything else becomes a literal expression.
    assert_eq!(
        fallback_node_type("labeled_statement"),
        NodeType::Statement(StatementType::Expression)
    );
    assert_eq!(
        fallback_node_type("await_expression"),
        NodeType::Expression(ExpressionType::Variable)
    );
    assert_eq!(fallback_node_type("comment"), NodeType::Expression(ExpressionType::Literal));
    assert_eq!(
        map_kind_cpp("weird_statement"),
        NodeType::Statement(StatementType::Expression)
    );
    assert_eq!(
        map_kind_go("funky_expression"),
        NodeType::Expression(ExpressionType::Variable)
    );
    assert_eq!(map_kind_rust("attribute"), NodeType::Expression(ExpressionType::Literal));
    assert_eq!(
        map_kind_js("ternary_expression"),
        NodeType::Expression(ExpressionType::Variable)
    );
}

#[test]
fn node_ids_are_deterministic_and_structured() {
    let a = generate_node_id("identifier", 0, 9, "count");
    let b = generate_node_id("identifier", 0, 9, "count");
    assert_eq!(a, b);
    assert_eq!(a, "identifier_0_9_count");
    // Spaces in the text prefix become underscores and only the first
    // fifteen characters enter the identifier.
    let c = generate_node_id("binary_expression", 2, 4, "a + b and much more text");
    assert_eq!(c, "binary_expression_2_4_a_+_b_and_much_");
}

fn ids_of(node: &UIRNode, out: &mut Vec<String>) {
    out.push(node.id.clone());
    for child in &node.children {
        ids_of(child, out);
    }
}

#[test]
fn repeated_parses_yield_identical_ids() {
    let parser = JavaScriptParser::new().unwrap();
    let source = "function add(a, b) { return a + b; }";
    let first = parser.parse(source).unwrap();
    let second = parser.parse(source).unwrap();
    let mut ids1 = Vec::new();
    let mut ids2 = Vec::new();
    ids_of(&first, &mut ids1);
    ids_of(&second, &mut ids2);
    assert_eq!(ids1, ids2);
    assert!(!ids1.is_empty());
}

#[test]
fn javascript_function_normalizes_end_to_end() {
    let parser = JavaScriptParser::new().unwrap();
    let uir = parser.parse("function add(a, b) { return a + b; }").unwrap();
    assert_eq!(uir.node_type, NodeType::Module);
    assert_eq!(uir.name.as_deref(), Some("javascript_program"));
    assert_eq!(uir.children.len(), 1);

    let func = &uir.children[0];
    assert_eq!(func.node_type, NodeType::Function);
    assert_eq!(func.name.as_deref(), Some("add"));
    assert_eq!(func.children.len(), 3);

    let a = &func.children[0];
    let b = &func.children[1];
    assert_eq!(a.node_type, NodeType::Variable);
    assert_eq!(a.name.as_deref(), Some("a"));
    assert_eq!(b.node_type, NodeType::Variable);
    assert_eq!(b.name.as_deref(), Some("b"));

    let ret = &func.children[2];
    assert_eq!(ret.node_type, NodeType::Statement(StatementType::Return));
    assert_eq!(ret.children.len(), 1);

    let sum = &ret.children[0];
    assert_eq!(sum.node_type, NodeType::Expression(ExpressionType::Arithmetic));
    assert_eq!(sum.children.len(), 2);
    assert_eq!(sum.children[0].node_type, NodeType::Expression(ExpressionType::Variable));
    assert_eq!(sum.children[0].name.as_deref(), Some("a"));
    assert_eq!(sum.children[1].node_type, NodeType::Expression(ExpressionType::Variable));
    assert_eq!(sum.children[1].name.as_deref(), Some("b"));
}

#[test]
fn javascript_recovers_from_syntax_errors() {
    let parser = JavaScriptParser::new().unwrap();
    let uir = parser.parse("function (").unwrap();
    assert_eq!(uir.id, "error_recovery");
    assert_eq!(uir.node_type, NodeType::Module);
    assert_eq!(uir.name.as_deref(), Some("partial_parse"));
    assert!(uir.children.is_empty());
    let msg = uir.metadata.annotations.parse_error.as_deref().unwrap();
    assert!(msg.starts_with("Parse errors found: "));
}

#[test]
fn go_import_names_are_cleaned() {
    let uir = parse_go("package main\n\nimport \"net/http\"\n").unwrap();
    let names: Vec<&str> = uir.children.iter().filter_map(|c| c.name.as_deref()).collect();
    assert!(names.contains(&"package_main"));
    assert!(names.contains(&"import_net_http"));
}

#[test]
fn language_detection_prefers_file_extension() {
    assert_eq!(detect_language("anything", Some("lib.rs")), Language::Rust);
    assert_eq!(detect_language("anything", Some("app.jsx")), Language::JavaScript);
    assert_eq!(detect_language("anything", Some("main.go")), Language::Go);
    assert_eq!(detect_language("anything", Some("form.vb")), Language::VisualBasic);
}

#[test]
fn language_detection_falls_back_to_content() {
    assert_eq!(detect_language("using System;\nnamespace A {}", None), Language::CSharp);
    assert_eq!(
        detect_language("fn main() { let mut x = 1; }", None),
        Language::Rust
    );
    assert_eq!(detect_language("package main\nfunc add() {}", None), Language::Go);
    assert_eq!(detect_language("function f() {}", None), Language::JavaScript);
    assert_eq!(detect_language("", None), Language::JavaScript);
}

#[test]
fn parser_factory_covers_supported_languages() {
    assert!(create_parser(Language::JavaScript).is_ok());
    assert!(create_parser(Language::Cpp).is_ok());
    assert!(create_parser(Language::Go).is_ok());
    let p = create_parser(Language::CSharp).unwrap();
    assert_eq!(p.language(), Language::CSharp);
    assert!(matches!(p, AnyParser::CSharp(_)));
    assert!(create_parser(Language::Python).is_err());
    assert!(create_parser(Language::Cobol).is_err());
    assert!(create_parser(Language::Java).is_err());
}

#[test]
fn python_placeholder_extracts_one_function() {
    let uir = parse_python("def f():\n    pass").unwrap();
    assert_eq!(uir.id, "python_func");
    assert_eq!(uir.node_type, NodeType::Function);
    assert_eq!(uir.name.as_deref(), Some("extracted_function"));
    let err = parse_python("x = 1");
    assert!(err.is_err());
}

#[test]
fn error_messages_render_their_details() {
    let e = CoalesceError::ParseError {
        message: "oops".to_string(),
        line: 3,
        column: 7,
    };
    assert_eq!(e.message(), "Parse error: oops at line 3, column 7");
    let g = CoalesceError::GenerationError("sink closed".to_string());
    assert_eq!(g.message(), "Generation error: sink closed");
    let u = CoalesceError::UnsupportedLanguage(Language::Cobol);
    assert_eq!(u.message(), "Unsupported language");
    let t = CoalesceError::TransformationError("bad record".to_string());
    assert_eq!(t.message(), "Transformation error: bad record");
    let l = CoalesceError::LegacyPatternError {
        pattern: "goto".to_string(),
    };
    assert_eq!(l.message(), "Legacy pattern preservation failed: goto");
}

#[test]
fn decimal_rendering_matches_expected_digits() {
    assert_eq!(u32_to_string(0), "0");
    assert_eq!(u32_to_string(7), "7");
    assert_eq!(u32_to_string(1234), "1234");
    assert_eq!(u32_to_string(u32::MAX), "4294967295");
}

#[test]
fn builders_assemble_nodes() {
    let node = UIRNode::new("root".to_string(), NodeType::Module)
        .add_child(UIRNode::new("leaf".to_string(), NodeType::Constant));
    assert_eq!(node.children.len(), 1);
    assert_eq!(node.children[0].id, "leaf");
    assert!(node.name.is_none());
}

#[test]
fn javascript_variable_declarations_nest_initializers() {
    let parser = JavaScriptParser::new().unwrap();
    // The grammar reserves the variable-declaration kind for `var`;
    // `const` and `let` produce lexical declarations handled generically.
    let uir = parser.parse("var x = 5;").unwrap();
    assert_eq!(uir.children.len(), 1);
    let decl = &uir.children[0];
    assert_eq!(decl.node_type, NodeType::Statement(StatementType::Expression));
    assert_eq!(decl.name.as_deref(), Some("variable_declaration"));
    assert_eq!(decl.children.len(), 1);
    let var = &decl.children[0];
    assert_eq!(var.node_type, NodeType::Variable);
    assert_eq!(var.name.as_deref(), Some("x"));
    assert_eq!(var.children.len(), 1);
    assert_eq!(var.children[0].node_type, NodeType::Expression(ExpressionType::Literal));
}

#[test]
fn javascript_conditionals_extract_condition_and_branch() {
    let parser = JavaScriptParser::new().unwrap();
    let uir = parser.parse("if (a < b) { f(); }").unwrap();
    let cond = &uir.children[0];
    assert_eq!(
        cond.node_type,
        NodeType::ControlFlow(coalesce::uir::ControlFlowType::Conditional)
    );
    assert_eq!(cond.name.as_deref(), Some("if_statement"));
    assert_eq!(cond.children.len(), 2);
    assert_eq!(cond.children[0].node_type, NodeType::Expression(ExpressionType::Arithmetic));
}

#[test]
fn javascript_classes_carry_their_methods() {
    let parser = JavaScriptParser::new().unwrap();
    let uir = parser.parse("class Calculator { add(a, b) { return a + b; } }").unwrap();
    let class = &uir.children[0];
    assert_eq!(class.node_type, NodeType::Class);
    assert_eq!(class.name.as_deref(), Some("Calculator"));
    let method = class
        .children
        .iter()
        .find(|c| c.node_type == NodeType::Function)
        .expect("a method child");
    assert_eq!(method.name.as_deref(), Some("add"));
}

#[test]
fn javascript_arrow_functions_take_a_fixed_name() {
    let parser = JavaScriptParser::new().unwrap();
    let uir = parser.parse("const f = (a, b) => a + b;").unwrap();
    fn find_arrow(node: &UIRNode) -> Option<&UIRNode> {
        if node.name.as_deref() == Some("arrow_function") {
            return Some(node);
        }
        node.children.iter().find_map(find_arrow)
    }
    let arrow = find_arrow(&uir).expect("the arrow function node");
    assert_eq!(arrow.node_type, NodeType::Function);
    // Two parameter leaves precede the expression body.
    assert_eq!(arrow.children.len(), 3);
    assert_eq!(arrow.children[0].name.as_deref(), Some("a"));
    assert_eq!(arrow.children[1].name.as_deref(), Some("b"));
}
