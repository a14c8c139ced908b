//! Front-end tests: each grammar-backed and pattern-backed front end
//! normalizes representative source text into a module-rooted UIR tree.

use coalesce::cpp::CppParser;
use coalesce::csharp::CSharpParser;
use coalesce::fsharp::FSharpParser;
use coalesce::go::GoParser;
use coalesce::rust_parser::RustParser;
use coalesce::uir::NodeType;
use coalesce::vb::VisualBasicParser;

#[test]
fn test_simple_cpp_function() {
    let parser = CppParser::new().unwrap();
    let source = "int add(int a, int b) { return a + b; }";

    let result = parser.parse(source);
    assert!(result.is_ok());

    let uir = result.unwrap();
    assert_eq!(uir.node_type, NodeType::Module);
    assert!(!uir.children.is_empty());
}

#[test]
fn test_cpp_class() {
    let parser = CppParser::new().unwrap();
    let source = r#"
class Calculator {
public:
    int add(int a, int b) {
        return a + b;
    }
};
"#;

    let result = parser.parse(source);
    assert!(result.is_ok());
}

#[test]
fn test_cpp_namespace() {
    let parser = CppParser::new().unwrap();
    let source = r#"
namespace math {
    int add(int a, int b) {
        return a + b;
    }
}
"#;

    let result = parser.parse(source);
    assert!(result.is_ok());
}

#[test]
fn test_simple_csharp_method() {
    let parser = CSharpParser::new().unwrap();
    let source = "public int Add(int a, int b) { return a + b; }";

    let result = parser.parse(source);
    assert!(result.is_ok());

    let uir = result.unwrap();
    assert_eq!(uir.node_type, NodeType::Module);
    assert!(!uir.children.is_empty());
}

#[test]
fn test_csharp_class() {
    let parser = CSharpParser::new().unwrap();
    let source = r#"
public class Calculator {
    public int Add(int a, int b) {
        return a + b;
    }
}
"#;

    let result = parser.parse(source);
    assert!(result.is_ok());
}

#[test]
fn test_csharp_namespace() {
    let parser = CSharpParser::new().unwrap();
    let source = r#"
namespace MathLibrary {
    public class Calculator {
        public static int Add(int a, int b) {
            return a + b;
        }
    }
}
"#;

    let result = parser.parse(source);
    assert!(result.is_ok());
}

#[test]
fn test_simple_go_function() {
    let parser = GoParser::new().unwrap();
    let source = "func add(a, b int) int { return a + b }";

    let result = parser.parse(source);
    assert!(result.is_ok());

    let uir = result.unwrap();
    assert_eq!(uir.node_type, NodeType::Module);
    assert!(!uir.children.is_empty());
}

#[test]
fn test_go_struct() {
    let parser = GoParser::new().unwrap();
    let source = r#"
type Point struct {
    X, Y float64
}

func (p Point) Distance() float64 {
    return math.Sqrt(p.X*p.X + p.Y*p.Y)
}
"#;

    let result = parser.parse(source);
    assert!(result.is_ok());
}

#[test]
fn test_go_interface() {
    let parser = GoParser::new().unwrap();
    let source = r#"
type Writer interface {
    Write([]byte) (int, error)
}
"#;

    let result = parser.parse(source);
    assert!(result.is_ok());
}

#[test]
fn test_go_package() {
    let parser = GoParser::new().unwrap();
    let source = r#"
package main

import "fmt"

func main() {
    fmt.Println("Hello, World!")
}
"#;

    let result = parser.parse(source);
    assert!(result.is_ok());
}

#[test]
fn test_simple_rust_function() {
    let parser = RustParser::new().unwrap();
    let source = "fn add(a: i32, b: i32) -> i32 { a + b }";

    let result = parser.parse(source);
    assert!(result.is_ok());

    let uir = result.unwrap();
    assert_eq!(uir.node_type, NodeType::Module);
    assert!(!uir.children.is_empty());
}

#[test]
fn test_rust_struct() {
    let parser = RustParser::new().unwrap();
    let source = r#"
struct Point {
    x: f64,
    y: f64,
}

impl Point {
    fn new(x: f64, y: f64) -> Point {
        Point { x, y }
    }
}
"#;

    let result = parser.parse(source);
    assert!(result.is_ok());
}

#[test]
fn test_rust_enum() {
    let parser = RustParser::new().unwrap();
    let source = r#"
enum Result<T, E> {
    Ok(T),
    Err(E),
}
"#;

    let result = parser.parse(source);
    assert!(result.is_ok());
}

#[test]
fn test_simple_fsharp_function() {
    let parser = FSharpParser::new().unwrap();
    let source = "let add x y = x + y";

    let result = parser.parse(source);
    assert!(result.is_ok());

    let uir = result.unwrap();
    assert_eq!(uir.node_type, NodeType::Module);
    assert!(!uir.children.is_empty());
}

#[test]
fn test_fsharp_type() {
    let parser = FSharpParser::new().unwrap();
    let source = r#"
type Person = {
    Name: string
    Age: int
}
"#;

    let result = parser.parse(source);
    assert!(result.is_ok());
}

#[test]
fn test_fsharp_module() {
    let parser = FSharpParser::new().unwrap();
    let source = r#"
module Math =
    let add x y = x + y
    let multiply x y = x * y
"#;

    let result = parser.parse(source);
    assert!(result.is_ok());
}

#[test]
fn test_simple_vb_function() {
    let parser = VisualBasicParser::new().unwrap();
    let source = r#"
Function Add(a As Integer, b As Integer) As Integer
    Return a + b
End Function
"#;

    let result = parser.parse(source);
    assert!(result.is_ok());

    let uir = result.unwrap();
    assert_eq!(uir.node_type, NodeType::Module);
    assert!(!uir.children.is_empty());
}

#[test]
fn test_vb_class() {
    let parser = VisualBasicParser::new().unwrap();
    let source = r#"
Public Class Calculator
    Public Function Add(a As Integer, b As Integer) As Integer
        Return a + b
    End Function
End Class
"#;

    let result = parser.parse(source);
    assert!(result.is_ok());
}

#[test]
fn test_vb_module() {
    let parser = VisualBasicParser::new().unwrap();
    let source = r#"
Module MathModule
    Sub Main()
        Console.WriteLine("Hello World!")
    End Sub
End Module
"#;

    let result = parser.parse(source);
    assert!(result.is_ok());
}

#[test]
fn cpp_function_names_come_from_declarators() {
    let parser = CppParser::new().unwrap();
    let uir = parser.parse("int add(int a, int b) { return a + b; }").unwrap();
    // The function definition's name sits inside its declarator.
    let func = uir
        .children
        .iter()
        .find(|c| c.node_type == NodeType::Function)
        .expect("a function child");
    assert_eq!(func.name.as_deref(), Some("add"));
    assert_eq!(func.metadata.semantic_tags, vec!["function_definition"]);
}

#[test]
fn cpp_namespace_names_fall_back_when_unnamed() {
    let parser = CppParser::new().unwrap();
    let uir = parser
        .parse("namespace math { int add(int a, int b) { return a + b; } }")
        .unwrap();
    // The grammar tags namespace names as namespace identifiers, not plain
    // identifiers, so name extraction uses the anonymous fallback.
    let ns = uir
        .children
        .iter()
        .find(|c| c.node_type == NodeType::Module)
        .expect("a namespace child");
    assert_eq!(ns.name.as_deref(), Some("anonymous_namespace"));
}

#[test]
fn csharp_namespace_and_class_names_extracted() {
    let parser = CSharpParser::new().unwrap();
    let uir = parser
        .parse("namespace MathLibrary { public class Calculator { } }")
        .unwrap();
    let ns = &uir.children[0];
    assert_eq!(ns.name.as_deref(), Some("namespace_MathLibrary"));
    fn find_named<'a>(
        node: &'a coalesce::uir::UIRNode,
        name: &str,
    ) -> Option<&'a coalesce::uir::UIRNode> {
        if node.name.as_deref() == Some(name) {
            return Some(node);
        }
        node.children.iter().find_map(|c| find_named(c, name))
    }
    let class = find_named(&uir, "Calculator").expect("the class node");
    assert_eq!(class.node_type, NodeType::Class);
}

#[test]
fn fsharp_function_extraction_names_parameters() {
    let parser = FSharpParser::new().unwrap();
    let uir = parser.parse("let add x y = x + y").unwrap();
    let func = uir
        .children
        .iter()
        .find(|c| c.node_type == NodeType::Function)
        .expect("a function child");
    assert_eq!(func.name.as_deref(), Some("add"));
    assert_eq!(func.id, "func_add");
    let params: Vec<&str> = func.children.iter().filter_map(|c| c.name.as_deref()).collect();
    assert_eq!(params, vec!["x", "y"]);
    assert_eq!(func.source_location.as_ref().unwrap().start_line, 1);
}

#[test]
fn fsharp_module_extraction_names_modules() {
    let parser = FSharpParser::new().unwrap();
    let uir = parser.parse("module Math =\n    let add x y = x + y\n").unwrap();
    let module = uir
        .children
        .iter()
        .find(|c| c.id.starts_with("module_"))
        .expect("a module child");
    assert_eq!(module.name.as_deref(), Some("Math"));
    assert_eq!(module.node_type, NodeType::Module);
}

#[test]
fn vb_function_extraction_names_parameters() {
    let parser = VisualBasicParser::new().unwrap();
    let source = "Function Add(a As Integer, b As Integer) As Integer\nEnd Function\n";
    let uir = parser.parse(source).unwrap();
    let func = uir
        .children
        .iter()
        .find(|c| c.id == "func_Add")
        .expect("the function child");
    assert_eq!(func.name.as_deref(), Some("Add"));
    assert_eq!(func.metadata.semantic_tags, vec!["function"]);
    let params: Vec<&str> = func.children.iter().filter_map(|c| c.name.as_deref()).collect();
    assert_eq!(params, vec!["a", "b"]);
}

#[test]
fn vb_sub_and_property_extraction() {
    let parser = VisualBasicParser::new().unwrap();
    let source = "Sub Main()\nEnd Sub\nProperty Count As Integer\n";
    let uir = parser.parse(source).unwrap();
    let sub = uir.children.iter().find(|c| c.id == "sub_Main").expect("the sub child");
    assert_eq!(sub.name.as_deref(), Some("Main"));
    assert!(sub.children.is_empty());
    let prop = uir.children.iter().find(|c| c.id == "prop_Count").expect("the property child");
    assert_eq!(prop.node_type, NodeType::Variable);
    assert_eq!(prop.name.as_deref(), Some("Count"));
}

#[test]
fn fsharp_binding_values_are_trimmed() {
    let parser = FSharpParser::new().unwrap();
    // The captured value carries the trailing space; the annotation does
    // not. The whitespace budget of a simple binding stays within three.
    let uir = parser.parse("let answer =42 ").unwrap();
    let var = uir
        .children
        .iter()
        .find(|c| c.id == "var_answer")
        .expect("the binding child");
    assert_eq!(var.name.as_deref(), Some("answer"));
    assert_eq!(var.metadata.annotations.value.as_deref(), Some("42"));
}
