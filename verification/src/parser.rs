//! Front-end selection: detects a source language from a file name or the
//! text itself, and builds the front end for a language as a closed union
//! over the supported languages.

use vstd::prelude::*;
use crate::cpp::CppParser;
use crate::csharp::CSharpParser;
use crate::errors::CoalesceError;
use crate::fsharp::FSharpParser;
use crate::go::GoParser;
use crate::javascript::JavaScriptParser;
use crate::rust_parser::RustParser;
use crate::strutil::{contains_seq, contains_str, ends_with_seq, ends_with_str};
use crate::uir::{Language, UIRNode};
use crate::vb::VisualBasicParser;

verus! {

/// The language detected from a file name, when its extension is known.
pub open spec fn spec_lang_of_filename(name: Seq<char>) -> Option<Language> {
    if ends_with_seq(name, ".js"@) || ends_with_seq(name, ".mjs"@) || ends_with_seq(
        name,
        ".jsx"@,
    ) {
        Some(Language::JavaScript)
    } else if ends_with_seq(name, ".c"@) || ends_with_seq(name, ".h"@) {
        Some(Language::C)
    } else if ends_with_seq(name, ".cpp"@) || ends_with_seq(name, ".cxx"@) || ends_with_seq(
        name,
        ".cc"@,
    ) || ends_with_seq(name, ".hpp"@) {
        Some(Language::Cpp)
    } else if ends_with_seq(name, ".rs"@) {
        Some(Language::Rust)
    } else if ends_with_seq(name, ".go"@) {
        Some(Language::Go)
    } else if ends_with_seq(name, ".cs"@) {
        Some(Language::CSharp)
    } else if ends_with_seq(name, ".fs"@) || ends_with_seq(name, ".fsx"@) {
        Some(Language::FSharp)
    } else if ends_with_seq(name, ".vb"@) || ends_with_seq(name, ".bas"@) {
        Some(Language::VisualBasic)
    } else if ends_with_seq(name, ".py"@) {
        Some(Language::Python)
    } else {
        None
    }
}

/// The language guessed from source text, system languages first; the
/// default guess is JavaScript.
pub open spec fn spec_lang_of_source(s: Seq<char>) -> Language {
    if contains_seq(s, "using System"@) || (contains_seq(s, "namespace "@) && contains_seq(
        s,
        "class "@,
    ) && contains_seq(s, "public "@)) {
        Language::CSharp
    } else if contains_seq(s, "let "@) && (contains_seq(s, "="@) || contains_seq(s, "->"@)) && (
    contains_seq(s, "module "@) || contains_seq(s, "type "@)) {
        Language::FSharp
    } else if contains_seq(s, "Sub "@) || contains_seq(s, "Function "@) || contains_seq(
        s,
        "End Sub"@,
    ) || contains_seq(s, "End Function"@) {
        Language::VisualBasic
    } else if contains_seq(s, "fn "@) && (contains_seq(s, "mut "@) || contains_seq(s, "impl "@)
        || contains_seq(s, "struct "@)) {
        Language::Rust
    } else if contains_seq(s, "func "@) && (contains_seq(s, "package "@) || contains_seq(
        s,
        "import "@,
    )) {
        Language::Go
    } else if contains_seq(s, "class "@) && (contains_seq(s, "public:"@) || contains_seq(
        s,
        "private:"@,
    ) || contains_seq(s, "namespace "@)) {
        Language::Cpp
    } else if contains_seq(s, "#include"@) || contains_seq(s, "int main"@) {
        Language::C
    } else if contains_seq(s, "function "@) || contains_seq(s, "const "@) || contains_seq(
        s,
        "let "@,
    ) {
        Language::JavaScript
    } else if contains_seq(s, "def "@) || contains_seq(s, "import "@) {
        Language::Python
    } else {
        Language::JavaScript
    }
}

/// The detected language: the file extension decides when it is known,
/// otherwise the content heuristics do.
pub open spec fn spec_detect_language(source: Seq<char>, filename: Option<Seq<char>>) -> Language {
    match filename {
        Some(name) => match spec_lang_of_filename(name) {
            Some(lang) => lang,
            None => spec_lang_of_source(source),
        },
        None => spec_lang_of_source(source),
    }
}

/// Detects the language of a source text, preferring the file extension
/// and falling back to content heuristics that try system languages first.
pub fn detect_language(source: &str, filename: Option<&str>) -> (r: Language)
    ensures
        r == spec_detect_language(
            source@,
            match filename {
                Some(n) => Some(n@),
                None => None::<Seq<char>>,
            },
        ),
{
    match filename {
        Some(name) => {
            if ends_with_str(name, ".js") || ends_with_str(name, ".mjs") || ends_with_str(
                name,
                ".jsx",
            ) {
                return Language::JavaScript;
            }
            if ends_with_str(name, ".c") || ends_with_str(name, ".h") {
                return Language::C;
            }
            if ends_with_str(name, ".cpp") || ends_with_str(name, ".cxx") || ends_with_str(
                name,
                ".cc",
            ) || ends_with_str(name, ".hpp") {
                return Language::Cpp;
            }
            if ends_with_str(name, ".rs") {
                return Language::Rust;
            }
            if ends_with_str(name, ".go") {
                return Language::Go;
            }
            if ends_with_str(name, ".cs") {
                return Language::CSharp;
            }
            if ends_with_str(name, ".fs") || ends_with_str(name, ".fsx") {
                return Language::FSharp;
            }
            if ends_with_str(name, ".vb") || ends_with_str(name, ".bas") {
                return Language::VisualBasic;
            }
            if ends_with_str(name, ".py") {
                return Language::Python;
            }
            detect_language_from_source(source)
        },
        None => detect_language_from_source(source),
    }
}

/// Applies the content heuristics.
fn detect_language_from_source(source: &str) -> (r: Language)
    ensures
        r == spec_lang_of_source(source@),
{
    if contains_str(source, "using System") || (contains_str(source, "namespace ") && contains_str(
        source,
        "class ",
    ) && contains_str(source, "public ")) {
        Language::CSharp
    } else if contains_str(source, "let ") && (contains_str(source, "=") || contains_str(
        source,
        "->",
    )) && (contains_str(source, "module ") || contains_str(source, "type ")) {
        Language::FSharp
    } else if contains_str(source, "Sub ") || contains_str(source, "Function ") || contains_str(
        source,
        "End Sub",
    ) || contains_str(source, "End Function") {
        Language::VisualBasic
    } else if contains_str(source, "fn ") && (contains_str(source, "mut ") || contains_str(
        source,
        "impl ",
    ) || contains_str(source, "struct ")) {
        Language::Rust
    } else if contains_str(source, "func ") && (contains_str(source, "package ") || contains_str(
        source,
        "import ",
    )) {
        Language::Go
    } else if contains_str(source, "class ") && (contains_str(source, "public:") || contains_str(
        source,
        "private:",
    ) || contains_str(source, "namespace ")) {
        Language::Cpp
    } else if contains_str(source, "#include") || contains_str(source, "int main") {
        Language::C
    } else if contains_str(source, "function ") || contains_str(source, "const ") || contains_str(
        source,
        "let ",
    ) {
        Language::JavaScript
    } else if contains_str(source, "def ") || contains_str(source, "import ") {
        Language::Python
    } else {
        Language::JavaScript
    }
}

/// A front end for one supported language: a closed union in place of
/// dynamic dispatch.
pub enum AnyParser {
    JavaScript(JavaScriptParser),
    C(CppParser),
    Cpp(CppParser),
    CSharp(CSharpParser),
    FSharp(FSharpParser),
    VisualBasic(VisualBasicParser),
    Rust(RustParser),
    Go(GoParser),
}

/// The languages a front end exists for.
pub open spec fn spec_parser_supported(lang: Language) -> bool {
    ||| lang == Language::JavaScript
    ||| lang == Language::C
    ||| lang == Language::Cpp
    ||| lang == Language::CSharp
    ||| lang == Language::FSharp
    ||| lang == Language::VisualBasic
    ||| lang == Language::Rust
    ||| lang == Language::Go
}

/// The language a front end handles, by its variant.
pub open spec fn spec_parser_language(p: AnyParser) -> Language {
    match p {
        AnyParser::JavaScript(_) => Language::JavaScript,
        AnyParser::C(_) => Language::C,
        AnyParser::Cpp(_) => Language::Cpp,
        AnyParser::CSharp(_) => Language::CSharp,
        AnyParser::FSharp(_) => Language::FSharp,
        AnyParser::VisualBasic(_) => Language::VisualBasic,
        AnyParser::Rust(_) => Language::Rust,
        AnyParser::Go(_) => Language::Go,
    }
}

impl AnyParser {
    /// The language this front end handles.
    pub fn language(&self) -> (r: Language)
        ensures
            r == spec_parser_language(*self),
            spec_parser_supported(r),
    {
        match self {
            AnyParser::JavaScript(_) => Language::JavaScript,
            AnyParser::C(_) => Language::C,
            AnyParser::Cpp(_) => Language::Cpp,
            AnyParser::CSharp(_) => Language::CSharp,
            AnyParser::FSharp(_) => Language::FSharp,
            AnyParser::VisualBasic(_) => Language::VisualBasic,
            AnyParser::Rust(_) => Language::Rust,
            AnyParser::Go(_) => Language::Go,
        }
    }

    /// Parses source text with this front end. C sources are normalized by
    /// the C++ front end, whose grammar accepts them.
    pub fn parse(&self, source: &str) -> (r: Result<UIRNode, CoalesceError>)
        ensures
            self is JavaScript && crate::cst::js_cst(source@) is Some && !crate::cst::js_cst(
                source@,
            )->Some_0.has_error && crate::javascript::js_ok(crate::cst::js_cst(source@)->Some_0)
                ==> (r matches Ok(u) && crate::javascript::js_rel(
                crate::cst::js_cst(source@)->Some_0,
                u,
            )),
            (self is C || self is Cpp) && crate::cst::cpp_cst(source@) is Some ==> (r matches Ok(
                u,
            ) && crate::normalize::uir_of_cst(
                Language::Cpp,
                crate::cst::cpp_cst(source@)->Some_0,
                u,
            )),
            self is CSharp && crate::cst::csharp_cst(source@) is Some ==> (r matches Ok(u)
                && crate::normalize::uir_of_cst(
                Language::CSharp,
                crate::cst::csharp_cst(source@)->Some_0,
                u,
            )),
            self is Rust && crate::cst::rust_cst(source@) is Some ==> (r matches Ok(u)
                && crate::normalize::uir_of_cst(
                Language::Rust,
                crate::cst::rust_cst(source@)->Some_0,
                u,
            )),
            self is Go && crate::cst::go_cst(source@) is Some ==> (r matches Ok(u)
                && crate::normalize::uir_of_cst(
                Language::Go,
                crate::cst::go_cst(source@)->Some_0,
                u,
            )),
            self is FSharp ==> (r matches Ok(u) && crate::fsharp::fsharp_parsed(source@, u)),
            self is VisualBasic ==> (r matches Ok(u) && crate::vb::vb_parsed(source@, u)),
    {
        match self {
            AnyParser::JavaScript(p) => p.parse(source),
            AnyParser::C(p) => p.parse(source),
            AnyParser::Cpp(p) => p.parse(source),
            AnyParser::CSharp(p) => p.parse(source),
            AnyParser::FSharp(p) => p.parse(source),
            AnyParser::VisualBasic(p) => p.parse(source),
            AnyParser::Rust(p) => p.parse(source),
            AnyParser::Go(p) => p.parse(source),
        }
    }
}

/// Builds the front end for a language; languages without one are
/// rejected.
pub fn create_parser(language: Language) -> (r: Result<AnyParser, CoalesceError>)
    ensures
        r is Ok <==> spec_parser_supported(language),
        r matches Ok(p) ==> spec_parser_language(p) == language,
        r matches Err(e) ==> e is ParseError,
{
    match language {
        Language::JavaScript => match JavaScriptParser::new() {
            Ok(p) => Ok(AnyParser::JavaScript(p)),
            Err(e) => Err(e),
        },
        Language::C => match CppParser::new() {
            Ok(p) => Ok(AnyParser::C(p)),
            Err(e) => Err(e),
        },
        Language::Cpp => match CppParser::new() {
            Ok(p) => Ok(AnyParser::Cpp(p)),
            Err(e) => Err(e),
        },
        Language::CSharp => match CSharpParser::new() {
            Ok(p) => Ok(AnyParser::CSharp(p)),
            Err(e) => Err(e),
        },
        Language::FSharp => match FSharpParser::new() {
            Ok(p) => Ok(AnyParser::FSharp(p)),
            Err(e) => Err(e),
        },
        Language::VisualBasic => match VisualBasicParser::new() {
            Ok(p) => Ok(AnyParser::VisualBasic(p)),
            Err(e) => Err(e),
        },
        Language::Rust => match RustParser::new() {
            Ok(p) => Ok(AnyParser::Rust(p)),
            Err(e) => Err(e),
        },
        Language::Go => match GoParser::new() {
            Ok(p) => Ok(AnyParser::Go(p)),
            Err(e) => Err(e),
        },
        Language::Python => Err(
            CoalesceError::ParseError {
                message: String::from_str("Python parser not yet implemented"),
                line: 0,
                column: 0,
            },
        ),
        Language::Cobol => Err(
            CoalesceError::ParseError {
                message: String::from_str("COBOL parser not yet implemented"),
                line: 0,
                column: 0,
            },
        ),
        _ => Err(
            CoalesceError::ParseError {
                message: String::from_str("Unsupported language"),
                line: 0,
                column: 0,
            },
        ),
    }
}

/// Parses JavaScript source text.
pub fn parse_javascript(source: &str) -> (r: Result<UIRNode, CoalesceError>)
    ensures
        crate::cst::js_cst(source@) is Some && !crate::cst::js_cst(source@)->Some_0.has_error
            && crate::javascript::js_ok(crate::cst::js_cst(source@)->Some_0) ==> (r matches Ok(u)
            && crate::javascript::js_rel(crate::cst::js_cst(source@)->Some_0, u)),
        crate::cst::js_cst(source@) is Some && crate::cst::js_cst(source@)->Some_0.has_error
            ==> (r matches Ok(u) && crate::javascript::js_recovery_rel(
            crate::cst::js_cst(source@)->Some_0,
            u,
        )),
{
    let parser = JavaScriptParser {  };
    parser.parse(source)
}

/// Parses C source text; the C++ grammar accepts C.
pub fn parse_c(source: &str) -> (r: Result<UIRNode, CoalesceError>)
    ensures
        r is Ok <==> crate::cst::cpp_cst(source@) is Some,
        r matches Ok(u) ==> crate::normalize::uir_of_cst(
            Language::Cpp,
            crate::cst::cpp_cst(source@)->Some_0,
            u,
        ),
{
    let parser = CppParser {  };
    parser.parse(source)
}

/// Parses C++ source text.
pub fn parse_cpp(source: &str) -> (r: Result<UIRNode, CoalesceError>)
    ensures
        r is Ok <==> crate::cst::cpp_cst(source@) is Some,
        r matches Ok(u) ==> crate::normalize::uir_of_cst(
            Language::Cpp,
            crate::cst::cpp_cst(source@)->Some_0,
            u,
        ),
{
    let parser = CppParser {  };
    parser.parse(source)
}

/// Parses Rust source text.
pub fn parse_rust(source: &str) -> (r: Result<UIRNode, CoalesceError>)
    ensures
        r is Ok <==> crate::cst::rust_cst(source@) is Some,
        r matches Ok(u) ==> crate::normalize::uir_of_cst(
            Language::Rust,
            crate::cst::rust_cst(source@)->Some_0,
            u,
        ),
{
    let parser = RustParser {  };
    parser.parse(source)
}

/// Parses Go source text.
pub fn parse_go(source: &str) -> (r: Result<UIRNode, CoalesceError>)
    ensures
        r is Ok <==> crate::cst::go_cst(source@) is Some,
        r matches Ok(u) ==> crate::normalize::uir_of_cst(
            Language::Go,
            crate::cst::go_cst(source@)->Some_0,
            u,
        ),
{
    let parser = GoParser {  };
    parser.parse(source)
}

/// Parses C# source text.
pub fn parse_csharp(source: &str) -> (r: Result<UIRNode, CoalesceError>)
    ensures
        r is Ok <==> crate::cst::csharp_cst(source@) is Some,
        r matches Ok(u) ==> crate::normalize::uir_of_cst(
            Language::CSharp,
            crate::cst::csharp_cst(source@)->Some_0,
            u,
        ),
{
    let parser = CSharpParser {  };
    parser.parse(source)
}

/// Parses F# source text.
pub fn parse_fsharp(source: &str) -> (r: Result<UIRNode, CoalesceError>)
    ensures
        r matches Ok(u) && crate::fsharp::fsharp_parsed(source@, u),
{
    let parser = FSharpParser {  };
    parser.parse(source)
}

/// Parses Visual Basic source text.
pub fn parse_vb(source: &str) -> (r: Result<UIRNode, CoalesceError>)
    ensures
        r matches Ok(u) && crate::vb::vb_parsed(source@, u),
{
    let parser = VisualBasicParser {  };
    parser.parse(source)
}

/// A placeholder front end for Python source text: a single function node
/// when a definition keyword occurs, an error otherwise.
pub fn parse_python(source: &str) -> (r: Result<UIRNode, CoalesceError>)
    ensures
        r is Ok <==> contains_seq(source@, "def "@),
        r matches Ok(u) ==> {
            &&& u.id@ == "python_func"@
            &&& u.node_type == crate::uir::NodeType::Function
            &&& u.name.deep_view() == Some("extracted_function"@)
            &&& u.children@.len() == 0
            &&& u.source_location is None
        },
        r matches Err(e) ==> (e matches CoalesceError::ParseError { message, line, column }
            && message@ == "No Python functions found"@ && line == 0 && column == 0),
{
    if contains_str(source, "def ") {
        Ok(
            UIRNode::new(
                String::from_str("python_func"),
                crate::uir::NodeType::Function,
            ).with_name(String::from_str("extracted_function")),
        )
    } else {
        Err(
            CoalesceError::ParseError {
                message: String::from_str("No Python functions found"),
                line: 0,
                column: 0,
            },
        )
    }
}

} // verus!
