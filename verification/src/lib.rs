//! Cross-language code translation core: a universal intermediate
//! representation (UIR) for source trees, normalization of concrete syntax
//! trees onto it, detection of library idioms in raw source text, a registry
//! of known library patterns, and a transformer that rewrites detected
//! idioms for a target ecosystem.

pub mod cpp;
pub mod csharp;
pub mod cst;
pub mod detector;
pub mod errors;
pub mod fsharp;
pub mod go;
pub mod ident;
pub mod javascript;
pub mod lal;
pub mod mapping;
pub mod normalize;
pub mod parser;
pub mod patterns;
pub mod registry;
pub mod regexutil;
pub mod rust_parser;
pub mod strutil;
pub mod template;
pub mod transformer;
pub mod uir;
pub mod vb;
