//! Error taxonomy of the translation core.

use vstd::prelude::*;
use crate::uir::Language;
use crate::strutil::dec_digits;

verus! {

/// Errors surfaced by the translation core. Parse failures carry a 1-based
/// line and a column; a missing front-end or detector registration for a
/// language is reported as `UnsupportedLanguage`.
#[derive(Debug)]
pub enum CoalesceError {
    ParseError { message: String, line: u32, column: u32 },
    GenerationError(String),
    UnsupportedLanguage(Language),
    TransformationError(String),
    LegacyPatternError { pattern: String },
}

/// The rendered description of a parse error.
pub open spec fn parse_error_text(message: Seq<char>, line: u32, column: u32) -> Seq<char> {
    "Parse error: "@ + message + " at line "@ + dec_digits(line as nat) + ", column "@
        + dec_digits(column as nat)
}

impl CoalesceError {
    /// A human-readable description of the error.
    pub fn message(&self) -> (r: String)
        ensures
            self matches CoalesceError::ParseError { message, line, column } ==> r@
                == parse_error_text(message@, *line, *column),
            self matches CoalesceError::GenerationError(m) ==> r@ == "Generation error: "@
                + m@,
            self is UnsupportedLanguage ==> r@ == "Unsupported language"@,
            self matches CoalesceError::TransformationError(m) ==> r@
                == "Transformation error: "@ + m@,
            self matches CoalesceError::LegacyPatternError { pattern } ==> r@
                == "Legacy pattern preservation failed: "@ + pattern@,
    {
        match self {
            CoalesceError::ParseError { message, line, column } => {
                let mut s = String::from_str("Parse error: ");
                s.append(message.as_str());
                s.append(" at line ");
                let ls = crate::strutil::u32_to_string(*line);
                s.append(ls.as_str());
                s.append(", column ");
                let cs = crate::strutil::u32_to_string(*column);
                s.append(cs.as_str());
                s
            },
            CoalesceError::GenerationError(m) => {
                let mut s = String::from_str("Generation error: ");
                s.append(m.as_str());
                s
            },
            CoalesceError::UnsupportedLanguage(_) => String::from_str("Unsupported language"),
            CoalesceError::TransformationError(m) => {
                let mut s = String::from_str("Transformation error: ");
                s.append(m.as_str());
                s
            },
            CoalesceError::LegacyPatternError { pattern } => {
                let mut s = String::from_str("Legacy pattern preservation failed: ");
                s.append(pattern.as_str());
                s
            },
        }
    }
}

} // verus!
