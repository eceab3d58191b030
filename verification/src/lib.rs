//! Parser for the annotation argument language of test-declaring markers.
//!
//! The language lets a test author declare named fixtures with positional
//! construction arguments, literal test cases with an optional description,
//! named value lists used to build a cross product of test runs, and a
//! trailing chain of modifiers. The grammar is ambiguous at the token level,
//! so every composite directive classifies each comma-separated slot by
//! speculative parsing: a trial parse at the current position whose result is
//! simply discarded when it fails.
//!
//! The language itself is defined by the specification functions in
//! [`grammar`]; the executable parsers in [`parse`] are proved to return
//! exactly what those functions say.

pub mod ast;
pub mod error;
pub mod grammar;
pub mod host;
pub mod laws;
pub mod parse;
pub mod token;
