//! A lexical scanner for a small C-like scripting language.
//!
//! The scanner turns raw source text into a sequence of classified tokens,
//! each carrying the line and column at which it was produced. It is the
//! first stage of an interpreter pipeline; the later stages (parser,
//! evaluator) consume the token sequence it returns.

pub mod laws;
pub mod tokenize;
