//! A grammar-agnostic lexical scanner: given one source text and an ordered
//! set of pattern-to-category rules, it hands out classified, located tokens
//! one at a time, picking the longest match (the earliest rule winning ties),
//! silently consuming skip tokens while still advancing the line and column,
//! and signalling the end of the input as a token of its own, exactly once.

pub mod laws;
pub mod lex_spec;
pub mod lexer;
pub mod lexical_analysis;
pub mod scan_model;
pub mod text_location;
pub mod token;
pub mod token_regex;
pub mod traceable_token;
