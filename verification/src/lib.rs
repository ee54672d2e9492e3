//! A lexer for Monkey, a small C-like scripting language.
//!
//! [`lexer`] holds the tokens and the scanner that produces them, [`grammar`]
//! the lexical grammar the scanner is verified against, and [`laws`] the
//! properties of that grammar that callers may rely on.

pub mod grammar;
pub mod laws;
pub mod lexer;
