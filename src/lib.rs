//! A table-driven tokenization engine and a small C-subset lexer built on it.
//!
//! Source text is scanned left to right; at every cursor position the patterns
//! of a table are tried in declaration order and the first one whose match
//! starts at the cursor classifies the text. Errors are collected, never fatal.
pub mod c_token;
pub mod driver;
pub mod error;
pub mod laws;
pub mod lexer;
pub mod pattern;
pub mod scan;
pub mod span;
pub mod token;
