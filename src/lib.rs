//! A lexer sub-state for word-like runs: identifiers, keywords, word
//! literals and word operators, with positions and interned identifiers.

pub mod chars;
pub mod cursor;
pub mod interner;
pub mod laws;
pub mod table;
pub mod token;
pub mod word;
