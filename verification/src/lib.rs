//! Front end of the Ry language: scanner, syntax tree and parser.

pub mod ast;
pub mod chars;
pub mod diagnostics;
pub mod grammar;
pub mod hint;
pub mod interner;
pub mod laws;
pub mod lexer;
pub mod model;
pub mod operator;
pub mod parser;
pub mod rendering;
pub mod scan;
pub mod serialize;
pub mod span;
pub mod token;
