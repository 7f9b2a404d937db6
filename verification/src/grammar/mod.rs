//! The grammar, stated over the sequence of tokens: for each part of the
//! language, what reading it at a position gives.

pub mod cursor;
pub mod expressions;
pub mod items;
pub mod outcome;
pub mod patterns;
pub mod types;
