//! Arithmetic expressions from text to tree: a scanner that turns characters into
//! tokens, and a precedence-climbing parser that builds the expression tree.

pub mod ast;
pub mod parser;
pub mod token;
pub mod tokenizer;
