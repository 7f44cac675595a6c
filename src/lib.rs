//! Front end of a small expression language: a tokenizer and a Pratt
//! expression parser with a table of operator fixities.

pub mod fixity;
pub mod lexer;
pub mod parser;
