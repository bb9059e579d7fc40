//! Front end of a lexer generator's regular-expression sub-language.
//!
//! A stream of characters describing a regular expression is tokenized by a
//! scanner with one token of pushback and parsed by recursive descent into an
//! abstract syntax tree of unions, concatenations, closures, literal strings,
//! symbolic references and character classes. A caller-configured set of
//! terminator characters ends an expression without being part of it, so the
//! parser can be embedded in a larger grammar.

pub mod ast;
pub mod parser;
pub mod source;
pub mod token;
