//! Abstract syntax core for a small statically typed scripting language.
//!
//! The crate defines the node taxonomy a parser produces (`Statement`,
//! `Expression`), the source positions every node carries, the operator
//! table that maps lexemes to binding powers, and the precedence-climbing
//! fold that assembles `Binary` nodes from a flat operand/operator stream.

pub mod ast;
pub mod climb;
pub mod operator;
pub mod source;
