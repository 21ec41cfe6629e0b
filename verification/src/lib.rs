//! Core of a bytecode interpreter for a statically typed, garbage-managed
//! imperative language: the tagged runtime value representation, the
//! metadata (type) registry with pointer-depth encoding and method tables,
//! the per-function code buffer with its emit primitives, a reflection
//! kind surface, and a recursive-descent parser front end.

pub mod ast;
pub mod errors;
pub mod instruction;
pub mod metadata;
pub mod func;
pub mod names;
pub mod objects;
pub mod parser;
pub mod position;
pub mod reflect;
pub mod scanner;
pub mod token;
pub mod value;
