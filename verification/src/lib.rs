//! Code generator that walks the syntax tree of a small scripting language
//! and emits JavaScript text.

pub mod ast;
pub mod compiler;
pub mod decimal;
pub mod env;
pub mod laws;
pub mod macros;
pub mod model;
