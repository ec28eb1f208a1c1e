//! Middle and back end of a small compiler: lowers an abstract syntax tree
//! into a linear, register-based intermediate representation, then lowers that
//! representation onto a fixed 64-bit instruction set with explicit physical
//! register allocation, and renders the result as assembly text.

pub mod ast;
pub mod bitbox;
pub mod ir;
pub mod render;
pub mod semantic_analysis;
pub mod str_map;
pub mod symbol_table;
pub mod x86_64_linux;
