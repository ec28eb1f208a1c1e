//! The name table handed over by the front end alongside the syntax tree:
//! a list of symbols with their kind, scope, type and source span. The
//! lowering passes carry it through unchanged.

use vstd::prelude::*;
use crate::ast::Span;
use crate::ir::Reg;

verus! {

/// The kind of a symbol.
#[derive(Debug, Clone, Copy, PartialEq, Eq, Hash, Structural)]
pub enum SymbolType {
    Function,
    Variable,
    Parameter,
}

/// Where a symbol is visible.
#[derive(Debug, Clone, PartialEq, Eq, Hash)]
pub enum Scope {
    Global,
    Function(String),
}

impl Default for Scope {
    fn default() -> (r: Self)
        ensures
            r is Global,
    {
        Scope::Global
    }
}

/// A symbol key: its name within its scope.
#[derive(Debug, Clone, PartialEq, Eq, Hash)]
pub struct Symbol {
    pub scope: Scope,
    pub name: String,
}

/// A type name as the front end records it.
#[derive(Debug, Clone, PartialEq, Eq, Hash)]
pub enum TypeName {
    Bool,
    Char,
    Custom(String),
    F32,
    F64,
    I32,
    I64,
    Null,
    Str,
    U32,
    U64,
    Void,
}

/// What the table records about one symbol.
#[derive(Debug, Clone)]
pub struct SymbolData {
    pub ty: SymbolType,
    pub scope: Scope,
    pub ty_name: TypeName,
    pub reg: Option<Reg>,
    pub span: Span,
}

/// The front end's symbol table, carried through the lowering unchanged.
#[derive(Debug, Clone)]
pub struct SymbolTable {
    pub entries: Vec<(Symbol, SymbolData)>,
}

impl Default for SymbolTable {
    fn default() -> (r: Self)
        ensures
            r.entries@ =~= Seq::<(Symbol, SymbolData)>::empty(),
    {
        SymbolTable { entries: Vec::new() }
    }
}

} // verus!
